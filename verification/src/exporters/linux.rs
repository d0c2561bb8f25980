//! Linux packaging: synthesizes the desktop entry and install script for
//! non-storefront builds, stages the project icon, and packages every staged
//! file as a gzip-compressed tar archive or a named output directory.

use crate::exporters::staging::{
    container_name, container_name_of, executable_base_name, executable_base_of, files_view,
    PackageOutput, StagedFile,
};
use crate::exporters::ExportPreset;
use crate::text::{
    after_last_slash, file_name_component, lower_of, lowercase, replace_spaces,
    space_to_underscore,
};
use vstd::prelude::*;
use vstd::string::{StrSliceExecFns, StringExecFns};
use vstd::utf8::encode_utf8;

verus! {

/// Per-preset Linux packaging configuration.
pub struct Conf {
    pub project_name: String,
    pub project_version: String,
    pub project_icon: String,
}

/// Packages one preset's staged artifacts for Linux.
pub struct LinuxExporter {
    pub conf: Conf,
    pub preset: ExportPreset,
}

/// The text of the synthesized desktop-entry descriptor: it shows the
/// project's name and launches the executable from its fixed install path.
pub open spec fn desktop_file_text_of(project_name: Seq<char>) -> Seq<char> {
    "[Desktop Entry]\nType=Application\nName="@ + project_name
        + "\nExec=sh -c /usr/local/bin/"@ + space_to_underscore(lower_of(project_name))
        + "\nCategories=Game;"@
}

pub fn get_desktop_file_text(project_name: &str) -> (r: String)
    ensures
        r@ == desktop_file_text_of(project_name@),
{
    let lower = lowercase(project_name);
    let norm = replace_spaces(lower.as_str());
    let mut s = String::new();
    s.append("[Desktop Entry]\nType=Application\nName=");
    s.append(project_name);
    s.append("\nExec=sh -c /usr/local/bin/");
    s.append(norm.as_str());
    s.append("\nCategories=Game;");
    s
}

/// The text of the synthesized POSIX install script: it copies the
/// executable, data file, icon and desktop entry into fixed system
/// locations and marks the desktop entry executable.
pub open spec fn install_script_text_of(project_name: Seq<char>) -> Seq<char> {
    let n = space_to_underscore(lower_of(project_name));
    "#!/bin/sh\n\nBINARY_DIRECTORY=/usr/local/bin/\n\ncp -f "@ + n + " $BINARY_DIRECTORY/"@ + n
        + "\ncp -f "@ + n + ".pck $BINARY_DIRECTORY/"@ + n + ".pck\ncp -f "@ + n
        + ".png /usr/share/pixmaps/"@ + n + ".png\ncp -f "@ + n
        + ".desktop /usr/share/applications/"@ + n
        + ".desktop\nchmod u+x /usr/share/applications/"@ + n + ".desktop"@
}

pub fn get_install_script_text(project_name: &str) -> (r: String)
    ensures
        r@ == install_script_text_of(project_name@),
{
    let lower = lowercase(project_name);
    let norm = replace_spaces(lower.as_str());
    let mut s = String::new();
    s.append("#!/bin/sh\n\nBINARY_DIRECTORY=/usr/local/bin/\n\ncp -f ");
    s.append(norm.as_str());
    s.append(" $BINARY_DIRECTORY/");
    s.append(norm.as_str());
    s.append("\ncp -f ");
    s.append(norm.as_str());
    s.append(".pck $BINARY_DIRECTORY/");
    s.append(norm.as_str());
    s.append(".pck\ncp -f ");
    s.append(norm.as_str());
    s.append(".png /usr/share/pixmaps/");
    s.append(norm.as_str());
    s.append(".png\ncp -f ");
    s.append(norm.as_str());
    s.append(".desktop /usr/share/applications/");
    s.append(norm.as_str());
    s.append(".desktop\nchmod u+x /usr/share/applications/");
    s.append(norm.as_str());
    s.append(".desktop");
    s
}

/// A `.` path component begins at index `i` of the name.
pub open spec fn dot_component_at(name: Seq<char>, i: int) -> bool {
    &&& 0 <= i < name.len()
    &&& name[i] == '.'
    &&& (i == 0 || name[i - 1] == '/')
    &&& (i + 1 == name.len() || name[i + 1] == '/')
}

/// A `..` path component begins at index `i` of the name.
pub open spec fn dotdot_component_at(name: Seq<char>, i: int) -> bool {
    &&& 0 <= i
    &&& i + 2 <= name.len()
    &&& name[i] == '.'
    &&& name[i + 1] == '.'
    &&& (i == 0 || name[i - 1] == '/')
    &&& (i + 2 == name.len() || name[i + 2] == '/')
}

pub open spec fn has_dot_component(name: Seq<char>) -> bool {
    exists|i: int| dot_component_at(name, i)
}

pub open spec fn has_dotdot_component(name: Seq<char>) -> bool {
    exists|i: int| dotdot_component_at(name, i)
}

/// A name the tar writer accepts without error and writes the same way on
/// every platform: nonempty, relative, free of NUL (which tar rejects) and
/// of backslash (which tar rewrites to `/` on Windows, so it would break
/// the encoding's machine-independence), and without `.` or `..` path
/// components. This is slightly narrower than tar's own rule (a lone `.`
/// would be tolerated), which is sound for a precondition.
pub open spec fn tar_safe_name(name: Seq<char>) -> bool {
    &&& name.len() > 0
    &&& name[0] != '/'
    &&& forall|i: int| 0 <= i < name.len() ==> #[trigger] name[i] != '\0' && name[i] != '\\'
    &&& !has_dot_component(name)
    &&& !has_dotdot_component(name)
}

/// Decides `tar_safe_name`, so that unverified callers can test a name
/// before asking for an archive.
pub fn is_tar_safe_name(name: &str) -> (r: bool)
    ensures
        r == tar_safe_name(name@),
{
    let n = name.unicode_len();
    if n == 0 {
        return false;
    }
    if name.get_char(0) == '/' {
        return false;
    }
    let mut i: usize = 0;
    while i < n
        invariant
            0 < n,
            n == name@.len(),
            i <= n,
            name@[0] != '/',
            forall|p: int| 0 <= p < i ==> #[trigger] name@[p] != '\0' && name@[p] != '\\',
            forall|p: int| 0 <= p < i ==> !dot_component_at(name@, p),
            forall|p: int| 0 <= p < i ==> !dotdot_component_at(name@, p),
        decreases n - i,
    {
        let c = name.get_char(i);
        if c == '\0' || c == '\\' {
            return false;
        }
        let at_start = if i == 0 {
            true
        } else {
            name.get_char(i - 1) == '/'
        };
        if at_start && c == '.' {
            if i + 1 == n {
                proof {
                    assert(dot_component_at(name@, i as int));
                }
                return false;
            }
            let c1 = name.get_char(i + 1);
            if c1 == '/' {
                proof {
                    assert(dot_component_at(name@, i as int));
                }
                return false;
            }
            if c1 == '.' {
                if i + 2 == n {
                    proof {
                        assert(dotdot_component_at(name@, i as int));
                    }
                    return false;
                }
                if name.get_char(i + 2) == '/' {
                    proof {
                        assert(dotdot_component_at(name@, i as int));
                    }
                    return false;
                }
            }
        }
        proof {
            assert(!dot_component_at(name@, i as int));
            assert(!dotdot_component_at(name@, i as int));
        }
        i += 1;
    }
    proof {
        if has_dot_component(name@) {
            let p = choose|p: int| dot_component_at(name@, p);
        }
        if has_dotdot_component(name@) {
            let p = choose|p: int| dotdot_component_at(name@, p);
        }
    }
    true
}

/// A nonempty name without slashes, backslashes or NULs that is not `.`
/// or `..` is a name tar accepts.
pub proof fn lemma_slashless_tar_safe(name: Seq<char>)
    requires
        name.len() > 0,
        forall|i: int|
            0 <= i < name.len() ==> #[trigger] name[i] != '/' && name[i] != '\0' && name[i]
                != '\\',
        name.len() == 1 ==> name[0] != '.',
        name.len() == 2 ==> !(name[0] == '.' && name[1] == '.'),
    ensures
        tar_safe_name(name),
{
    assert(!has_dot_component(name)) by {
        if has_dot_component(name) {
            let i = choose|i: int| dot_component_at(name, i);
            assert(i == 0);
            assert(i + 1 == name.len());
        }
    }
    assert(!has_dotdot_component(name)) by {
        if has_dotdot_component(name) {
            let i = choose|i: int| dotdot_component_at(name, i);
            assert(i == 0);
            assert(i + 2 == name.len());
        }
    }
}

/// A tar archive under construction, compressed into an in-memory gzip
/// stream. The builder itself is the `tar` crate's; Verus sees only the
/// abstract list of appended entries, `tar_entries`.
#[verifier::external_body]
pub struct TarArchiveWriter {
    inner: tar::Builder<flate2::write::GzEncoder<Vec<u8>>>,
}

/// The name/content pairs appended to the tar writer so far.
pub uninterp spec fn tar_entries(w: TarArchiveWriter) -> Seq<(Seq<char>, Seq<u8>)>;

/// The gzip-compressed tar archive that encodes the given entries.
pub uninterp spec fn tar_gz_of(entries: Seq<(Seq<char>, Seq<u8>)>) -> Seq<u8>;

impl TarArchiveWriter {
    /// Relies on `tar::Builder::new` over `flate2::write::GzEncoder::new`
    /// with the default compression level: a fresh builder holds no
    /// entries, and the gzip header carries no timestamp.
    #[verifier::external_body]
    pub fn new() -> (w: TarArchiveWriter)
        ensures
            tar_entries(w) == Seq::<(Seq<char>, Seq<u8>)>::empty(),
    {
        TarArchiveWriter {
            inner: tar::Builder::new(
                flate2::write::GzEncoder::new(Vec::new(), flate2::Compression::default()),
            ),
        }
    }

    /// Relies on `tar::Builder::append_data`: appends one entry under the
    /// given name with the given bytes; the header's mode is fixed and its
    /// timestamp zero, so the archive depends on the entries alone.
    /// `append_data` rejects empty, absolute or `..`-bearing names, so the
    /// precondition keeps to names it accepts and the call cannot fail.
    #[verifier::external_body]
    pub fn append(&mut self, name: &str, data: &Vec<u8>)
        requires
            tar_safe_name(name@),
        ensures
            tar_entries(*final (self)) == tar_entries(*old(self)).push((name@, data@)),
    {
        let mut header = tar::Header::new_gnu();
        header.set_size(data.len() as u64);
        header.set_mode(0o644);
        self.inner.append_data(&mut header, name, data.as_slice()).unwrap();
    }

    /// Relies on `tar::Builder::into_inner` and
    /// `flate2::write::GzEncoder::finish`: the finished archive's bytes are
    /// a function of the appended entries alone.
    #[verifier::external_body]
    pub fn finish(self) -> (r: Vec<u8>)
        ensures
            r@ == tar_gz_of(tar_entries(self)),
    {
        self.inner.into_inner().unwrap().finish().unwrap()
    }
}

/// Encodes the given files, in order, as a gzip-compressed tar archive.
pub fn encode_tar_gz(entries: &Vec<StagedFile>) -> (r: Vec<u8>)
    requires
        forall|i: int| 0 <= i < entries@.len() ==> tar_safe_name(
            (#[trigger] entries@[i]).name@,
        ),
    ensures
        r@ == tar_gz_of(files_view(entries@)),
{
    let mut b = TarArchiveWriter::new();
    let n = entries.len();
    let mut i: usize = 0;
    proof {
        assert(tar_entries(b) =~= files_view(entries@).subrange(0, 0));
    }
    while i < n
        invariant
            i <= n,
            n == entries@.len(),
            forall|j: int| 0 <= j < entries@.len() ==> tar_safe_name(
                (#[trigger] entries@[j]).name@,
            ),
            tar_entries(b) =~= files_view(entries@).subrange(0, i as int),
        decreases n - i,
    {
        b.append(entries[i].name.as_str(), &entries[i].data);
        proof {
            let pre = files_view(entries@).subrange(0, i + 1 as int);
            assert(pre.drop_last() =~= files_view(entries@).subrange(0, i as int));
            assert(pre.last() == files_view(entries@)[i as int]);
            assert(tar_entries(b) =~= pre);
        }
        i += 1;
    }
    proof {
        assert(files_view(entries@).subrange(0, n as int) =~= files_view(entries@));
    }
    b.finish()
}

/// The full set of files a Linux preset packages: the staged build output,
/// and for non-storefront builds the synthesized desktop entry, the
/// synthesized install script, and the project icon after it — the
/// synthesized files join the staging area before collection.
pub open spec fn linux_package_entries(
    staged: Seq<(Seq<char>, Seq<u8>)>,
    project_name: Seq<char>,
    project_icon: Seq<char>,
    icon_data: Seq<u8>,
    steam: bool,
) -> Seq<(Seq<char>, Seq<u8>)> {
    if steam {
        staged
    } else {
        staged.push(
            (
                executable_base_of(project_name) + ".desktop"@,
                encode_utf8(desktop_file_text_of(project_name)),
            ),
        ).push(("install.sh"@, encode_utf8(install_script_text_of(project_name)))).push(
            (after_last_slash(project_icon), icon_data),
        )
    }
}

/// Every name an archive-mode Linux package would hold is one the tar
/// writer accepts: the staged names, the icon's base name, and the
/// synthesized desktop entry's name (the install script's fixed name is
/// always acceptable).
pub open spec fn tar_entry_names_ok(
    staged: Seq<StagedFile>,
    project_name: Seq<char>,
    project_icon: Seq<char>,
    steam: bool,
) -> bool {
    &&& forall|i: int| 0 <= i < staged.len() ==> tar_safe_name((#[trigger] staged[i]).name@)
    &&& (!steam ==> tar_safe_name(after_last_slash(project_icon)))
    &&& (!steam ==> tar_safe_name(executable_base_of(project_name) + ".desktop"@))
}

/// Whether every staged file bears a name the tar writer accepts.
pub fn all_names_tar_safe(files: &Vec<StagedFile>) -> (r: bool)
    ensures
        r == (forall|i: int|
            0 <= i < files@.len() ==> tar_safe_name((#[trigger] files@[i]).name@)),
{
    let n = files.len();
    let mut i: usize = 0;
    while i < n
        invariant
            i <= n,
            n == files@.len(),
            forall|j: int| 0 <= j < i ==> tar_safe_name((#[trigger] files@[j]).name@),
        decreases n - i,
    {
        if !is_tar_safe_name(files[i].name.as_str()) {
            return false;
        }
        i += 1;
    }
    true
}

/// Every file staged before packaging is present, byte-identical and in
/// order, among the packaged entries: synthesized desktop-integration files
/// only follow the staged ones, never replace them.
pub proof fn lemma_staged_files_preserved(
    staged: Seq<(Seq<char>, Seq<u8>)>,
    project_name: Seq<char>,
    project_icon: Seq<char>,
    icon_data: Seq<u8>,
    steam: bool,
)
    ensures
        linux_package_entries(staged, project_name, project_icon, icon_data, steam).len()
            >= staged.len(),
        forall|i: int|
            0 <= i < staged.len() ==> linux_package_entries(
                staged,
                project_name,
                project_icon,
                icon_data,
                steam,
            )[i] == staged[i],
{
}

impl LinuxExporter {
    /// The base name the build tool is told to write the executable under.
    pub fn executable_file_name(&self) -> (r: String)
        ensures
            r@ == executable_base_of(self.conf.project_name@),
    {
        executable_base_name(self.conf.project_name.as_str())
    }

    /// Packages the staged artifacts of this preset: drains the staging
    /// area into one tar.gz archive (archive mode) or one output directory
    /// (directory mode), both named deterministically. For non-storefront
    /// builds the synthesized desktop entry, the install script and the
    /// project icon join the staging area before collection, so all three
    /// end up inside the archive or directory. In archive mode every entry
    /// name must be one the tar writer accepts.
    pub fn package(&self, compress: bool, staging: &mut Vec<StagedFile>, icon_data: Vec<u8>) -> (r:
        PackageOutput)
        requires
            compress ==> tar_entry_names_ok(
                old(staging)@,
                self.conf.project_name@,
                self.conf.project_icon@,
                self.preset.steam,
            ),
        ensures
            final (staging)@.len() == 0,
            ({
                let full = linux_package_entries(
                    files_view(old(staging)@),
                    self.conf.project_name@,
                    self.conf.project_icon@,
                    icon_data@,
                    self.preset.steam,
                );
                let cname = container_name_of(
                    executable_base_of(self.conf.project_name@),
                    self.preset.name@,
                    self.conf.project_version@,
                );
                &&& (compress ==> (r matches PackageOutput::Archive { file_name, entries, bytes }
                    && file_name@ == cname + ".tar.gz"@ && files_view(entries@) == full && bytes@
                    == tar_gz_of(full)))
                &&& (!compress ==> (r matches PackageOutput::Directory { dir_name, files }
                    && dir_name@ == cname && files_view(files@) == full))
            }),
    {
        let ghost staged_len = old(staging)@.len() as int;
        let base = executable_base_name(self.conf.project_name.as_str());
        let cname = container_name(
            base.as_str(),
            self.preset.name.as_str(),
            self.conf.project_version.as_str(),
        );
        let mut entries: Vec<StagedFile> = Vec::new();
        entries.append(staging);
        if !self.preset.steam {
            let desktop_text = get_desktop_file_text(self.conf.project_name.as_str());
            let mut desktop_name = String::new();
            desktop_name.append(base.as_str());
            desktop_name.append(".desktop");
            let ghost dn = desktop_name@;
            entries.push(
                StagedFile { name: desktop_name, data: desktop_text.as_str().as_bytes_vec() },
            );
            let script_text = get_install_script_text(self.conf.project_name.as_str());
            let mut script_name = String::new();
            script_name.append("install.sh");
            let ghost sn = script_name@;
            entries.push(
                StagedFile { name: script_name, data: script_text.as_str().as_bytes_vec() },
            );
            let icon_name = file_name_component(self.conf.project_icon.as_str());
            let ghost icn = icon_name@;
            entries.push(StagedFile { name: icon_name, data: icon_data });
            proof {
                reveal_strlit("install.sh");
                assert("install.sh"@.len() == 10);
                assert forall|k: int| 0 <= k < sn.len() implies #[trigger] sn[k] != '/' && sn[k]
                    != '\0' && sn[k] != '\\' by {
                    assert(sn[k] == "install.sh"@[k]);
                }
                lemma_slashless_tar_safe(sn);
                assert(dn == executable_base_of(self.conf.project_name@) + ".desktop"@);
                assert(entries@[staged_len].name@ == dn);
                assert(entries@[staged_len + 1].name@ == sn);
                assert(entries@[staged_len + 2].name@ == icn);
            }
        }
        proof {
            assert(files_view(entries@) =~= linux_package_entries(
                files_view(old(staging)@),
                self.conf.project_name@,
                self.conf.project_icon@,
                icon_data@,
                self.preset.steam,
            ));
        }
        if compress {
            proof {
                assert forall|j: int| 0 <= j < entries@.len() implies tar_safe_name(
                    (#[trigger] entries@[j]).name@,
                ) by {
                    if j < staged_len {
                        assert(entries@[j] == old(staging)@[j]);
                    } else {
                        assert(!self.preset.steam);
                        if j == staged_len {
                            assert(entries@[j].name@ == executable_base_of(
                                self.conf.project_name@,
                            ) + ".desktop"@);
                        } else if j == staged_len + 2 {
                            assert(entries@[j].name@ == after_last_slash(
                                self.conf.project_icon@,
                            ));
                        }
                    }
                }
            }
            let bytes = encode_tar_gz(&entries);
            let mut file_name = String::new();
            file_name.append(cname.as_str());
            file_name.append(".tar.gz");
            PackageOutput::Archive { file_name, entries, bytes }
        } else {
            PackageOutput::Directory { dir_name: cname, files: entries }
        }
    }

    /// Tests, in archive mode, that every name the archive would hold is
    /// one the tar writer accepts, and then packages. Where some name is
    /// not, returns `None` and leaves the staging area untouched, so
    /// callers need not establish the name conditions themselves.
    pub fn package_checked(
        &self,
        compress: bool,
        staging: &mut Vec<StagedFile>,
        icon_data: Vec<u8>,
    ) -> (r: Option<PackageOutput>)
        ensures
            ({
                let ok = !compress || tar_entry_names_ok(
                    old(staging)@,
                    self.conf.project_name@,
                    self.conf.project_icon@,
                    self.preset.steam,
                );
                let full = linux_package_entries(
                    files_view(old(staging)@),
                    self.conf.project_name@,
                    self.conf.project_icon@,
                    icon_data@,
                    self.preset.steam,
                );
                let cname = container_name_of(
                    executable_base_of(self.conf.project_name@),
                    self.preset.name@,
                    self.conf.project_version@,
                );
                &&& (r is Some <==> ok)
                &&& (r is None ==> final (staging)@ == old(staging)@)
                &&& (r matches Some(out) ==> ({
                    &&& final (staging)@.len() == 0
                    &&& (compress ==> (out matches PackageOutput::Archive {
                        file_name,
                        entries,
                        bytes,
                    } && file_name@ == cname + ".tar.gz"@ && files_view(entries@) == full
                        && bytes@ == tar_gz_of(full)))
                    &&& (!compress ==> (out matches PackageOutput::Directory { dir_name, files }
                        && dir_name@ == cname && files_view(files@) == full))
                }))
            }),
    {
        if compress {
            let mut ok = all_names_tar_safe(staging);
            if !self.preset.steam {
                let icon_name = file_name_component(self.conf.project_icon.as_str());
                ok = ok && is_tar_safe_name(icon_name.as_str());
                let base = executable_base_name(self.conf.project_name.as_str());
                let mut desktop_name = String::new();
                desktop_name.append(base.as_str());
                desktop_name.append(".desktop");
                ok = ok && is_tar_safe_name(desktop_name.as_str());
            }
            proof {
                assert(ok == tar_entry_names_ok(
                    old(staging)@,
                    self.conf.project_name@,
                    self.conf.project_icon@,
                    self.preset.steam,
                ));
            }
            if !ok {
                return None;
            }
        }
        Some(self.package(compress, staging, icon_data))
    }
}

} // verus!
