//! Windows packaging: packages every staged file as a deflate-compressed
//! zip archive or a named output directory.

use crate::exporters::staging::{
    container_name, container_name_of, executable_base_name, executable_base_of, files_view,
    PackageOutput, StagedFile,
};
use crate::exporters::ExportPreset;
use vstd::prelude::*;
use vstd::string::StringExecFns;

verus! {

/// Per-preset Windows packaging configuration.
pub struct Conf {
    pub project_name: String,
    pub project_version: String,
}

/// Packages one preset's staged artifacts for Windows.
pub struct WindowsExporter {
    pub conf: Conf,
    pub preset: ExportPreset,
}

/// A zip archive under construction in an in-memory buffer. The writer
/// itself is the `zip` crate's; Verus sees only the abstract list of added
/// entries, `zip_entries`.
#[verifier::external_body]
pub struct ZipArchiveWriter {
    inner: zip::ZipWriter<std::io::Cursor<Vec<u8>>>,
}

/// The name/content pairs added to the zip writer so far.
pub uninterp spec fn zip_entries(w: ZipArchiveWriter) -> Seq<(Seq<char>, Seq<u8>)>;

/// The deflate-compressed zip archive that encodes the given entries.
pub uninterp spec fn zip_of(entries: Seq<(Seq<char>, Seq<u8>)>) -> Seq<u8>;

impl ZipArchiveWriter {
    /// Relies on `zip::ZipWriter::new` over an in-memory cursor: a fresh
    /// writer holds no entries.
    #[verifier::external_body]
    pub fn new() -> (w: ZipArchiveWriter)
        ensures
            zip_entries(w) == Seq::<(Seq<char>, Seq<u8>)>::empty(),
    {
        ZipArchiveWriter { inner: zip::ZipWriter::new(std::io::Cursor::new(Vec::new())) }
    }

    /// Relies on `zip::ZipWriter::start_file` and `std::io::Write::write_all`:
    /// adds one deflate-compressed entry under the given name with the given
    /// bytes; the modification time is a fixed constant, so the archive
    /// depends on the entries alone, and the large-file option is set so
    /// entries past the plain-zip size threshold are written without error.
    #[verifier::external_body]
    pub fn add_file(&mut self, name: &str, data: &Vec<u8>)
        ensures
            zip_entries(*final (self)) == zip_entries(*old(self)).push((name@, data@)),
    {
        let options = zip::write::FileOptions::default().compression_method(
            zip::CompressionMethod::DEFLATE,
        ).last_modified_time(zip::DateTime::default()).large_file(true);
        self.inner.start_file(name, options).unwrap();
        std::io::Write::write_all(&mut self.inner, data.as_slice()).unwrap();
    }

    /// Relies on `zip::ZipWriter::finish`: the finished archive's bytes are
    /// a function of the added entries alone.
    #[verifier::external_body]
    pub fn finish(self) -> (r: Vec<u8>)
        ensures
            r@ == zip_of(zip_entries(self)),
    {
        let mut w = self;
        w.inner.finish().unwrap().into_inner()
    }
}

/// Encodes the given files, in order, as a deflate-compressed zip archive.
pub fn encode_zip(entries: &Vec<StagedFile>) -> (r: Vec<u8>)
    ensures
        r@ == zip_of(files_view(entries@)),
{
    let mut w = ZipArchiveWriter::new();
    let n = entries.len();
    let mut i: usize = 0;
    proof {
        assert(zip_entries(w) =~= files_view(entries@).subrange(0, 0));
    }
    while i < n
        invariant
            i <= n,
            n == entries@.len(),
            zip_entries(w) =~= files_view(entries@).subrange(0, i as int),
        decreases n - i,
    {
        w.add_file(entries[i].name.as_str(), &entries[i].data);
        proof {
            let pre = files_view(entries@).subrange(0, i + 1 as int);
            assert(pre.drop_last() =~= files_view(entries@).subrange(0, i as int));
            assert(pre.last() == files_view(entries@)[i as int]);
            assert(zip_entries(w) =~= pre);
        }
        i += 1;
    }
    proof {
        assert(files_view(entries@).subrange(0, n as int) =~= files_view(entries@));
    }
    w.finish()
}

impl WindowsExporter {
    /// The file name the build tool is told to write the executable under:
    /// the project's base name with the Windows executable extension.
    pub fn executable_file_name(&self) -> (r: String)
        ensures
            r@ == executable_base_of(self.conf.project_name@) + ".exe"@,
    {
        let base = executable_base_name(self.conf.project_name.as_str());
        let mut s = String::new();
        s.append(base.as_str());
        s.append(".exe");
        s
    }

    /// Packages the staged artifacts of this preset: drains the staging
    /// area into one zip archive (archive mode) or one output directory
    /// (directory mode), both named deterministically.
    pub fn package(&self, compress: bool, staging: &mut Vec<StagedFile>) -> (r: PackageOutput)
        ensures
            final (staging)@.len() == 0,
            ({
                let full = files_view(old(staging)@);
                let cname = container_name_of(
                    executable_base_of(self.conf.project_name@),
                    self.preset.name@,
                    self.conf.project_version@,
                );
                &&& (compress ==> (r matches PackageOutput::Archive { file_name, entries, bytes }
                    && file_name@ == cname + ".zip"@ && files_view(entries@) == full && bytes@
                    == zip_of(full)))
                &&& (!compress ==> (r matches PackageOutput::Directory { dir_name, files }
                    && dir_name@ == cname && files_view(files@) == full))
            }),
    {
        let base = executable_base_name(self.conf.project_name.as_str());
        let cname = container_name(
            base.as_str(),
            self.preset.name.as_str(),
            self.conf.project_version.as_str(),
        );
        let mut entries: Vec<StagedFile> = Vec::new();
        entries.append(staging);
        proof {
            assert(files_view(entries@) =~= files_view(old(staging)@));
        }
        if compress {
            let bytes = encode_zip(&entries);
            let mut file_name = String::new();
            file_name.append(cname.as_str());
            file_name.append(".zip");
            PackageOutput::Archive { file_name, entries, bytes }
        } else {
            PackageOutput::Directory { dir_name: cname, files: entries }
        }
    }
}

} // verus!
