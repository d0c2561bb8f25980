//! The export pipeline: project metadata, the preset catalog, per-platform
//! packaging and the run state machine that isolates preset failures.

use crate::cli::Cli;
use crate::config::{lookup, parse_config_text, ConfigDoc};
use crate::text::{
    has_prefix, remove_question_marks, str_eq, strip_prefix_str, without_question_marks,
};
use vstd::prelude::*;
use vstd::string::StringExecFns;

pub mod catalog;
pub mod linux;
pub mod staging;
pub mod windows;

verus! {

/// Errors that abort a run before any preset is processed.
#[derive(Debug)]
pub enum Error {
    /// A configuration file is missing from the project.
    ConfigNotFound,
    /// A configuration file does not parse.
    IniError(ini::ParseError),
    /// The project configuration has no `config/name` key.
    ProjectNameNotFound,
    /// The project configuration has no usable `config/icon` key.
    ProjectIconNotFound,
}

/// One export preset: a name, the platform tag it targets, and whether it
/// is a storefront build (which suppresses desktop-integration files).
pub struct ExportPreset {
    pub name: String,
    pub platform: String,
    pub steam: bool,
}

/// The project's identity, read once per run from its configuration.
pub struct ProjectMetadata {
    pub name: String,
    pub version: Option<String>,
    pub icon_path: String,
}

/// Parses a project configuration text into a document.
pub fn load_project_configuration(text: &str) -> (r: Result<ConfigDoc, Error>)
    ensures
        r matches Ok(doc) ==> crate::config::ini_doc_of(text@) == Some(doc@),
        r is Err <==> crate::config::ini_doc_of(text@) is None,
        r is Err ==> r matches Err(Error::IniError(_)),
{
    match parse_config_text(text) {
        Ok(doc) => Ok(doc),
        Err(e) => Err(Error::IniError(e)),
    }
}

/// The project's name as the configuration states it.
pub fn get_project_name(doc: &ConfigDoc) -> (r: Option<String>)
    ensures
        match r {
            Some(v) => lookup(doc@, "application"@, "config/name"@) == Some(v@),
            None => lookup(doc@, "application"@, "config/name"@) is None,
        },
{
    match doc.get("application", "config/name") {
        Some(v) => Some(v.clone()),
        None => None,
    }
}

/// The icon path relative to the project root: the configured icon value
/// with its virtual-root prefix stripped, or `None` where the key is
/// missing or the prefix absent.
pub open spec fn icon_relative_path(
    doc: Seq<(Option<Seq<char>>, Seq<(Seq<char>, Seq<char>)>)>,
) -> Option<Seq<char>> {
    match lookup(doc, "application"@, "config/icon"@) {
        Some(raw) => if has_prefix(raw, "res://"@) {
            Some(raw.skip("res://"@.len() as int))
        } else {
            None
        },
        None => None,
    }
}

pub fn get_project_icon_relative_path(doc: &ConfigDoc) -> (r: Option<String>)
    ensures
        match r {
            Some(v) => icon_relative_path(doc@) == Some(v@),
            None => icon_relative_path(doc@) is None,
        },
{
    match doc.get("application", "config/icon") {
        Some(raw) => strip_prefix_str(raw.as_str(), "res://"),
        None => None,
    }
}

/// The project's version as the configuration states it.
pub fn get_project_version(doc: &ConfigDoc) -> (r: Option<String>)
    ensures
        match r {
            Some(v) => lookup(doc@, "global"@, "version"@) == Some(v@),
            None => lookup(doc@, "global"@, "version"@) is None,
        },
{
    match doc.get("global", "version") {
        Some(v) => Some(v.clone()),
        None => None,
    }
}

/// Reads the project's metadata from its parsed configuration.
///
/// The name is the configured name with illegal question marks removed; the
/// icon path is the configured icon rebased from the virtual project root
/// onto `project_path`; a missing version is not a failure.
pub fn read_metadata(doc: &ConfigDoc, project_path: &str) -> (r: Result<ProjectMetadata, Error>)
    ensures
        r is Ok <==> (lookup(doc@, "application"@, "config/name"@) is Some && icon_relative_path(
            doc@,
        ) is Some),
        lookup(doc@, "application"@, "config/name"@) is None ==> r matches Err(
            Error::ProjectNameNotFound,
        ),
        (lookup(doc@, "application"@, "config/name"@) is Some && icon_relative_path(doc@) is None)
            ==> r matches Err(Error::ProjectIconNotFound),
        r matches Ok(m) ==> {
            &&& (lookup(doc@, "application"@, "config/name"@) matches Some(raw) && m.name@
                == without_question_marks(raw))
            &&& (icon_relative_path(doc@) matches Some(rel) && m.icon_path@ == project_path@ + "/"@
                + rel)
            &&& match lookup(doc@, "global"@, "version"@) {
                Some(v) => m.version matches Some(mv) && mv@ == v,
                None => m.version is None,
            }
        },
{
    let raw_name = match get_project_name(doc) {
        Some(n) => n,
        None => {
            return Err(Error::ProjectNameNotFound);
        },
    };
    let rel_icon = match get_project_icon_relative_path(doc) {
        Some(p) => p,
        None => {
            return Err(Error::ProjectIconNotFound);
        },
    };
    let name = remove_question_marks(raw_name.as_str());
    let mut icon_path = String::new();
    icon_path.append(project_path);
    icon_path.append("/");
    icon_path.append(rel_icon.as_str());
    let version = get_project_version(doc);
    Ok(ProjectMetadata { name, version, icon_path })
}

/// The fixed name of the transient staging directory under the output
/// folder.
pub fn staging_dir_name() -> (r: &'static str)
    ensures
        r@ == "godot_export_tmp_dir"@,
{
    "godot_export_tmp_dir"
}

/// The path of the staging directory under the output folder.
pub fn staging_dir_path(output_folder: &str) -> (r: String)
    ensures
        r@ == output_folder@ + "/"@ + "godot_export_tmp_dir"@,
{
    let mut s = String::new();
    s.append(output_folder);
    s.append("/");
    s.append("godot_export_tmp_dir");
    s
}

/// The destination path, inside the staging directory, that the build tool
/// is told to write one preset's executable to.
pub fn staging_file_path(output_folder: &str, file_name: &str) -> (r: String)
    ensures
        r@ == output_folder@ + "/"@ + "godot_export_tmp_dir"@ + "/"@ + file_name@,
{
    let mut s = staging_dir_path(output_folder);
    s.append("/");
    s.append(file_name);
    s
}

/// The argument list of one headless build invocation, exactly as the
/// external build tool expects it: headless flag, project path, export-mode
/// flag, preset name, and the destination path inside the staging
/// directory.
pub fn invocation_args(cli: &Cli, preset_name: &str, executable_file_name: &str) -> (r: Vec<
    String,
>)
    ensures
        r@.len() == 6,
        r@[0]@ == "--headless"@,
        r@[1]@ == "--path"@,
        r@[2]@ == cli.project_path@,
        r@[3]@ == "--export-"@ + cli.export_mode.spec_arg(),
        r@[4]@ == preset_name@,
        r@[5]@ == cli.output_folder@ + "/"@ + "godot_export_tmp_dir"@ + "/"@
            + executable_file_name@,
{
    let mut v: Vec<String> = Vec::new();
    v.push(String::from_str("--headless"));
    v.push(String::from_str("--path"));
    v.push(cli.project_path.clone());
    let mut mode_flag = String::new();
    mode_flag.append("--export-");
    mode_flag.append(cli.export_mode.as_arg());
    v.push(mode_flag);
    v.push(String::from_str(preset_name));
    v.push(staging_file_path(cli.output_folder.as_str(), executable_file_name));
    v
}

/// A supported target platform.
#[derive(Debug, Clone, Copy, PartialEq, Eq, Structural)]
pub enum Platform {
    Windows,
    Linux,
}

/// The platform a preset's tag names, or `None` for an unrecognized tag.
pub open spec fn spec_platform_of(tag: Seq<char>) -> Option<Platform> {
    if tag == "Windows Desktop"@ {
        Some(Platform::Windows)
    } else if tag == "Linux/X11"@ {
        Some(Platform::Linux)
    } else {
        None
    }
}

pub fn platform_of(tag: &str) -> (r: Option<Platform>)
    ensures
        r == spec_platform_of(tag@),
{
    if str_eq(tag, "Windows Desktop") {
        Some(Platform::Windows)
    } else if str_eq(tag, "Linux/X11") {
        Some(Platform::Linux)
    } else {
        None
    }
}

impl ExportPreset {
    /// A copy of this preset with the same name, platform and flag.
    pub fn duplicate(&self) -> (r: ExportPreset)
        ensures
            r.name@ == self.name@,
            r.platform@ == self.platform@,
            r.steam == self.steam,
    {
        ExportPreset {
            name: self.name.clone(),
            platform: self.platform.clone(),
            steam: self.steam,
        }
    }
}

/// The version string a packager sees: the configured version, or the
/// empty string where none is configured.
pub open spec fn version_or_empty(m: ProjectMetadata) -> Seq<char> {
    match m.version {
        Some(v) => v@,
        None => Seq::empty(),
    }
}

/// What one preset becomes: the matching platform packager, or a skip for
/// an unrecognized platform tag.
pub enum PresetDispatch {
    Windows(windows::WindowsExporter),
    Linux(linux::LinuxExporter),
    Unsupported,
}

/// Chooses the packager for one preset, copying the project's identity
/// into its configuration. An unrecognized platform tag is a recoverable
/// skip, never a failure.
pub fn dispatch_preset(metadata: &ProjectMetadata, preset: &ExportPreset) -> (r: PresetDispatch)
    ensures
        r is Unsupported <==> spec_platform_of(preset.platform@) is None,
        r matches PresetDispatch::Windows(w) ==> {
            &&& spec_platform_of(preset.platform@) == Some(Platform::Windows)
            &&& w.conf.project_name@ == metadata.name@
            &&& w.conf.project_version@ == version_or_empty(*metadata)
            &&& w.preset.name@ == preset.name@
            &&& w.preset.platform@ == preset.platform@
            &&& w.preset.steam == preset.steam
        },
        r matches PresetDispatch::Linux(l) ==> {
            &&& spec_platform_of(preset.platform@) == Some(Platform::Linux)
            &&& l.conf.project_name@ == metadata.name@
            &&& l.conf.project_version@ == version_or_empty(*metadata)
            &&& l.conf.project_icon@ == metadata.icon_path@
            &&& l.preset.name@ == preset.name@
            &&& l.preset.platform@ == preset.platform@
            &&& l.preset.steam == preset.steam
        },
{
    let version = match &metadata.version {
        Some(v) => v.clone(),
        None => String::new(),
    };
    match platform_of(preset.platform.as_str()) {
        Some(Platform::Windows) => {
            let conf = windows::Conf {
                project_name: metadata.name.clone(),
                project_version: version,
            };
            PresetDispatch::Windows(
                windows::WindowsExporter { conf, preset: preset.duplicate() },
            )
        },
        Some(Platform::Linux) => {
            let conf = linux::Conf {
                project_name: metadata.name.clone(),
                project_version: version,
                project_icon: metadata.icon_path.clone(),
            };
            PresetDispatch::Linux(linux::LinuxExporter { conf, preset: preset.duplicate() })
        },
        None => PresetDispatch::Unsupported,
    }
}

/// How one preset's processing ended.
#[derive(Debug, Clone, Copy, PartialEq, Eq, Structural)]
pub enum PresetOutcome {
    /// Its artifacts were built and packaged.
    Packaged,
    /// The build tool could not be spawned for it.
    BuildFailed,
    /// Collecting or writing its artifacts failed.
    PackagingFailed,
    /// Its platform tag is unrecognized; the preset was skipped.
    UnsupportedPlatform,
}

/// The per-run state machine: metadata and catalog are loaded once, then
/// each preset is processed in catalog order and its outcome recorded; one
/// preset's failure never stops the run.
pub struct ExportRun {
    pub metadata: ProjectMetadata,
    pub presets: Vec<ExportPreset>,
    pub outcomes: Vec<PresetOutcome>,
}

impl ExportRun {
    /// At most one outcome per preset has been recorded.
    pub open spec fn wf(&self) -> bool {
        self.outcomes@.len() <= self.presets@.len()
    }

    /// How many presets have been fully processed.
    pub open spec fn position(&self) -> int {
        self.outcomes@.len() as int
    }

    pub fn new(metadata: ProjectMetadata, presets: Vec<ExportPreset>) -> (r: ExportRun)
        ensures
            r.wf(),
            r.position() == 0,
            r.metadata == metadata,
            r.presets == presets,
    {
        ExportRun { metadata, presets, outcomes: Vec::new() }
    }

    /// The preset to process next, or `None` when every preset is done.
    pub fn current(&self) -> (r: Option<&ExportPreset>)
        requires
            self.wf(),
        ensures
            self.position() < self.presets@.len() ==> (r matches Some(p) && *p
                == self.presets@[self.position()]),
            self.position() >= self.presets@.len() ==> r is None,
    {
        if self.outcomes.len() < self.presets.len() {
            Some(&self.presets[self.outcomes.len()])
        } else {
            None
        }
    }

    /// Records the outcome of the current preset and moves to the next.
    pub fn record(&mut self, outcome: PresetOutcome)
        requires
            old(self).wf(),
            old(self).position() < old(self).presets@.len(),
        ensures
            final (self).wf(),
            final (self).metadata == old(self).metadata,
            final (self).presets == old(self).presets,
            final (self).outcomes@ == old(self).outcomes@.push(outcome),
            final (self).position() == old(self).position() + 1,
    {
        self.outcomes.push(outcome);
    }

    /// Whether every preset has been processed.
    pub fn finished(&self) -> (r: bool)
        requires
            self.wf(),
        ensures
            r == (self.position() == self.presets@.len()),
    {
        self.outcomes.len() == self.presets.len()
    }

    /// The run's exit code: always success once the catalog stage passed.
    /// Per-preset outcomes — a skipped or failed preset included — never
    /// change it; callers must read the per-preset log lines instead.
    pub fn exit_code(&self) -> (r: i32)
        ensures
            r == 0,
    {
        0
    }
}

} // verus!
