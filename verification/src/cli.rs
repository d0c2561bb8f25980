//! The run configuration a caller hands in: paths, preset allow-list,
//! build mode, output shape, and the run's exit-code rules.

use vstd::prelude::*;

verus! {

/// Which export template the external build tool uses.
#[derive(Debug, Clone, Copy, PartialEq, Eq, Structural)]
pub enum ExportMode {
    Debug,
    Release,
}

impl ExportMode {
    /// The mode's spelling inside the build tool's `--export-<mode>` flag.
    pub open spec fn spec_arg(&self) -> Seq<char> {
        match self {
            ExportMode::Debug => "debug"@,
            ExportMode::Release => "release"@,
        }
    }

    pub fn as_arg(&self) -> (r: &'static str)
        ensures
            r@ == self.spec_arg(),
    {
        match self {
            ExportMode::Debug => "debug",
            ExportMode::Release => "release",
        }
    }
}

/// The run configuration: project and build-tool paths, output folder,
/// preset allow-list, export mode, output shape and verbosity.
pub struct Cli {
    pub project_path: String,
    pub godot_path: String,
    pub output_folder: String,
    pub presets: Vec<String>,
    pub export_mode: ExportMode,
    pub compress: bool,
    pub verbose: bool,
}

/// The process exit code of a run: 1 for an invalid project path, 2 for a
/// missing project configuration file, 0 otherwise — per-preset failures
/// never change it.
pub fn run_exit_code(project_path_valid: bool, project_config_found: bool) -> (r: i32)
    ensures
        !project_path_valid ==> r == 1,
        project_path_valid && !project_config_found ==> r == 2,
        project_path_valid && project_config_found ==> r == 0,
{
    if !project_path_valid {
        1
    } else if !project_config_found {
        2
    } else {
        0
    }
}

} // verus!
