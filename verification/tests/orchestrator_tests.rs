use godot_export::cli::{run_exit_code, Cli, ExportMode};
use godot_export::exporters::catalog::get_export_presets;
use godot_export::exporters::staging::PackageOutput;
use godot_export::exporters::{
    dispatch_preset, invocation_args, load_project_configuration, platform_of, read_metadata,
    staging_dir_name, staging_dir_path, staging_file_path, ExportPreset, ExportRun, Platform,
    PresetDispatch, PresetOutcome,
};
use godot_export::exporters::windows::Conf as WindowsConf;
use godot_export::exporters::staging::StagedFile;

#[test]
fn platform_tags_dispatch_to_the_known_platforms() {
    assert_eq!(platform_of("Windows Desktop"), Some(Platform::Windows));
    assert_eq!(platform_of("Linux/X11"), Some(Platform::Linux));
    assert_eq!(platform_of("macOS"), None);
    assert_eq!(platform_of("no platform"), None);
}

#[test]
fn unrecognized_platform_is_skipped_and_leaves_exit_code_unaffected() {
    let doc = load_project_configuration(
        "[application]\nconfig/name=Game\nconfig/icon=res://i.png\n",
    )
    .unwrap();
    let metadata = read_metadata(&doc, "proj").unwrap();
    let preset = ExportPreset {
        name: String::from("Mac build"),
        platform: String::from("macOS"),
        steam: false,
    };
    assert!(matches!(dispatch_preset(&metadata, &preset), PresetDispatch::Unsupported));

    let mut run = ExportRun::new(metadata, vec![preset]);
    let current = run.current().expect("one preset to process");
    assert_eq!(current.platform, "macOS");
    run.record(PresetOutcome::UnsupportedPlatform);
    assert!(run.finished());
    assert_eq!(run.exit_code(), 0);
}

#[test]
fn exit_codes_follow_the_run_configuration_stages() {
    assert_eq!(run_exit_code(false, false), 1);
    assert_eq!(run_exit_code(false, true), 1);
    assert_eq!(run_exit_code(true, false), 2);
    assert_eq!(run_exit_code(true, true), 0);
}

#[test]
fn invocation_arguments_match_the_tool_interface() {
    let cli = Cli {
        project_path: String::from("/proj"),
        godot_path: String::from("/usr/bin/godot"),
        output_folder: String::from("/out"),
        presets: Vec::new(),
        export_mode: ExportMode::Release,
        compress: true,
        verbose: false,
    };
    let args = invocation_args(&cli, "Demo", "my_game.exe");
    assert_eq!(
        args,
        vec![
            String::from("--headless"),
            String::from("--path"),
            String::from("/proj"),
            String::from("--export-release"),
            String::from("Demo"),
            String::from("/out/godot_export_tmp_dir/my_game.exe"),
        ]
    );
    assert_eq!(staging_dir_name(), "godot_export_tmp_dir");
    assert_eq!(staging_dir_path("/out"), "/out/godot_export_tmp_dir");
    assert_eq!(staging_file_path("/out", "a.pck"), "/out/godot_export_tmp_dir/a.pck");
}

#[test]
fn debug_mode_spells_its_flag() {
    let cli = Cli {
        project_path: String::from("."),
        godot_path: String::from("godot"),
        output_folder: String::from("out"),
        presets: Vec::new(),
        export_mode: ExportMode::Debug,
        compress: false,
        verbose: false,
    };
    let args = invocation_args(&cli, "P", "game");
    assert_eq!(args[3], "--export-debug");
}

#[test]
fn dispatch_copies_project_identity_into_the_packager() {
    let doc = load_project_configuration(
        "[application]\nconfig/name=My Game\nconfig/icon=res://icon.png\n\n[global]\nversion=2.0\n",
    )
    .unwrap();
    let metadata = read_metadata(&doc, "/proj").unwrap();
    let preset = ExportPreset {
        name: String::from("Demo"),
        platform: String::from("Linux/X11"),
        steam: false,
    };
    match dispatch_preset(&metadata, &preset) {
        PresetDispatch::Linux(l) => {
            assert_eq!(l.conf.project_name, "My Game");
            assert_eq!(l.conf.project_version, "2.0");
            assert_eq!(l.conf.project_icon, "/proj/icon.png");
            assert_eq!(l.preset.name, "Demo");
        },
        _ => panic!("expected the Linux packager"),
    }
}

#[test]
fn missing_version_becomes_the_empty_string_for_packagers() {
    let doc = load_project_configuration(
        "[application]\nconfig/name=Game\nconfig/icon=res://i.png\n",
    )
    .unwrap();
    let metadata = read_metadata(&doc, "p").unwrap();
    let preset = ExportPreset {
        name: String::from("D"),
        platform: String::from("Windows Desktop"),
        steam: false,
    };
    match dispatch_preset(&metadata, &preset) {
        PresetDispatch::Windows(w) => assert_eq!(w.conf.project_version, ""),
        _ => panic!("expected the Windows packager"),
    }
}

#[test]
fn end_to_end_windows_archive_scenario() {
    let project_text =
        "[application]\nconfig/name=My Game\nconfig/icon=res://icon.png\n\n[global]\nversion=1.0\n";
    let presets_text = "[preset.0]\nname=Demo\nplatform=Windows Desktop\n";

    let doc = load_project_configuration(project_text).unwrap();
    let metadata = read_metadata(&doc, "/proj").unwrap();
    assert_eq!(metadata.name, "My Game");
    assert_eq!(metadata.version.as_deref(), Some("1.0"));

    let presets = get_export_presets(&Vec::new(), presets_text).unwrap();
    assert_eq!(presets.len(), 1);

    let mut run = ExportRun::new(metadata, presets);
    let preset = run.current().expect("one preset").duplicate();
    let exporter = match dispatch_preset(&run.metadata, &preset) {
        PresetDispatch::Windows(w) => w,
        _ => panic!("expected the Windows packager"),
    };
    assert_eq!(exporter.conf.project_name, "My Game");
    assert_eq!(exporter.conf.project_version, "1.0");

    // The build step drops the executable and data file into staging.
    assert_eq!(exporter.executable_file_name(), "my_game.exe");
    let mut staging = vec![
        StagedFile { name: String::from("my_game.exe"), data: b"EXE".to_vec() },
        StagedFile { name: String::from("my_game.pck"), data: b"PCK".to_vec() },
    ];
    let output = exporter.package(true, &mut staging);
    assert!(staging.is_empty());
    match output {
        PackageOutput::Archive { file_name, entries, .. } => {
            assert_eq!(file_name, "my_game_demo_1_0.zip");
            let names: Vec<&str> = entries.iter().map(|f| f.name.as_str()).collect();
            assert_eq!(names, vec!["my_game.exe", "my_game.pck"]);
        },
        PackageOutput::Directory { .. } => panic!("expected an archive"),
    }
    run.record(PresetOutcome::Packaged);
    assert!(run.finished());
    assert_eq!(run.exit_code(), 0);
    assert_eq!(run_exit_code(true, true), 0);
}
