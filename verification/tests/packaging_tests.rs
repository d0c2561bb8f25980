use godot_export::exporters::linux::{
    get_desktop_file_text, get_install_script_text, is_tar_safe_name, Conf as LinuxConf,
    LinuxExporter,
};

use godot_export::exporters::staging::{
    apply_to_directory, container_name, executable_base_name, PackageOutput, StagedFile,
};
use godot_export::exporters::windows::{Conf as WindowsConf, WindowsExporter};
use godot_export::exporters::ExportPreset;
use std::io::Read;

fn staged(name: &str, data: &[u8]) -> StagedFile {
    StagedFile { name: String::from(name), data: data.to_vec() }
}

fn read_tar_gz(bytes: &[u8]) -> Vec<(String, Vec<u8>)> {
    let gz = flate2::read::GzDecoder::new(bytes);
    let mut archive = tar::Archive::new(gz);
    let mut out = Vec::new();
    for entry in archive.entries().unwrap() {
        let mut entry = entry.unwrap();
        let name = entry.path().unwrap().to_str().unwrap().to_string();
        let mut data = Vec::new();
        entry.read_to_end(&mut data).unwrap();
        out.push((name, data));
    }
    out
}

fn read_zip(bytes: &[u8]) -> Vec<(String, Vec<u8>)> {
    let cursor = std::io::Cursor::new(bytes.to_vec());
    let mut archive = zip::ZipArchive::new(cursor).unwrap();
    let mut out = Vec::new();
    for i in 0..archive.len() {
        let mut file = archive.by_index(i).unwrap();
        let name = file.name().to_string();
        let mut data = Vec::new();
        file.read_to_end(&mut data).unwrap();
        out.push((name, data));
    }
    out
}

#[test]
fn container_name_is_deterministic() {
    assert_eq!(container_name("mygame", "Linux/X11", "1.2.0"), "mygame_linux_x11_1_2_0");
    assert_eq!(container_name("mygame", "Windows Desktop", "0.3"), "mygame_windows_desktop_0_3");
}

#[test]
fn empty_version_leaves_a_bare_trailing_separator() {
    assert_eq!(container_name("mygame", "Demo", ""), "mygame_demo_");
}

#[test]
fn executable_base_name_lowers_and_replaces_separators() {
    assert_eq!(executable_base_name("My Game"), "my_game");
    assert_eq!(executable_base_name("A/B c"), "a_b_c");
}

#[test]
fn desktop_file_text_matches_exactly() {
    assert_eq!(
        get_desktop_file_text("My Game"),
        "[Desktop Entry]\nType=Application\nName=My Game\nExec=sh -c /usr/local/bin/my_game\nCategories=Game;"
    );
}

#[test]
fn install_script_text_matches_exactly() {
    assert_eq!(
        get_install_script_text("My Game"),
        "#!/bin/sh\n\nBINARY_DIRECTORY=/usr/local/bin/\n\ncp -f my_game $BINARY_DIRECTORY/my_game\ncp -f my_game.pck $BINARY_DIRECTORY/my_game.pck\ncp -f my_game.png /usr/share/pixmaps/my_game.png\ncp -f my_game.desktop /usr/share/applications/my_game.desktop\nchmod u+x /usr/share/applications/my_game.desktop"
    );
}

#[test]
fn linux_archive_round_trip_preserves_every_staged_file() {
    let exporter = LinuxExporter {
        conf: LinuxConf {
            project_name: String::from("MyGame"),
            project_version: String::from("1.2.0"),
            project_icon: String::from("/proj/icon.png"),
        },
        preset: ExportPreset {
            name: String::from("Linux/X11"),
            platform: String::from("Linux/X11"),
            steam: false,
        },
    };
    let mut staging = vec![staged("game_bin", b"ELFDATA"), staged("game_bin.pck", b"PCKDATA")];
    let output = exporter.package(true, &mut staging, b"PNGDATA".to_vec());
    assert!(staging.is_empty());

    match output {
        PackageOutput::Archive { file_name, entries, bytes } => {
            assert_eq!(file_name, "mygame_linux_x11_1_2_0.tar.gz");
            let names: Vec<&str> = entries.iter().map(|f| f.name.as_str()).collect();
            assert_eq!(
                names,
                vec!["game_bin", "game_bin.pck", "mygame.desktop", "install.sh", "icon.png"]
            );
            let decoded = read_tar_gz(&bytes);
            assert_eq!(decoded.len(), entries.len());
            for (got, want) in decoded.iter().zip(entries.iter()) {
                assert_eq!(got.0, want.name);
                assert_eq!(got.1, want.data);
            }
            assert_eq!(decoded[2].1, get_desktop_file_text("MyGame").into_bytes());
            assert_eq!(decoded[3].1, get_install_script_text("MyGame").into_bytes());
            assert_eq!(decoded[4].1, b"PNGDATA".to_vec());
        },
        PackageOutput::Directory { .. } => panic!("expected an archive"),
    }
}

#[test]
fn linux_storefront_build_suppresses_desktop_integration() {
    let exporter = LinuxExporter {
        conf: LinuxConf {
            project_name: String::from("MyGame"),
            project_version: String::from("1.0"),
            project_icon: String::from("/proj/icon.png"),
        },
        preset: ExportPreset {
            name: String::from("Steam"),
            platform: String::from("Linux/X11"),
            steam: true,
        },
    };
    let mut staging = vec![staged("game_bin", b"ELFDATA")];
    let output = exporter.package(true, &mut staging, Vec::new());
    assert!(staging.is_empty());
    match output {
        PackageOutput::Archive { entries, .. } => {
            assert_eq!(entries.len(), 1);
            assert_eq!(entries[0].name, "game_bin");
        },
        PackageOutput::Directory { .. } => panic!("expected an archive"),
    }
}

#[test]
fn linux_directory_mode_moves_every_file() {
    let exporter = LinuxExporter {
        conf: LinuxConf {
            project_name: String::from("MyGame"),
            project_version: String::from("1.2.0"),
            project_icon: String::from("/proj/icon.png"),
        },
        preset: ExportPreset {
            name: String::from("Linux/X11"),
            platform: String::from("Linux/X11"),
            steam: false,
        },
    };
    let mut staging = vec![staged("game_bin", b"ELFDATA")];
    let output = exporter.package(false, &mut staging, b"PNGDATA".to_vec());
    assert!(staging.is_empty());
    match output {
        PackageOutput::Directory { dir_name, files } => {
            assert_eq!(dir_name, "mygame_linux_x11_1_2_0");
            let names: Vec<&str> = files.iter().map(|f| f.name.as_str()).collect();
            assert_eq!(names, vec!["game_bin", "mygame.desktop", "install.sh", "icon.png"]);
            assert_eq!(files[2].data, get_install_script_text("MyGame").into_bytes());
        },
        PackageOutput::Archive { .. } => panic!("expected a directory"),
    }
}

#[test]
fn tar_name_check_accepts_ordinary_names_and_rejects_bad_ones() {
    assert!(is_tar_safe_name("game_bin"));
    assert!(is_tar_safe_name("my_game.pck"));
    assert!(is_tar_safe_name("dir/inner.txt"));
    assert!(is_tar_safe_name("..hidden"));
    assert!(!is_tar_safe_name(""));
    assert!(!is_tar_safe_name("/abs"));
    assert!(!is_tar_safe_name("."));
    assert!(!is_tar_safe_name(".."));
    assert!(!is_tar_safe_name("a/../b"));
    assert!(!is_tar_safe_name("../up"));
    assert!(!is_tar_safe_name("a/./b"));
    assert!(!is_tar_safe_name("a\0b"));
    assert!(!is_tar_safe_name("dir\\file"));
}

#[test]
fn checked_packager_packages_acceptable_names() {
    let exporter = LinuxExporter {
        conf: LinuxConf {
            project_name: String::from("MyGame"),
            project_version: String::from("1.0"),
            project_icon: String::from("/proj/icon.png"),
        },
        preset: ExportPreset {
            name: String::from("Demo"),
            platform: String::from("Linux/X11"),
            steam: false,
        },
    };
    let mut staging = vec![staged("game_bin", b"ELFDATA")];
    let output = exporter.package_checked(true, &mut staging, b"PNGDATA".to_vec());
    assert!(staging.is_empty());
    match output.expect("acceptable names are packaged") {
        PackageOutput::Archive { file_name, entries, .. } => {
            assert_eq!(file_name, "mygame_demo_1_0.tar.gz");
            assert_eq!(entries.len(), 4);
        },
        PackageOutput::Directory { .. } => panic!("expected an archive"),
    }
}

#[test]
fn checked_packager_refuses_a_rejectable_name_and_keeps_staging() {
    let exporter = LinuxExporter {
        conf: LinuxConf {
            project_name: String::from("MyGame"),
            project_version: String::from("1.0"),
            // A trailing slash leaves the icon with an empty base name,
            // which the tar writer would reject.
            project_icon: String::from("/proj/icons/"),
        },
        preset: ExportPreset {
            name: String::from("Demo"),
            platform: String::from("Linux/X11"),
            steam: false,
        },
    };
    let mut staging = vec![staged("game_bin", b"ELFDATA")];
    let output = exporter.package_checked(true, &mut staging, b"PNGDATA".to_vec());
    assert!(output.is_none());
    assert_eq!(staging.len(), 1);
    assert_eq!(staging[0].name, "game_bin");
}

#[test]
fn windows_archive_round_trip_preserves_every_staged_file() {
    let exporter = WindowsExporter {
        conf: WindowsConf {
            project_name: String::from("My Game"),
            project_version: String::from("1.0"),
        },
        preset: ExportPreset {
            name: String::from("Demo"),
            platform: String::from("Windows Desktop"),
            steam: false,
        },
    };
    assert_eq!(exporter.executable_file_name(), "my_game.exe");
    let mut staging = vec![
        staged("my_game.exe", b"EXEDATA"),
        staged("my_game.pck", b"PCKDATA"),
    ];
    let output = exporter.package(true, &mut staging);
    assert!(staging.is_empty());
    match output {
        PackageOutput::Archive { file_name, entries, bytes } => {
            assert_eq!(file_name, "my_game_demo_1_0.zip");
            let decoded = read_zip(&bytes);
            assert_eq!(decoded.len(), entries.len());
            for (got, want) in decoded.iter().zip(entries.iter()) {
                assert_eq!(got.0, want.name);
                assert_eq!(got.1, want.data);
            }
        },
        PackageOutput::Directory { .. } => panic!("expected an archive"),
    }
}

#[test]
fn windows_directory_mode_reuses_container_name() {
    let exporter = WindowsExporter {
        conf: WindowsConf {
            project_name: String::from("My Game"),
            project_version: String::from("1.0"),
        },
        preset: ExportPreset {
            name: String::from("Demo"),
            platform: String::from("Windows Desktop"),
            steam: false,
        },
    };
    let mut staging = vec![staged("my_game.exe", b"EXEDATA")];
    match exporter.package(false, &mut staging) {
        PackageOutput::Directory { dir_name, files } => {
            assert_eq!(dir_name, "my_game_demo_1_0");
            assert_eq!(files.len(), 1);
        },
        PackageOutput::Archive { .. } => panic!("expected a directory"),
    }
}

#[test]
fn directory_mode_is_idempotent_and_overwrites_without_duplicates() {
    let existing = vec![staged("stale.txt", b"OLD"), staged("game_bin", b"OLDBIN")];
    let incoming = vec![staged("game_bin", b"NEWBIN"), staged("game_bin.pck", b"PCK")];
    let incoming_again = vec![staged("game_bin", b"NEWBIN"), staged("game_bin.pck", b"PCK")];

    let once = apply_to_directory(existing, incoming);
    let names: Vec<&str> = once.iter().map(|f| f.name.as_str()).collect();
    assert_eq!(names, vec!["stale.txt", "game_bin", "game_bin.pck"]);
    assert_eq!(once[1].data, b"NEWBIN".to_vec());

    let once_pairs: Vec<(String, Vec<u8>)> =
        once.iter().map(|f| (f.name.clone(), f.data.clone())).collect();
    let twice = apply_to_directory(once, incoming_again);
    let twice_pairs: Vec<(String, Vec<u8>)> =
        twice.iter().map(|f| (f.name.clone(), f.data.clone())).collect();
    assert_eq!(once_pairs, twice_pairs);
}
