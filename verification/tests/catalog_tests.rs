use godot_export::exporters::catalog::get_export_presets;
use godot_export::exporters::Error;

#[test]
fn enumeration_follows_ascending_index_order() {
    let text = "[preset.0]\nname=First\nplatform=Linux/X11\n\n[preset.1]\nname=Second\nplatform=Windows Desktop\n";
    let presets = get_export_presets(&Vec::new(), text).unwrap();
    assert_eq!(presets.len(), 2);
    assert_eq!(presets[0].name, "First");
    assert_eq!(presets[0].platform, "Linux/X11");
    assert_eq!(presets[1].name, "Second");
    assert_eq!(presets[1].platform, "Windows Desktop");
}

#[test]
fn enumeration_halts_at_first_missing_index() {
    let text = "[preset.0]\nname=A\nplatform=P\n\n[preset.1]\nname=B\nplatform=P\n\n[preset.3]\nname=D\nplatform=P\n";
    let presets = get_export_presets(&Vec::new(), text).unwrap();
    assert_eq!(presets.len(), 2);
    assert_eq!(presets[0].name, "A");
    assert_eq!(presets[1].name, "B");
}

#[test]
fn document_order_of_preset_sections_does_not_matter() {
    let text = "[preset.1]\nname=B\nplatform=P\n\n[preset.0]\nname=A\nplatform=P\n";
    let presets = get_export_presets(&Vec::new(), text).unwrap();
    assert_eq!(presets.len(), 2);
    assert_eq!(presets[0].name, "A");
    assert_eq!(presets[1].name, "B");
}

#[test]
fn missing_keys_fall_back_to_sentinels() {
    let text = "[preset.0]\nother=x\n";
    let presets = get_export_presets(&Vec::new(), text).unwrap();
    assert_eq!(presets.len(), 1);
    assert_eq!(presets[0].name, "no name");
    assert_eq!(presets[0].platform, "no platform");
    assert!(!presets[0].steam);
}

#[test]
fn storefront_flag_is_read_from_the_steam_key() {
    let text = "[preset.0]\nname=A\nplatform=P\nsteam=true\n\n[preset.1]\nname=B\nplatform=P\nsteam=false\n";
    let presets = get_export_presets(&Vec::new(), text).unwrap();
    assert!(presets[0].steam);
    assert!(!presets[1].steam);
}

#[test]
fn allow_list_keeps_only_named_presets_in_order() {
    let text = "[preset.0]\nname=A\nplatform=P\n\n[preset.1]\nname=B\nplatform=P\n\n[preset.2]\nname=C\nplatform=P\n";
    let allow = vec![String::from("C"), String::from("A")];
    let presets = get_export_presets(&allow, text).unwrap();
    assert_eq!(presets.len(), 2);
    assert_eq!(presets[0].name, "A");
    assert_eq!(presets[1].name, "C");
}

#[test]
fn allow_list_matching_is_case_sensitive() {
    let text = "[preset.0]\nname=Demo\nplatform=P\n";
    let allow = vec![String::from("demo")];
    let presets = get_export_presets(&allow, text).unwrap();
    assert!(presets.is_empty());
}

#[test]
fn empty_allow_list_keeps_everything() {
    let text = "[preset.0]\nname=A\nplatform=P\n";
    let presets = get_export_presets(&Vec::new(), text).unwrap();
    assert_eq!(presets.len(), 1);
}

#[test]
fn enumeration_reaches_two_digit_indices() {
    let mut text = String::new();
    for i in 0..12 {
        text.push_str(&format!("[preset.{}]\nname=Item{}\nplatform=P\n\n", i, i));
    }
    let presets = get_export_presets(&Vec::new(), &text).unwrap();
    assert_eq!(presets.len(), 12);
    assert_eq!(presets[10].name, "Item10");
    assert_eq!(presets[11].name, "Item11");
}

#[test]
fn malformed_presets_file_is_an_ini_error() {
    let text = "[preset.0\nname=A\n";
    match get_export_presets(&Vec::new(), text) {
        Err(Error::IniError(_)) => {},
        _ => panic!("expected a parse error"),
    }
}
