use fxmini::preset::{active_name, choose_start_preset, duplicate_all, same_choice, PresetId};
use fxmini::PresetEntry;

fn id(index: u64) -> PresetId {
    PresetId { index }
}

fn entry(index: u64, name: &str, stem: Option<&str>) -> PresetEntry {
    PresetEntry {
        name: name.to_owned(),
        path: id(index),
        stem: stem.map(str::to_owned),
        file_name: stem.map(|stem| format!("{stem}.fac")),
    }
}

#[test]
fn the_remembered_preset_comes_first() {
    let presets = vec![entry(1, "Alpha", None), entry(2, "My Music", None), entry(3, "音乐", None)];
    assert_eq!(choose_start_preset(Some(id(9)), true, &presets), Some(id(9)));
}

#[test]
fn music_comes_next_and_then_the_first() {
    let presets = vec![entry(1, "Alpha", None), entry(2, "My Music", None), entry(3, "音乐", None)];
    assert_eq!(choose_start_preset(Some(id(9)), false, &presets), Some(id(2)));
    assert_eq!(choose_start_preset(None, true, &presets), Some(id(2)));
    let chinese = vec![entry(1, "music", None), entry(3, "流行音乐", None)];
    assert_eq!(choose_start_preset(None, false, &chinese), Some(id(3)));
    let plain = vec![entry(4, "Alpha", None), entry(5, "Beta", None)];
    assert_eq!(choose_start_preset(None, false, &plain), Some(id(4)));
    assert_eq!(choose_start_preset(Some(id(9)), false, &Vec::new()), None);
}

#[test]
fn an_active_preset_goes_by_its_own_name() {
    let presets = vec![entry(1, "Alpha", None), entry(2, "", Some("beta")), entry(1, "Again", None)];
    assert_eq!(active_name(&presets, Some(id(1))), Some("Alpha".to_owned()));
    assert_eq!(active_name(&presets, Some(id(2))), Some(String::new()));
    assert_eq!(active_name(&presets, Some(id(3))), None);
    assert_eq!(active_name(&presets, None), None);
}

#[test]
fn a_label_falls_back_to_the_file_and_then_to_a_question_mark() {
    assert_eq!(entry(1, " Rock ", Some("rock")).label(), " Rock ");
    assert_eq!(entry(1, " \t", Some("rock")).label(), "rock");
    assert_eq!(entry(1, "", None).label(), "?");
}

#[test]
fn choices_are_the_same_by_path() {
    assert!(same_choice(None, None));
    assert!(same_choice(Some(id(1)), Some(id(1))));
    assert!(!same_choice(Some(id(1)), Some(id(2))));
    assert!(!same_choice(Some(id(1)), None));
    assert!(!same_choice(None, Some(id(1))));
}

#[test]
fn a_copy_of_the_library_holds_the_same_presets() {
    let presets = vec![entry(1, "Alpha", Some("a")), entry(2, "Beta", None)];
    let copy = duplicate_all(&presets);
    assert_eq!(copy.len(), 2);
    assert_eq!(copy[0].name, "Alpha");
    assert_eq!(copy[0].file_name, Some("a.fac".to_owned()));
    assert_eq!(copy[1].path, id(2));
    assert_eq!(copy[1].stem, None);
}
