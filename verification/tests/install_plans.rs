use move_installer::install::{component_subdir, module_install_path};

#[test]
fn component_types_map_to_their_directories() {
    assert_eq!(component_subdir("sound_generator"), Some("sound_generators"));
    assert_eq!(component_subdir("audio_fx"), Some("audio_fx"));
    assert_eq!(component_subdir("midi_fx"), Some("midi_fx"));
    assert_eq!(component_subdir("utility"), Some("utilities"));
    assert_eq!(component_subdir("overtake"), Some("overtake"));
    assert_eq!(component_subdir("featured"), None);
    assert_eq!(component_subdir("system"), None);
    assert_eq!(component_subdir("anything else"), Some("other"));
    assert_eq!(component_subdir(""), Some("other"));
}

#[test]
fn module_paths_follow_the_component_type() {
    assert_eq!(
        module_install_path("reverb", "audio_fx"),
        "/data/UserData/move-anything/modules/audio_fx/reverb"
    );
    assert_eq!(
        module_install_path("chain", "featured"),
        "/data/UserData/move-anything/modules/chain"
    );
}

#[test]
fn unknown_component_types_go_to_other() {
    assert_eq!(module_install_path("x", "Sound_Generator"), "/data/UserData/move-anything/modules/other/x");
    assert_eq!(module_install_path("x", "system"), "/data/UserData/move-anything/modules/x");
    assert_eq!(module_install_path("x", "utility"), "/data/UserData/move-anything/modules/utilities/x");
}
