//! The closed scene enumeration and its command-line names.

use lustre::scenes::SceneType;

#[test]
fn known_scene_names_parse() {
    assert_eq!(SceneType::from_name("cornell-box"), Some(SceneType::CornellBox));
    assert_eq!(SceneType::from_name("cover-photo"), Some(SceneType::CoverPhoto));
    assert_eq!(SceneType::from_name("debug-final"), Some(SceneType::DebugFinal));
}

#[test]
fn unknown_scene_names_are_rejected() {
    assert_eq!(SceneType::from_name("lustre"), None);
    assert_eq!(SceneType::from_name(""), None);
    assert_eq!(SceneType::from_name("cornell-box "), None);
    assert_eq!(SceneType::from_name("Cornell-Box"), None);
}

#[test]
fn every_scene_name_round_trips() {
    for scene in SceneType::all() {
        assert_eq!(SceneType::from_name(scene.name()), Some(scene));
    }
}

#[test]
fn scene_names_are_kebab_case() {
    assert_eq!(SceneType::CornellBox2.name(), "cornell-box-2");
    assert_eq!(SceneType::TwoPerlinSpheres.name(), "two-perlin-spheres");
    assert_eq!(SceneType::MaterialDev.name(), "material-dev");
}
