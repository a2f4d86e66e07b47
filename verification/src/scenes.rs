//! Scene selection: the closed set of built-in scenes and their
//! command-line names.
//!
//! The scene identifier fixes the camera placement, the background color,
//! the aspect ratio and the geometry list; building those is floating-point
//! work done by the renderer on top of this library. What the library owns
//! is the enumeration itself and the exact name of each scene, so that
//! argument validation can reject an unrecognized scene by the same rule
//! the renderer uses to pick one.

use vstd::prelude::*;

verus! {

/// Possible hard-coded scenes to choose from.
#[derive(Debug, Clone, Copy, PartialEq, Eq, Structural)]
pub enum SceneType {
    /// Test scene for materials development.
    MaterialDev,
    /// Scene like the cover of "Ray Tracing in One Weekend".
    CoverPhoto,
    /// Two checkered spheres with the camera looking at their point of contact.
    TwoSpheres,
    /// Two Perlin noise spheres.
    TwoPerlinSpheres,
    /// A single sphere with an image of Earth mapped to it.
    Earth,
    /// Two Perlin noise spheres with a rectangular diffuse light.
    SimpleLight,
    /// The famous Cornell Box scene.
    CornellBox,
    /// Cornell Box scene from the definitive Cornell Box data.
    CornellBox2,
    /// The cover photo in the dark with lights.
    RandomLights,
    /// The final scene from "Ray Tracing: The Next Week".
    FinalScene,
    /// Debugging Cornell Box scene.
    DebugCornell,
    /// Debugging final scene.
    DebugFinal,
}

/// The command-line name of each scene: the kebab-case form of the
/// variant's name.
pub open spec fn spec_scene_name(scene: SceneType) -> Seq<char> {
    match scene {
        SceneType::MaterialDev => "material-dev"@,
        SceneType::CoverPhoto => "cover-photo"@,
        SceneType::TwoSpheres => "two-spheres"@,
        SceneType::TwoPerlinSpheres => "two-perlin-spheres"@,
        SceneType::Earth => "earth"@,
        SceneType::SimpleLight => "simple-light"@,
        SceneType::CornellBox => "cornell-box"@,
        SceneType::CornellBox2 => "cornell-box-2"@,
        SceneType::RandomLights => "random-lights"@,
        SceneType::FinalScene => "final-scene"@,
        SceneType::DebugCornell => "debug-cornell"@,
        SceneType::DebugFinal => "debug-final"@,
    }
}

/// The scene a command-line name denotes, if any: the inverse table of
/// [`spec_scene_name`].
pub open spec fn spec_scene_of_name(name: Seq<char>) -> Option<SceneType> {
    if name == spec_scene_name(SceneType::MaterialDev) {
        Some(SceneType::MaterialDev)
    } else if name == spec_scene_name(SceneType::CoverPhoto) {
        Some(SceneType::CoverPhoto)
    } else if name == spec_scene_name(SceneType::TwoSpheres) {
        Some(SceneType::TwoSpheres)
    } else if name == spec_scene_name(SceneType::TwoPerlinSpheres) {
        Some(SceneType::TwoPerlinSpheres)
    } else if name == spec_scene_name(SceneType::Earth) {
        Some(SceneType::Earth)
    } else if name == spec_scene_name(SceneType::SimpleLight) {
        Some(SceneType::SimpleLight)
    } else if name == spec_scene_name(SceneType::CornellBox) {
        Some(SceneType::CornellBox)
    } else if name == spec_scene_name(SceneType::CornellBox2) {
        Some(SceneType::CornellBox2)
    } else if name == spec_scene_name(SceneType::RandomLights) {
        Some(SceneType::RandomLights)
    } else if name == spec_scene_name(SceneType::FinalScene) {
        Some(SceneType::FinalScene)
    } else if name == spec_scene_name(SceneType::DebugCornell) {
        Some(SceneType::DebugCornell)
    } else if name == spec_scene_name(SceneType::DebugFinal) {
        Some(SceneType::DebugFinal)
    } else {
        None
    }
}

impl SceneType {
    /// The twelve scenes, in declaration order.
    pub fn all() -> (scenes: [SceneType; 12])
        ensures
            scenes@ =~= seq![
                SceneType::MaterialDev,
                SceneType::CoverPhoto,
                SceneType::TwoSpheres,
                SceneType::TwoPerlinSpheres,
                SceneType::Earth,
                SceneType::SimpleLight,
                SceneType::CornellBox,
                SceneType::CornellBox2,
                SceneType::RandomLights,
                SceneType::FinalScene,
                SceneType::DebugCornell,
                SceneType::DebugFinal,
            ],
    {
        [
            SceneType::MaterialDev,
            SceneType::CoverPhoto,
            SceneType::TwoSpheres,
            SceneType::TwoPerlinSpheres,
            SceneType::Earth,
            SceneType::SimpleLight,
            SceneType::CornellBox,
            SceneType::CornellBox2,
            SceneType::RandomLights,
            SceneType::FinalScene,
            SceneType::DebugCornell,
            SceneType::DebugFinal,
        ]
    }

    /// Parses a command-line scene name; `None` exactly when the name is
    /// not one of the twelve scenes.
    pub fn from_name(name: &str) -> (scene: Option<SceneType>)
        ensures
            scene == spec_scene_of_name(name@),
    {
        if str_eq(name, "material-dev") {
            Some(SceneType::MaterialDev)
        } else if str_eq(name, "cover-photo") {
            Some(SceneType::CoverPhoto)
        } else if str_eq(name, "two-spheres") {
            Some(SceneType::TwoSpheres)
        } else if str_eq(name, "two-perlin-spheres") {
            Some(SceneType::TwoPerlinSpheres)
        } else if str_eq(name, "earth") {
            Some(SceneType::Earth)
        } else if str_eq(name, "simple-light") {
            Some(SceneType::SimpleLight)
        } else if str_eq(name, "cornell-box") {
            Some(SceneType::CornellBox)
        } else if str_eq(name, "cornell-box-2") {
            Some(SceneType::CornellBox2)
        } else if str_eq(name, "random-lights") {
            Some(SceneType::RandomLights)
        } else if str_eq(name, "final-scene") {
            Some(SceneType::FinalScene)
        } else if str_eq(name, "debug-cornell") {
            Some(SceneType::DebugCornell)
        } else if str_eq(name, "debug-final") {
            Some(SceneType::DebugFinal)
        } else {
            None
        }
    }

    /// The command-line name of this scene.
    pub fn name(self) -> (name: &'static str)
        ensures
            name@ == spec_scene_name(self),
    {
        match self {
            SceneType::MaterialDev => "material-dev",
            SceneType::CoverPhoto => "cover-photo",
            SceneType::TwoSpheres => "two-spheres",
            SceneType::TwoPerlinSpheres => "two-perlin-spheres",
            SceneType::Earth => "earth",
            SceneType::SimpleLight => "simple-light",
            SceneType::CornellBox => "cornell-box",
            SceneType::CornellBox2 => "cornell-box-2",
            SceneType::RandomLights => "random-lights",
            SceneType::FinalScene => "final-scene",
            SceneType::DebugCornell => "debug-cornell",
            SceneType::DebugFinal => "debug-final",
        }
    }
}

/// Parsing a scene name and printing one are exact inverses: parsing a
/// scene's own name gives that scene back (so no two scenes share a name),
/// and a name that parses prints back to itself.
pub proof fn lemma_scene_name_round_trip(scene: SceneType, name: Seq<char>)
    ensures
        spec_scene_of_name(spec_scene_name(scene)) == Some(scene),
        spec_scene_of_name(name) matches Some(s) ==> spec_scene_name(s) == name,
{
    reveal_strlit("material-dev");
    reveal_strlit("cover-photo");
    reveal_strlit("two-spheres");
    reveal_strlit("two-perlin-spheres");
    reveal_strlit("earth");
    reveal_strlit("simple-light");
    reveal_strlit("cornell-box");
    reveal_strlit("cornell-box-2");
    reveal_strlit("random-lights");
    reveal_strlit("final-scene");
    reveal_strlit("debug-cornell");
    reveal_strlit("debug-final");
    // Enough concrete facts to tell any two names apart: the lengths, the
    // first character within each length group, and a third character for
    // the one pair that still agrees on both.
    assert(spec_scene_name(SceneType::MaterialDev).len() == 12);
    assert(spec_scene_name(SceneType::CoverPhoto).len() == 11);
    assert(spec_scene_name(SceneType::TwoSpheres).len() == 11);
    assert(spec_scene_name(SceneType::TwoPerlinSpheres).len() == 18);
    assert(spec_scene_name(SceneType::Earth).len() == 5);
    assert(spec_scene_name(SceneType::SimpleLight).len() == 12);
    assert(spec_scene_name(SceneType::CornellBox).len() == 11);
    assert(spec_scene_name(SceneType::CornellBox2).len() == 13);
    assert(spec_scene_name(SceneType::RandomLights).len() == 13);
    assert(spec_scene_name(SceneType::FinalScene).len() == 11);
    assert(spec_scene_name(SceneType::DebugCornell).len() == 13);
    assert(spec_scene_name(SceneType::DebugFinal).len() == 11);
    assert(spec_scene_name(SceneType::MaterialDev)[0] == 'm');
    assert(spec_scene_name(SceneType::SimpleLight)[0] == 's');
    assert(spec_scene_name(SceneType::CoverPhoto)[0] == 'c');
    assert(spec_scene_name(SceneType::TwoSpheres)[0] == 't');
    assert(spec_scene_name(SceneType::CornellBox)[0] == 'c');
    assert(spec_scene_name(SceneType::FinalScene)[0] == 'f');
    assert(spec_scene_name(SceneType::DebugFinal)[0] == 'd');
    assert(spec_scene_name(SceneType::CornellBox2)[0] == 'c');
    assert(spec_scene_name(SceneType::RandomLights)[0] == 'r');
    assert(spec_scene_name(SceneType::DebugCornell)[0] == 'd');
    assert(spec_scene_name(SceneType::CoverPhoto)[2] == 'v');
    assert(spec_scene_name(SceneType::CornellBox)[2] == 'r');
    match scene {
        SceneType::MaterialDev => {
            assert(spec_scene_of_name(spec_scene_name(scene)) == Some(scene));
        },
        SceneType::CoverPhoto => {
            assert(spec_scene_of_name(spec_scene_name(scene)) == Some(scene));
        },
        SceneType::TwoSpheres => {
            assert(spec_scene_of_name(spec_scene_name(scene)) == Some(scene));
        },
        SceneType::TwoPerlinSpheres => {
            assert(spec_scene_of_name(spec_scene_name(scene)) == Some(scene));
        },
        SceneType::Earth => {
            assert(spec_scene_of_name(spec_scene_name(scene)) == Some(scene));
        },
        SceneType::SimpleLight => {
            assert(spec_scene_of_name(spec_scene_name(scene)) == Some(scene));
        },
        SceneType::CornellBox => {
            assert(spec_scene_of_name(spec_scene_name(scene)) == Some(scene));
        },
        SceneType::CornellBox2 => {
            assert(spec_scene_of_name(spec_scene_name(scene)) == Some(scene));
        },
        SceneType::RandomLights => {
            assert(spec_scene_of_name(spec_scene_name(scene)) == Some(scene));
        },
        SceneType::FinalScene => {
            assert(spec_scene_of_name(spec_scene_name(scene)) == Some(scene));
        },
        SceneType::DebugCornell => {
            assert(spec_scene_of_name(spec_scene_name(scene)) == Some(scene));
        },
        SceneType::DebugFinal => {
            assert(spec_scene_of_name(spec_scene_name(scene)) == Some(scene));
        },
    }
}

/// Compares two strings character by character.
fn str_eq(a: &str, b: &str) -> (equal: bool)
    ensures
        equal == (a@ == b@),
{
    let a_len = a.unicode_len();
    let b_len = b.unicode_len();
    if a_len != b_len {
        return false;
    }
    let mut i: usize = 0;
    while i < a_len
        invariant
            a_len == a@.len(),
            b_len == b@.len(),
            a_len == b_len,
            0 <= i <= a_len,
            forall|k: int| 0 <= k < i ==> a@[k] == b@[k],
        decreases a_len - i,
    {
        if a.get_char(i) != b.get_char(i) {
            proof {
                assert(a@[i as int] != b@[i as int]);
            }
            return false;
        }
        i += 1;
    }
    proof {
        assert(a@ =~= b@);
    }
    true
}

} // verus!
