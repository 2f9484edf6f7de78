//! The values of the tag `Scene`.

use vstd::prelude::*;
use vstd::string::*;

verus! {

/// The kind of scene that was taken.
#[derive(Debug, Clone, Copy, PartialEq, Eq, Structural)]
pub enum Scene {
    Standard,
    Landscape,
    Portrait,
    Night,
    Other,
}

/// The value that a number stands for, where it stands for one.
pub open spec fn scene_of(val: int) -> Option<Scene> {
    if val == 0 {
        Some(Scene::Standard)
    } else if val == 1 {
        Some(Scene::Landscape)
    } else if val == 2 {
        Some(Scene::Portrait)
    } else if val == 3 {
        Some(Scene::Night)
    } else if val == 4 {
        Some(Scene::Other)
    } else {
        None
    }
}

/// The text of a value.
pub open spec fn scene_text(v: Scene) -> Seq<char> {
    match v {
        Scene::Standard => "Standard"@,
        Scene::Landscape => "Landscape"@,
        Scene::Portrait => "Portrait"@,
        Scene::Night => "Night"@,
        Scene::Other => "Other"@,
    }
}

impl Scene {
    /// The value that a number stands for; `Other` for a number that stands
    /// for none.
    pub fn from(val: u16) -> (r: Scene)
        ensures
            r == match scene_of(val as int) {
                Some(v) => v,
                None => Scene::Other,
            },
    {
        match val {
            0 => Scene::Standard,
            1 => Scene::Landscape,
            2 => Scene::Portrait,
            3 => Scene::Night,
            4 => Scene::Other,
            _ => Scene::Other,
        }
    }

    /// The value that a number stands for, where it stands for one.
    pub fn try_from(val: usize) -> (r: Option<Scene>)
        ensures
            r == scene_of(val as int),
    {
        match val {
            0 => Some(Scene::Standard),
            1 => Some(Scene::Landscape),
            2 => Some(Scene::Portrait),
            3 => Some(Scene::Night),
            4 => Some(Scene::Other),
            _ => None,
        }
    }

    /// The text of the value.
    pub fn to_string(&self) -> (r: String)
        ensures
            r@ == scene_text(*self),
    {
        match self {
            Scene::Standard => String::from_str("Standard"),
            Scene::Landscape => String::from_str("Landscape"),
            Scene::Portrait => String::from_str("Portrait"),
            Scene::Night => String::from_str("Night"),
            Scene::Other => String::from_str("Other"),
        }
    }
}

} // verus!
