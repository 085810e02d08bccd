//! The encounters this crate knows how to analyse.

use crate::text::str_eq;
use vstd::prelude::*;

verus! {

/// A supported boss. `AiElemental` and `AiDark` are the two stages of `Ai`;
/// they name the encounters split out of one `Ai` log and never a log itself.
#[derive(Clone, Copy, Debug, PartialEq, Eq, Hash, PartialOrd, Ord, Structural)]
pub enum Target {
    Mama,
    Siax,
    Enso,
    Skor,
    Arts,
    Arkk,
    Ai,
    AiElemental,
    AiDark,
    Golem,
}

impl Target {
    /// Whether logs are recorded under this target, that is, whether it is
    /// not one of the two stages of `Ai`.
    pub open spec fn is_logged(self) -> bool {
        self != Target::AiElemental && self != Target::AiDark
    }

    /// The directory arcdps files the target's logs under.
    pub open spec fn spec_dir_name(self) -> Seq<char> {
        match self {
            Target::Mama => "MAMA"@,
            Target::Siax => "Nightmare Oratuss"@,
            Target::Enso => "Ensolyss of the Endless Torment"@,
            Target::Skor => "Skorvald the Shattered"@,
            Target::Arts => "Artsariiv"@,
            Target::Arkk => "Arkk"@,
            Target::Ai | Target::AiElemental | Target::AiDark => "Sorrowful Spellcaster"@,
            Target::Golem => "Standard Kitty Golem"@,
        }
    }

    /// The target whose logs are filed under `name`, if any.
    pub open spec fn spec_from_name(name: Seq<char>) -> Option<Target> {
        if name == "MAMA"@ {
            Some(Target::Mama)
        } else if name == "Nightmare Oratuss"@ {
            Some(Target::Siax)
        } else if name == "Ensolyss of the Endless Torment"@ {
            Some(Target::Enso)
        } else if name == "Skorvald the Shattered"@ {
            Some(Target::Skor)
        } else if name == "Artsariiv"@ {
            Some(Target::Arts)
        } else if name == "Arkk"@ {
            Some(Target::Arkk)
        } else if name == "Sorrowful Spellcaster"@ {
            Some(Target::Ai)
        } else if name == "Standard Kitty Golem"@ {
            Some(Target::Golem)
        } else {
            None
        }
    }

    /// The target a log header's boss id stands for, if it is a supported one.
    pub open spec fn spec_from_id(id: u16) -> Option<Target> {
        if id == 17021 {
            Some(Target::Mama)
        } else if id == 17028 {
            Some(Target::Siax)
        } else if id == 16948 {
            Some(Target::Enso)
        } else if id == 17632 {
            Some(Target::Skor)
        } else if id == 17949 {
            Some(Target::Arts)
        } else if id == 17759 {
            Some(Target::Arkk)
        } else if id == 23254 {
            Some(Target::Ai)
        } else if id == 16199 {
            Some(Target::Golem)
        } else {
            None
        }
    }

    /// The name shown to people.
    pub open spec fn spec_display_name(self) -> Seq<char> {
        match self {
            Target::Siax => "Siax the Corrupted"@,
            Target::Ai => "Ai, Keeper of the Peak"@,
            Target::AiElemental => "Ai, Keeper of the Peak (Elemental)"@,
            Target::AiDark => "Ai, Keeper of the Peak (Dark)"@,
            t => t.spec_dir_name(),
        }
    }

    pub fn dir_name(self) -> (name: &'static str)
        requires
            self.is_logged(),
        ensures
            name@ == self.spec_dir_name(),
    {
        match self {
            Target::Mama => "MAMA",
            Target::Siax => "Nightmare Oratuss",
            Target::Enso => "Ensolyss of the Endless Torment",
            Target::Skor => "Skorvald the Shattered",
            Target::Arts => "Artsariiv",
            Target::Arkk => "Arkk",
            Target::Golem => "Standard Kitty Golem",
            _ => "Sorrowful Spellcaster",
        }
    }

    pub fn from_name(name: &str) -> (target: Option<Target>)
        ensures
            target == Self::spec_from_name(name@),
    {
        if str_eq(name, "MAMA") {
            Some(Target::Mama)
        } else if str_eq(name, "Nightmare Oratuss") {
            Some(Target::Siax)
        } else if str_eq(name, "Ensolyss of the Endless Torment") {
            Some(Target::Enso)
        } else if str_eq(name, "Skorvald the Shattered") {
            Some(Target::Skor)
        } else if str_eq(name, "Artsariiv") {
            Some(Target::Arts)
        } else if str_eq(name, "Arkk") {
            Some(Target::Arkk)
        } else if str_eq(name, "Sorrowful Spellcaster") {
            Some(Target::Ai)
        } else if str_eq(name, "Standard Kitty Golem") {
            Some(Target::Golem)
        } else {
            None
        }
    }

    pub fn from_id(id: u16) -> (target: Option<Target>)
        ensures
            target == Self::spec_from_id(id),
    {
        match id {
            17021 => Some(Target::Mama),
            17028 => Some(Target::Siax),
            16948 => Some(Target::Enso),
            17632 => Some(Target::Skor),
            17949 => Some(Target::Arts),
            17759 => Some(Target::Arkk),
            23254 => Some(Target::Ai),
            16199 => Some(Target::Golem),
            _ => None,
        }
    }

    pub fn display_name(self) -> (name: &'static str)
        ensures
            name@ == self.spec_display_name(),
    {
        match self {
            Target::Siax => "Siax the Corrupted",
            Target::Ai => "Ai, Keeper of the Peak",
            Target::AiElemental => "Ai, Keeper of the Peak (Elemental)",
            Target::AiDark => "Ai, Keeper of the Peak (Dark)",
            t => t.dir_name(),
        }
    }
}

/// A boss id never stands for one of the two stages of `Ai`: every target
/// that `from_id` yields is one that logs are recorded under.
pub proof fn lemma_from_id_is_logged(id: u16)
    ensures
        Target::spec_from_id(id) matches Some(t) ==> t.is_logged(),
{
}

/// Looking a target up by its own directory name finds that target.
pub proof fn lemma_from_name_of_dir_name(t: Target)
    requires
        t.is_logged(),
    ensures
        Target::spec_from_name(t.spec_dir_name()) == Some(t),
{
    reveal_strlit("MAMA");
    reveal_strlit("Nightmare Oratuss");
    reveal_strlit("Ensolyss of the Endless Torment");
    reveal_strlit("Skorvald the Shattered");
    reveal_strlit("Artsariiv");
    reveal_strlit("Arkk");
    reveal_strlit("Sorrowful Spellcaster");
    reveal_strlit("Standard Kitty Golem");
    assert("MAMA"@.len() == 4 && "MAMA"@[0] == 'M');
    assert("Arkk"@.len() == 4 && "Arkk"@[0] == 'A');
    assert("Nightmare Oratuss"@.len() == 17);
    assert("Ensolyss of the Endless Torment"@.len() == 31);
    assert("Skorvald the Shattered"@.len() == 22);
    assert("Artsariiv"@.len() == 9);
    assert("Sorrowful Spellcaster"@.len() == 21);
    assert("Standard Kitty Golem"@.len() == 20);
}

} // verus!
