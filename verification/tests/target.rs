use snek::target::Target;

const LOGGED: [(Target, u16, &str); 8] = [
    (Target::Mama, 17021, "MAMA"),
    (Target::Siax, 17028, "Nightmare Oratuss"),
    (Target::Enso, 16948, "Ensolyss of the Endless Torment"),
    (Target::Skor, 17632, "Skorvald the Shattered"),
    (Target::Arts, 17949, "Artsariiv"),
    (Target::Arkk, 17759, "Arkk"),
    (Target::Ai, 23254, "Sorrowful Spellcaster"),
    (Target::Golem, 16199, "Standard Kitty Golem"),
];

#[test]
fn from_id_knows_the_supported_bosses() {
    for (target, id, _) in LOGGED {
        assert_eq!(Target::from_id(id), Some(target));
    }
    for id in [0, 1, 17020, 17022, 23253, u16::MAX] {
        assert_eq!(Target::from_id(id), None);
    }
    let known = (0..=u16::MAX).filter(|id| Target::from_id(*id).is_some()).count();
    assert_eq!(known, 8);
}

#[test]
fn a_target_is_found_by_its_directory() {
    for (target, _, dir) in LOGGED {
        assert_eq!(target.dir_name(), dir);
        assert_eq!(Target::from_name(dir), Some(target));
        assert_eq!(Target::from_name(target.dir_name()), Some(target));
    }
    for name in ["", "mama", "MAMA ", "Arkk\0", "Siax the Corrupted", "Ai, Keeper of the Peak"] {
        assert_eq!(Target::from_name(name), None);
    }
}

#[test]
fn targets_are_shown_by_their_names() {
    assert_eq!(Target::Mama.display_name(), "MAMA");
    assert_eq!(Target::Siax.display_name(), "Siax the Corrupted");
    assert_eq!(Target::Enso.display_name(), "Ensolyss of the Endless Torment");
    assert_eq!(Target::Skor.display_name(), "Skorvald the Shattered");
    assert_eq!(Target::Arts.display_name(), "Artsariiv");
    assert_eq!(Target::Arkk.display_name(), "Arkk");
    assert_eq!(Target::Ai.display_name(), "Ai, Keeper of the Peak");
    assert_eq!(Target::AiElemental.display_name(), "Ai, Keeper of the Peak (Elemental)");
    assert_eq!(Target::AiDark.display_name(), "Ai, Keeper of the Peak (Dark)");
    assert_eq!(Target::Golem.display_name(), "Standard Kitty Golem");
}

#[test]
fn targets_are_ordered_as_declared() {
    let mut all = vec![Target::Golem, Target::AiDark, Target::Ai, Target::Mama, Target::Arkk, Target::Siax];
    all.sort();
    assert_eq!(all, vec![Target::Mama, Target::Siax, Target::Arkk, Target::Ai, Target::AiDark, Target::Golem]);
}
