use combat_sim::gear::{weapon_allows_two_handed_mode, WeaponCategory, WeaponSize};

/// The weapons of the comparison: name, size and category.
const WEAPONS: &[(&str, WeaponSize, WeaponCategory)] = &[
    ("Fist", WeaponSize::Small, WeaponCategory::Unarmed),
    ("Antler", WeaponSize::Medium, WeaponCategory::Unarmed),
    ("Claw", WeaponSize::Small, WeaponCategory::Unarmed),
    ("Fang", WeaponSize::Small, WeaponCategory::Unarmed),
    ("Cestus", WeaponSize::Small, WeaponCategory::Unarmed),
    ("Gauntlet", WeaponSize::Small, WeaponCategory::Unarmed),
    ("Spiked Gauntlet", WeaponSize::Small, WeaponCategory::Unarmed),
    ("Battle Axe", WeaponSize::Medium, WeaponCategory::Axes),
    ("Executioner's Axe", WeaponSize::Large, WeaponCategory::Axes),
    ("Greataxe", WeaponSize::Large, WeaponCategory::Axes),
    ("Hand Axe", WeaponSize::Small, WeaponCategory::Axes),
    ("Khopesh", WeaponSize::Medium, WeaponCategory::Axes),
    ("Military Pick", WeaponSize::Medium, WeaponCategory::Axes),
    ("Horseman's Pick", WeaponSize::Small, WeaponCategory::Axes),
    ("Scythe", WeaponSize::Large, WeaponCategory::Axes),
    ("Sickle", WeaponSize::Small, WeaponCategory::Axes),
    ("Throwing Axe", WeaponSize::Small, WeaponCategory::Axes),
    ("Greatclub", WeaponSize::Large, WeaponCategory::Blunt),
    ("Greathammer", WeaponSize::Large, WeaponCategory::Blunt),
    ("Hammer", WeaponSize::Small, WeaponCategory::Blunt),
    ("Warhammer", WeaponSize::Medium, WeaponCategory::Blunt),
    ("Mace", WeaponSize::Medium, WeaponCategory::Blunt),
    ("Horseman's Mace", WeaponSize::Medium, WeaponCategory::Blunt),
    ("Maul", WeaponSize::Large, WeaponCategory::Blunt),
    ("Morning Star", WeaponSize::Medium, WeaponCategory::Blunt),
    ("Club", WeaponSize::Medium, WeaponCategory::Basic),
    ("Dart", WeaponSize::Small, WeaponCategory::Basic),
    ("Sling", WeaponSize::Small, WeaponCategory::Basic),
    ("Staff", WeaponSize::Large, WeaponCategory::Basic),
    ("Longbow", WeaponSize::Large, WeaponCategory::Bows),
    ("Recurve Bow", WeaponSize::Medium, WeaponCategory::Bows),
    ("Shortbow", WeaponSize::Medium, WeaponCategory::Bows),
    ("Warbow", WeaponSize::Large, WeaponCategory::Bows),
    ("Arbalest", WeaponSize::Large, WeaponCategory::Crossbows),
    ("Light Crossbow", WeaponSize::Medium, WeaponCategory::Crossbows),
    ("Hand Crossbow", WeaponSize::Small, WeaponCategory::Crossbows),
    ("Heavy Crossbow", WeaponSize::Large, WeaponCategory::Crossbows),
    ("Double Axe", WeaponSize::Large, WeaponCategory::Double),
    ("Double Scimitar", WeaponSize::Large, WeaponCategory::Double),
    ("Dual Scythe", WeaponSize::Large, WeaponCategory::Double),
    ("Hooked Hammer", WeaponSize::Large, WeaponCategory::Double),
    ("Monk's Spade", WeaponSize::Large, WeaponCategory::Double),
    ("Spear-Axe", WeaponSize::Large, WeaponCategory::Double),
    ("Two-Bladed Sword", WeaponSize::Large, WeaponCategory::Double),
    ("Bola", WeaponSize::Medium, WeaponCategory::Ensnaring),
    ("Flail", WeaponSize::Medium, WeaponCategory::Lashes),
    ("Horseman's Flail", WeaponSize::Small, WeaponCategory::Lashes),
    ("Scourge", WeaponSize::Small, WeaponCategory::Lashes),
    ("Spiked Chain", WeaponSize::Large, WeaponCategory::Lashes),
    ("Whip", WeaponSize::Small, WeaponCategory::Lashes),
    ("Broadsword", WeaponSize::Medium, WeaponCategory::LargeSwords),
    ("Bastard Sword", WeaponSize::Medium, WeaponCategory::LargeSwords),
    ("Claymore", WeaponSize::Large, WeaponCategory::LargeSwords),
    ("Flamberge", WeaponSize::Large, WeaponCategory::LargeSwords),
    ("Greatsword", WeaponSize::Large, WeaponCategory::LargeSwords),
    ("Longsword", WeaponSize::Medium, WeaponCategory::LargeSwords),
    ("Greatknife", WeaponSize::Large, WeaponCategory::LargeSwords),
    ("Sabre", WeaponSize::Medium, WeaponCategory::LargeSwords),
    ("Scimitar", WeaponSize::Medium, WeaponCategory::LargeSwords),
    ("Spatha", WeaponSize::Medium, WeaponCategory::LargeSwords),
    ("Thrusting Sword", WeaponSize::Large, WeaponCategory::LargeSwords),
    ("Two-Handed Sword", WeaponSize::Large, WeaponCategory::LargeSwords),
    ("Dagger", WeaponSize::Small, WeaponCategory::SmallSwords),
    ("Dueling Sword", WeaponSize::Medium, WeaponCategory::SmallSwords),
    ("Falx", WeaponSize::Medium, WeaponCategory::SmallSwords),
    ("Knife", WeaponSize::Small, WeaponCategory::SmallSwords),
    ("Gladius", WeaponSize::Small, WeaponCategory::SmallSwords),
    ("Long Knife", WeaponSize::Small, WeaponCategory::SmallSwords),
    ("Short Sword", WeaponSize::Small, WeaponCategory::SmallSwords),
    ("Throwing Knife", WeaponSize::Small, WeaponCategory::SmallSwords),
    ("Bardiche", WeaponSize::Large, WeaponCategory::Polearms),
    ("Fauchard", WeaponSize::Large, WeaponCategory::Polearms),
    ("Glaive", WeaponSize::Large, WeaponCategory::Polearms),
    ("Guisarme", WeaponSize::Large, WeaponCategory::Polearms),
    ("Halberd", WeaponSize::Large, WeaponCategory::Polearms),
    ("Poleaxe", WeaponSize::Large, WeaponCategory::Polearms),
    ("Polehammer", WeaponSize::Large, WeaponCategory::Polearms),
    ("Raven's Beak", WeaponSize::Large, WeaponCategory::Polearms),
    ("Swordstaff", WeaponSize::Large, WeaponCategory::Polearms),
    ("Voulge", WeaponSize::Large, WeaponCategory::Polearms),
    ("Hasta", WeaponSize::Medium, WeaponCategory::Spears),
    ("Javelin", WeaponSize::Medium, WeaponCategory::Spears),
    ("Lance", WeaponSize::Large, WeaponCategory::Spears),
    ("Partisan", WeaponSize::Large, WeaponCategory::Spears),
    ("Pike", WeaponSize::Large, WeaponCategory::Spears),
    ("Pilum", WeaponSize::Medium, WeaponCategory::Spears),
    ("Ranseur", WeaponSize::Large, WeaponCategory::Spears),
    ("Short Spear", WeaponSize::Medium, WeaponCategory::Spears),
    ("Spear", WeaponSize::Large, WeaponCategory::Spears),
    ("Spetum", WeaponSize::Large, WeaponCategory::Spears),
    ("Trident", WeaponSize::Large, WeaponCategory::Spears),
];

#[test]
fn two_handed_eligibility_matches_rules() {
    for &(name, size, category) in WEAPONS {
        let expected = if name == "Spear" {
            true
        } else {
            size == WeaponSize::Medium && category != WeaponCategory::Bows
        };
        assert_eq!(
            weapon_allows_two_handed_mode(name, size, category),
            expected,
            "Weapon {} did not match the eligibility rules",
            name
        );
    }
}

#[test]
fn the_comparison_has_weapons_of_every_kind() {
    assert!(WEAPONS.iter().any(|&(name, _, _)| name == "Spear"));
    assert!(WEAPONS
        .iter()
        .any(|&(name, size, category)| weapon_allows_two_handed_mode(name, size, category)));
    assert!(WEAPONS
        .iter()
        .any(|&(name, size, category)| !weapon_allows_two_handed_mode(name, size, category)));
}
