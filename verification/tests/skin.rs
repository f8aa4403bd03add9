use operator::skin::{
    battle_files_base_path, char_skin_id, dorm_files_base_path, AnimationChange, GeneralOperatorSkin,
    SkinError, SkinVariant,
};

fn names(list: &[&str]) -> Vec<String> {
    list.iter().map(|s| s.to_string()).collect()
}

fn dorm_skin() -> GeneralOperatorSkin {
    GeneralOperatorSkin::new("char_002_amiya", None, names(&["Relax", "Move", "Interact", "Sit"]), None)
}

#[test]
fn skin_id_joins_operator_and_skin() {
    assert_eq!(char_skin_id("char_002_amiya", None), "char_002_amiya");
    assert_eq!(char_skin_id("char_002_amiya", Some("winter#1")), "char_002_amiya_winter#1");
}

#[test]
fn dorm_path_of_default_and_named_skin() {
    assert_eq!(
        dorm_files_base_path("char_002_amiya", None),
        "assets/dyn/building/vault/characters/build_char_002_amiya/build_char_002_amiya"
    );
    assert_eq!(
        dorm_files_base_path("char_002_amiya", Some("epoque#4")),
        "assets/dyn/building/vault/characters/build_char_002_amiya_epoque#4/build_char_002_amiya_epoque#4"
    );
}

#[test]
fn battle_path_of_default_and_named_skin() {
    assert_eq!(
        battle_files_base_path("char_002_amiya", None),
        "assets/dyn/battle/prefabs/skins/character/char_002_amiya/defaultskin/char_002_amiya"
    );
    assert_eq!(
        battle_files_base_path("char_002_amiya", Some("epoque#4")),
        "assets/dyn/battle/prefabs/skins/character/char_002_amiya/char_002_amiya_epoque#4/char_002_amiya_epoque#4"
    );
}

#[test]
fn new_skin_starts_on_default() {
    let skin = GeneralOperatorSkin::new("char_002_amiya", Some("summer#2"), names(&["Relax"]), None);
    assert_eq!(skin.operator_id(), "char_002_amiya");
    assert_eq!(skin.id(), Some("summer#2".to_string()));
    assert_eq!(skin.active_ani(), "Default");
    assert_eq!(skin.previous_ani(), "Default");
    assert_eq!(skin.active_skin_variant(), SkinVariant::Dorm);
    assert_eq!(dorm_skin().id(), None);
}

#[test]
fn animations_list_dorm_then_battle() {
    let skin = GeneralOperatorSkin::new(
        "op",
        None,
        names(&["Relax", "Move"]),
        Some(names(&["Attack", "Die"])),
    );
    assert_eq!(skin.animations(), names(&["Relax", "Move", "Attack", "Die"]));
    assert_eq!(dorm_skin().animations(), names(&["Relax", "Move", "Interact", "Sit"]));
}

#[test]
fn variant_lookup_later_skeleton_wins() {
    let skin = GeneralOperatorSkin::new("op", None, names(&["Relax", "Idle"]), Some(names(&["Idle", "Attack"])));
    assert_eq!(skin.skin_variant_from_animation("Relax"), Ok(SkinVariant::Dorm));
    assert_eq!(skin.skin_variant_from_animation("Attack"), Ok(SkinVariant::Battle));
    assert_eq!(skin.skin_variant_from_animation("Idle"), Ok(SkinVariant::Battle));
}

#[test]
fn variant_lookup_unknown_animation() {
    let skin = dorm_skin();
    assert_eq!(
        skin.skin_variant_from_animation("Dance"),
        Err(SkinError::AnimationNotFound("\"animation\": Dance".to_string()))
    );
}

#[test]
fn set_animation_unknown_leaves_state() {
    let mut skin = dorm_skin();
    let r = skin.set_animation("Dance", false);
    assert_eq!(r, Err(SkinError::AnimationNotFound("\"animation\": Dance".to_string())));
    assert_eq!(skin.active_ani(), "Default");
    assert_eq!(skin.previous_ani(), "Default");
}

#[test]
fn set_animation_records_previous() {
    let mut skin = dorm_skin();
    assert_eq!(skin.set_animation("Relax", false), Ok(AnimationChange::MixFrom("Default".to_string())));
    assert_eq!(skin.active_ani(), "Relax");
    assert_eq!(skin.previous_ani(), "Default");
    assert_eq!(skin.set_animation("Move", false), Ok(AnimationChange::MixFrom("Relax".to_string())));
    assert_eq!(skin.active_ani(), "Move");
    assert_eq!(skin.previous_ani(), "Relax");
}

#[test]
fn set_animation_twice_is_unchanged() {
    let mut skin = dorm_skin();
    skin.set_animation("Move", false).unwrap();
    assert_eq!(skin.set_animation("Move", false), Ok(AnimationChange::Unchanged));
    assert_eq!(skin.active_ani(), "Move");
    assert_eq!(skin.previous_ani(), "Default");
}

#[test]
fn forced_switch_restarts() {
    let mut skin = dorm_skin();
    skin.set_animation("Move", false).unwrap();
    assert_eq!(skin.set_animation("Move", true), Ok(AnimationChange::Restart));
    assert_eq!(skin.active_ani(), "Move");
    assert_eq!(skin.previous_ani(), "Move");
}

#[test]
fn back_to_previous_round_trip() {
    let mut skin = dorm_skin();
    skin.set_animation("Relax", false).unwrap();
    skin.set_animation("Interact", false).unwrap();
    let previous = skin.previous_ani();
    assert_eq!(previous, "Relax");
    assert_eq!(skin.set_animation(&previous, false), Ok(AnimationChange::MixFrom("Interact".to_string())));
    assert_eq!(skin.active_ani(), "Relax");
    assert_eq!(skin.previous_ani(), "Interact");
}

#[test]
fn battle_controller_needed_for_battle_switch() {
    let skin = GeneralOperatorSkin::new("op", None, names(&["Relax"]), Some(names(&["Attack"])));
    assert!(skin.battle_controller_needed("Attack", false));
    assert!(!skin.battle_controller_needed("Relax", false));
    assert!(!skin.battle_controller_needed("Dance", true));
}
