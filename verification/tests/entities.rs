use eos_rs::dungeon_mode::{
    DungeonEntity, DungeonEntityExt, DungeonItem, DungeonMonster, DungeonTrap, EntityInfo,
    EntityType,
};

fn sample_monster() -> DungeonMonster {
    DungeonMonster { id: 25, level: 12, hp: 30, max_hp: 35 }
}

fn sample_item() -> DungeonItem {
    DungeonItem { id: 7, quantity: 3, sticky: false }
}

fn sample_trap() -> DungeonTrap {
    DungeonTrap { id: 2, visible: true }
}

#[test]
fn monster_entity_exposes_monster_info() {
    let e = DungeonEntity::new_monster(sample_monster());
    assert_eq!(e.type_, EntityType::Monster);
    assert_eq!(e.info_for_monster(), Some(&sample_monster()));
    assert_eq!(e.info_for_item(), None);
    assert_eq!(e.info_for_trap(), None);
}

#[test]
fn item_entity_exposes_item_info() {
    let e = DungeonEntity::new_item(sample_item());
    assert_eq!(e.type_, EntityType::Item);
    assert_eq!(e.info_for_item(), Some(&sample_item()));
    assert_eq!(e.info_for_monster(), None);
    assert_eq!(e.info_for_trap(), None);
}

#[test]
fn trap_entity_exposes_trap_info() {
    let e = DungeonEntity::new_trap(sample_trap());
    assert_eq!(e.type_, EntityType::Trap);
    assert_eq!(e.info_for_trap(), Some(&sample_trap()));
    assert_eq!(e.info_for_monster(), None);
    assert_eq!(e.info_for_item(), None);
}

#[test]
fn monster_info_mut_reaches_the_payload() {
    let mut e = DungeonEntity::new_monster(sample_monster());
    match e.info_for_monster_mut() {
        Some(m) => m.hp = 1,
        None => panic!("a monster entity must hand out its monster info"),
    }
    assert_eq!(e.info_for_monster().map(|m| m.hp), Some(1));
    assert!(e.info_for_item_mut().is_none());
    assert!(e.info_for_trap_mut().is_none());
}

#[test]
fn item_info_mut_reaches_the_payload() {
    let mut e = DungeonEntity::new_item(sample_item());
    match e.info_for_item_mut() {
        Some(it) => it.quantity = 9,
        None => panic!("an item entity must hand out its item info"),
    }
    assert_eq!(e.info, EntityInfo::Item(DungeonItem { id: 7, quantity: 9, sticky: false }));
    assert!(e.info_for_monster_mut().is_none());
}

#[test]
fn trap_info_mut_reaches_the_payload() {
    let mut e = DungeonEntity::new_trap(sample_trap());
    match e.info_for_trap_mut() {
        Some(t) => t.visible = false,
        None => panic!("a trap entity must hand out its trap info"),
    }
    assert_eq!(e.info_for_trap().map(|t| t.visible), Some(false));
}
