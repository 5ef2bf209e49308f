use scene_core::avatar::{
    update_avatar_appearance, notify_avatar_appearance_change, notify_appear_avatar_entities,
    run_if_avatar_entities_appeared, AvatarAppearance, AvatarAppearanceChange,
    AvatarAppearanceChangeEvent, AvatarBundle, AvatarID, BornTime, ControlPeer, Equipment,
    IndexInSceneTeam, InherentProudSkillList, SkillDepot, SkillLevelMap,
};
use scene_core::command::{
    debug_command_handler, CommandKind, DebugCommandEvent, EntityCounter, QuickTravelTarget,
    ScenePlayerJumpEvent,
};
use scene_core::common::{
    BreakLevel, Guid, Level, LifeState, OwnerPlayerUID, ProtEntityType, ProtocolEntityID, Scalar,
};
use scene_core::config::{MonsterConfigCollection, MonsterExcelConfig};
use scene_core::growth::{GrowCurveTables, PropGrowCurve};
use scene_core::persistence::{
    AvatarInformation, AvatarModule, ItemInformation, PlayerInformation, Players,
};
use scene_core::props::{FightProperties, PROP_BASE_HP, PROP_CUR_HP, PROP_MAX_HP};
use scene_core::snapshot::{
    build_avatar_entity_info, build_fake_avatar_entity_info, Recipient, SceneNotify,
};
use scene_core::store::{ActorComponents, EntityStore, Handle};
use scene_core::transform::{Transform, Vector3};
use scene_core::IdMap;

fn prop(fp: &FightProperties, k: u64) -> Option<Scalar> {
    fp.0.entries.iter().find(|e| e.0 == k).map(|e| e.1)
}

fn vec3(x: Scalar, y: Scalar, z: Scalar) -> Vector3 {
    Vector3 { x, y, z }
}

fn weapon_bundle(guid: u64) -> scene_core::weapon::WeaponBundle {
    scene_core::weapon::WeaponBundle {
        weapon_id: scene_core::weapon::WeaponID(11406),
        guid: Guid(guid),
        entity_id: ProtocolEntityID(6 * 0x100_0000 + 1),
        gadget_id: scene_core::weapon::GadgetID(50011406),
        level: Level(90),
        promote_level: scene_core::weapon::PromoteLevel(6),
        affix_map: scene_core::weapon::AffixMap(IdMap { entries: vec![(111406, 4)] }),
    }
}

fn avatar_bundle(guid: u64, uid: u32, weapon: Handle) -> AvatarBundle {
    AvatarBundle {
        avatar_id: AvatarID(10000089),
        entity_id: ProtocolEntityID(0x100_0000 + 2),
        guid: Guid(guid),
        level: Level(90),
        break_level: BreakLevel(6),
        control_peer: ControlPeer(1),
        skill_depot: SkillDepot(8901),
        equipment: Equipment { weapon },
        appearance: AvatarAppearance { flycloak_id: 140001, costume_id: 0, trace_effect_id: 0 },
        transform: Transform {
            position: vec3(1_000, 2_000, 3_000),
            rotation: vec3(0, 0, 0),
        },
        owner_player_uid: OwnerPlayerUID(uid),
        fight_properties: FightProperties(IdMap {
            entries: vec![(PROP_BASE_HP, 1_000_000), (PROP_MAX_HP, 2_000_000)],
        }),
        life_state: LifeState::LifeAlive,
        born_time: BornTime(1700000000),
        index_in_scene_team: IndexInSceneTeam(0),
        skill_level_map: SkillLevelMap(IdMap { entries: vec![(10891, 10)] }),
        inherent_proud_skill_list: InherentProudSkillList(vec![892101]),
    }
}

fn persisted_avatar(guid: u64, weapon_guid: u64, costume_id: u32) -> AvatarInformation {
    AvatarInformation {
        avatar_id: 10000089,
        guid,
        weapon_guid,
        skill_depot_id: 8901,
        inherent_proud_skill_list: vec![892101],
        skill_level_map: IdMap { entries: vec![(10891, 10)] },
        wearing_flycloak_id: 140001,
        born_time: 1700000000,
        costume_id,
        trace_effect_id: 0,
    }
}

fn persisted_weapon() -> ItemInformation {
    ItemInformation::Weapon {
        weapon_id: 11406,
        level: 90,
        promote_level: 6,
        affix_map: IdMap { entries: vec![(111406, 4)] },
    }
}

fn player_at_height(y: Scalar) -> PlayerInformation {
    PlayerInformation {
        world_position: Transform { position: vec3(0, y, 0), rotation: vec3(0, 0, 0) },
        avatar_module: AvatarModule { avatar_map: IdMap { entries: Vec::new() } },
        item_map: IdMap { entries: Vec::new() },
    }
}

fn spawn_config() -> MonsterExcelConfig {
    MonsterExcelConfig {
        id: 20010101,
        hp_base: 1_000_000,
        attack_base: 50_000,
        defense_base: 30_000,
        critical: 0,
        anti_critical: 0,
        critical_hurt: 0,
        element_mastery: 0,
        fire_sub_hurt: 0,
        grass_sub_hurt: 0,
        water_sub_hurt: 0,
        elec_sub_hurt: 0,
        wind_sub_hurt: 0,
        ice_sub_hurt: 0,
        rock_sub_hurt: 0,
        physical_sub_hurt: 0,
        fire_add_hurt: 0,
        grass_add_hurt: 0,
        water_add_hurt: 0,
        elec_add_hurt: 0,
        wind_add_hurt: 0,
        ice_add_hurt: 0,
        rock_add_hurt: 0,
        physical_add_hurt: 0,
        prop_grow_curves: vec![PropGrowCurve { prop_type: PROP_BASE_HP, grow_curve: 501 }],
        hp_drops: Vec::new(),
        kill_drop_id: 0,
    }
}

fn spawn_tables() -> GrowCurveTables {
    let mut tables = GrowCurveTables::new();
    let mut factors = vec![1000 as Scalar; 100];
    factors[89] = 2000;
    assert!(tables.monster.add_curve(501, factors));
    tables
}

#[test]
fn spawn_scenario_places_monster_above_player() {
    let mut store = EntityStore::new();
    let mut counter = EntityCounter::new();
    let mut players = Players::new();
    players.put(1, player_at_height(50_000));
    let mut configs = MonsterConfigCollection::new();
    assert!(configs.add(spawn_config()));
    let tables = spawn_tables();
    let events = vec![DebugCommandEvent {
        executor_uid: 1,
        kind: CommandKind::SpawnMonster {
            monster_id: Some(b"20010101".to_vec()),
            position: (10_000, 5_000),
        },
    }];
    let resources = vec![None];
    let jumps = debug_command_handler(
        &events, &resources, &mut store, &mut counter, &players, &configs, &tables,
    );
    assert!(jumps.is_empty());
    assert_eq!(store.slots.len(), 1);
    let row = store.slots[0].as_ref().unwrap();
    assert!(row.visible);
    let b = match &row.components {
        ActorComponents::Monster(b) => b,
        _ => panic!("expected a monster actor"),
    };
    assert_eq!(b.monster_id.0, 20010101);
    assert_eq!(b.level.0, 90);
    assert_eq!(b.entity_id.0, 2 * 0x100_0000 + 1);
    assert_eq!(b.transform.position, vec3(10_000, 60_000, 5_000));
    assert_eq!(prop(&b.fight_properties, PROP_BASE_HP), Some(2_000_000));
    assert_eq!(prop(&b.fight_properties, PROP_MAX_HP), Some(2_000_000));
    assert_eq!(prop(&b.fight_properties, PROP_CUR_HP), Some(2_000_000));
}

#[test]
fn spawn_with_unknown_config_is_dropped() {
    let mut store = EntityStore::new();
    let mut counter = EntityCounter::new();
    let mut players = Players::new();
    players.put(1, player_at_height(0));
    let configs = MonsterConfigCollection::new();
    let tables = GrowCurveTables::new();
    let events = vec![DebugCommandEvent {
        executor_uid: 1,
        kind: CommandKind::SpawnMonster {
            monster_id: Some(b"20010101".to_vec()),
            position: (0, 0),
        },
    }];
    debug_command_handler(
        &events, &vec![None], &mut store, &mut counter, &players, &configs, &tables,
    );
    assert!(store.slots.is_empty());
    assert_eq!(counter.current_id, 0);
}

#[test]
fn spawn_with_unparsable_numeric_picks_a_candidate() {
    let mut store = EntityStore::new();
    let mut counter = EntityCounter::new();
    let mut players = Players::new();
    players.put(1, player_at_height(0));
    let mut configs = MonsterConfigCollection::new();
    for id in [20010101u32, 20010302, 20010502, 20010803, 20011002] {
        assert!(configs.add(MonsterExcelConfig { id, ..spawn_config() }));
    }
    let tables = spawn_tables();
    let events = vec![DebugCommandEvent {
        executor_uid: 1,
        kind: CommandKind::SpawnMonster {
            monster_id: Some(b"99999999999".to_vec()),
            position: (0, 0),
        },
    }];
    debug_command_handler(
        &events, &vec![None], &mut store, &mut counter, &players, &configs, &tables,
    );
    assert_eq!(store.slots.len(), 1);
    let b = match &store.slots[0].as_ref().unwrap().components {
        ActorComponents::Monster(b) => b,
        _ => panic!("expected a monster actor"),
    };
    assert!([20010101, 20010302, 20010502, 20010803, 20011002].contains(&b.monster_id.0));
}

#[test]
fn reposition_defaults_missing_height() {
    let mut store = EntityStore::new();
    let mut counter = EntityCounter::new();
    let players = Players::new();
    let configs = MonsterConfigCollection::new();
    let tables = GrowCurveTables::new();
    let events = vec![DebugCommandEvent {
        executor_uid: 4,
        kind: CommandKind::QuickTravel {
            target: QuickTravelTarget::Coordinates { x: 100_000, y: None, z: 200_000 },
        },
    }];
    let jumps = debug_command_handler(
        &events, &vec![None], &mut store, &mut counter, &players, &configs, &tables,
    );
    assert_eq!(jumps, vec![ScenePlayerJumpEvent(4, vec3(100_000, 2_000_000, 200_000))]);
}

#[test]
fn reposition_with_unreadable_resource_uses_default_destination() {
    let mut store = EntityStore::new();
    let mut counter = EntityCounter::new();
    let players = Players::new();
    let configs = MonsterConfigCollection::new();
    let tables = GrowCurveTables::new();
    let events = vec![
        DebugCommandEvent {
            executor_uid: 5,
            kind: CommandKind::QuickTravel {
                target: QuickTravelTarget::Resource { key: b"missing".to_vec() },
            },
        },
        DebugCommandEvent {
            executor_uid: 5,
            kind: CommandKind::QuickTravel {
                target: QuickTravelTarget::Resource { key: b"short".to_vec() },
            },
        },
    ];
    let resources = vec![None, Some(vec![1, 2, 3])];
    let jumps = debug_command_handler(
        &events, &resources, &mut store, &mut counter, &players, &configs, &tables,
    );
    assert_eq!(
        jumps,
        vec![
            ScenePlayerJumpEvent(5, vec3(0, 2_000_000, 0)),
            ScenePlayerJumpEvent(5, vec3(0, 2_000_000, 0)),
        ]
    );
}

#[test]
fn reposition_resource_payload_decodes_destination() {
    let mut store = EntityStore::new();
    let mut counter = EntityCounter::new();
    let players = Players::new();
    let configs = MonsterConfigCollection::new();
    let tables = GrowCurveTables::new();
    let mut payload = Vec::new();
    payload.extend_from_slice(&7_000i64.to_le_bytes());
    payload.extend_from_slice(&8_000i64.to_le_bytes());
    payload.extend_from_slice(&(-9_000i64).to_le_bytes());
    let events = vec![DebugCommandEvent {
        executor_uid: 6,
        kind: CommandKind::QuickTravel {
            target: QuickTravelTarget::Resource { key: b"spot".to_vec() },
        },
    }];
    let jumps = debug_command_handler(
        &events, &vec![Some(payload)], &mut store, &mut counter, &players, &configs, &tables,
    );
    assert_eq!(jumps, vec![ScenePlayerJumpEvent(6, vec3(7_000, 8_000, -9_000))]);
}

#[test]
fn costume_change_for_resident_avatar_is_broadcast() {
    let mut store = EntityStore::new();
    let guid = (9u64 << 32) | 1;
    let wh = store.spawn(ActorComponents::Weapon(weapon_bundle(guid + 1)));
    let ah = store.spawn(ActorComponents::Avatar(avatar_bundle(guid, 9, wh)));
    store.mark_visible(ah);
    let players = Players::new();
    let events = vec![AvatarAppearanceChangeEvent {
        player_uid: 9,
        avatar_guid: guid,
        change: AvatarAppearanceChange::Costume(777),
    }];
    update_avatar_appearance(&mut store, &events);
    let av = store.avatar(ah).unwrap();
    assert_eq!(av.appearance.costume_id, 777);
    let out = notify_avatar_appearance_change(&store, &players, &events);
    assert_eq!(out.len(), 1);
    assert_eq!(out[0].recipient, Recipient::AllPlayers);
    let info = match &out[0].notify {
        SceneNotify::ChangeCostume(n) => n.entity_info.as_ref().unwrap(),
        _ => panic!("expected a costume notify"),
    };
    let payload = info.entity.as_ref().unwrap();
    assert_eq!(payload.costume_id, 777);
    assert_eq!(payload.guid, guid);
    assert_eq!(info.entity_id, 0x100_0000 + 2);
    assert_eq!(payload.weapon.as_ref().unwrap().item_id, 11406);
}

#[test]
fn costume_change_for_non_resident_avatar_goes_to_owner_only() {
    let store = EntityStore::new();
    let uid = 9u32;
    let guid = (9u64 << 32) | 1;
    let weapon_guid = guid + 1;
    let mut players = Players::new();
    let mut p = player_at_height(0);
    p.avatar_module.avatar_map = IdMap {
        entries: vec![(guid, persisted_avatar(guid, weapon_guid, 777))],
    };
    p.item_map = IdMap { entries: vec![(weapon_guid, persisted_weapon())] };
    players.put(uid, p);
    let events = vec![AvatarAppearanceChangeEvent {
        player_uid: uid,
        avatar_guid: guid,
        change: AvatarAppearanceChange::Costume(777),
    }];
    let out = notify_avatar_appearance_change(&store, &players, &events);
    assert_eq!(out.len(), 1);
    assert_eq!(out[0].recipient, Recipient::Player(uid));
    let info = match &out[0].notify {
        SceneNotify::ChangeCostume(n) => n.entity_info.as_ref().unwrap(),
        _ => panic!("expected a costume notify"),
    };
    assert!(info.motion_info.is_none());
    assert_eq!(info.entity_id, 0);
    let payload = info.entity.as_ref().unwrap();
    assert_eq!(payload.costume_id, 777);
    assert_eq!(payload.uid, uid);
    assert_eq!(payload.weapon.as_ref().unwrap().guid, weapon_guid);
}

#[test]
fn unknown_persisted_record_drops_the_event() {
    let store = EntityStore::new();
    let players = Players::new();
    let events = vec![AvatarAppearanceChangeEvent {
        player_uid: 1,
        avatar_guid: 42,
        change: AvatarAppearanceChange::TraceEffect(3),
    }];
    let out = notify_avatar_appearance_change(&store, &players, &events);
    assert!(out.is_empty());
}

#[test]
fn live_and_fallback_snapshots_agree_on_common_fields() {
    let uid = 9u32;
    let guid = (9u64 << 32) | 1;
    let weapon_guid = guid + 1;
    let mut store = EntityStore::new();
    let wh = store.spawn(ActorComponents::Weapon(weapon_bundle(weapon_guid)));
    let a = avatar_bundle(guid, uid, wh);
    let w = weapon_bundle(weapon_guid);
    let live = build_avatar_entity_info(&a, &w);
    let fake =
        build_fake_avatar_entity_info(&persisted_avatar(guid, weapon_guid, 0), &persisted_weapon());
    assert_eq!(live.entity_type, fake.entity_type);
    let ai = live.entity.as_ref().unwrap();
    let af = fake.entity.as_ref().unwrap();
    assert_eq!(ai.uid, af.uid);
    assert_eq!(ai.avatar_id, af.avatar_id);
    assert_eq!(ai.guid, af.guid);
    assert_eq!(ai.equip_id_list, af.equip_id_list);
    assert_eq!(ai.skill_depot_id, af.skill_depot_id);
    let wi = ai.weapon.as_ref().unwrap();
    let wf = af.weapon.as_ref().unwrap();
    assert_eq!(wi.guid, wf.guid);
    assert_eq!(wi.item_id, wf.item_id);
    assert_eq!(wi.level, wf.level);
    assert_eq!(wi.promote_level, wf.promote_level);
    assert_eq!(wi.affix_map.entries, wf.affix_map.entries);
    assert_eq!(ai.inherent_proud_skill_list, af.inherent_proud_skill_list);
    assert_eq!(ai.skill_level_map.entries, af.skill_level_map.entries);
    assert_eq!(ai.wearing_flycloak_id, af.wearing_flycloak_id);
    assert_eq!(ai.born_time, af.born_time);
    assert_eq!(ai.costume_id, af.costume_id);
    assert_eq!(ai.trace_effect_id, af.trace_effect_id);
    assert_eq!(ai.anim_hash, af.anim_hash);
}

#[test]
fn newly_visible_avatars_are_announced_once() {
    let mut store = EntityStore::new();
    let guid = (3u64 << 32) | 1;
    let wh = store.spawn(ActorComponents::Weapon(weapon_bundle(guid + 1)));
    let ah = store.spawn(ActorComponents::Avatar(avatar_bundle(guid, 3, wh)));
    store.mark_visible(ah);
    assert!(run_if_avatar_entities_appeared(&store));
    let msg = notify_appear_avatar_entities(&mut store);
    assert_eq!(msg.recipient, Recipient::AllPlayers);
    let n = match &msg.notify {
        SceneNotify::EntityAppear(n) => n,
        _ => panic!("expected an appear notify"),
    };
    assert_eq!(n.appear_type, 1);
    assert_eq!(n.entity_list.len(), 1);
    assert_eq!(n.entity_list[0].entity_id, 0x100_0000 + 2);
    assert!(!run_if_avatar_entities_appeared(&store));
    let again = notify_appear_avatar_entities(&mut store);
    let n2 = match &again.notify {
        SceneNotify::EntityAppear(n) => n,
        _ => panic!("expected an appear notify"),
    };
    assert!(n2.entity_list.is_empty());
}

#[test]
fn despawned_actor_is_not_found() {
    let mut store = EntityStore::new();
    let guid = (2u64 << 32) | 8;
    let wh = store.spawn(ActorComponents::Weapon(weapon_bundle(guid + 1)));
    let ah = store.spawn(ActorComponents::Avatar(avatar_bundle(guid, 2, wh)));
    assert!(store.find_avatar_by_guid(guid).is_some());
    assert!(store.despawn(ah));
    assert!(store.find_avatar_by_guid(guid).is_none());
    assert!(store.avatar(ah).is_none());
    assert!(!store.despawn(ah));
    assert_eq!(uid_of_first(&store), None);
}

fn uid_of_first(store: &EntityStore) -> Option<u32> {
    store.slots.iter().find_map(|s| {
        s.as_ref().and_then(|row| match &row.components {
            ActorComponents::Avatar(b) => Some(b.owner_player_uid.0),
            _ => None,
        })
    })
}

#[test]
fn life_state_and_type_tags() {
    assert_eq!(LifeState::default(), LifeState::LifeAlive);
    assert_eq!(LifeState::LifeAlive.code(), 1);
    assert_eq!(LifeState::LifeDead.code(), 2);
    assert_eq!(ProtEntityType::Avatar.tag(), 1);
    assert_eq!(ProtEntityType::Monster.tag(), 2);
}
