use scene_core::command::{parse_u32_digits, EntityCounter};
use scene_core::common::{
    to_protocol_entity_id, uid_of_guid, GrowCurveConfigType, ProtEntityType, Scalar,
};
use scene_core::config::{MonsterConfigCollection, MonsterExcelConfig};
use scene_core::growth::{GrowCurveTable, GrowCurveTables, PropGrowCurve};
use scene_core::props::{
    create_fight_properties_by_monster_config, scaled, FightProperties, PROP_BASE_ATTACK,
    PROP_BASE_DEFENSE, PROP_BASE_HP, PROP_CRITICAL, PROP_CUR_ATTACK, PROP_CUR_DEFENSE,
    PROP_CUR_HP, PROP_MAX_HP,
};
use scene_core::IdMap;

fn prop(fp: &FightProperties, k: u64) -> Option<Scalar> {
    fp.0.entries.iter().find(|e| e.0 == k).map(|e| e.1)
}

fn test_config(id: u32) -> MonsterExcelConfig {
    MonsterExcelConfig {
        id,
        hp_base: 1_000_000,
        attack_base: 50_000,
        defense_base: 30_000,
        critical: 10,
        anti_critical: 20,
        critical_hurt: 500,
        element_mastery: 0,
        fire_sub_hurt: 100,
        grass_sub_hurt: 100,
        water_sub_hurt: 100,
        elec_sub_hurt: 100,
        wind_sub_hurt: 100,
        ice_sub_hurt: 100,
        rock_sub_hurt: 100,
        physical_sub_hurt: 100,
        fire_add_hurt: 0,
        grass_add_hurt: 0,
        water_add_hurt: 0,
        elec_add_hurt: 0,
        wind_add_hurt: 0,
        ice_add_hurt: 0,
        rock_add_hurt: 0,
        physical_add_hurt: 0,
        prop_grow_curves: vec![
            PropGrowCurve { prop_type: PROP_BASE_HP, grow_curve: 501 },
            PropGrowCurve { prop_type: PROP_BASE_ATTACK, grow_curve: 502 },
        ],
        hp_drops: Vec::new(),
        kill_drop_id: 0,
    }
}

fn test_tables() -> GrowCurveTables {
    let mut tables = GrowCurveTables::new();
    let mut hp_curve = vec![1000 as Scalar; 100];
    hp_curve[89] = 2000;
    let mut atk_curve = vec![1000 as Scalar; 100];
    atk_curve[89] = 3000;
    assert!(tables.monster.add_curve(501, hp_curve));
    assert!(tables.monster.add_curve(502, atk_curve));
    tables
}

fn derived(level: u32) -> FightProperties {
    let cfg = test_config(20010101);
    let tables = test_tables();
    let mut fp = create_fight_properties_by_monster_config(&cfg);
    for gc in cfg.prop_grow_curves.iter() {
        fp.apply_grow_curve(level, gc, GrowCurveConfigType::Monster, &tables);
    }
    fp.apply_base_values();
    fp
}

#[test]
fn baseline_projects_base_fields() {
    let cfg = test_config(1);
    let fp = create_fight_properties_by_monster_config(&cfg);
    assert_eq!(prop(&fp, PROP_BASE_HP), Some(1_000_000));
    assert_eq!(prop(&fp, PROP_BASE_ATTACK), Some(50_000));
    assert_eq!(prop(&fp, PROP_BASE_DEFENSE), Some(30_000));
    assert_eq!(prop(&fp, PROP_CRITICAL), Some(10));
    assert_eq!(prop(&fp, PROP_MAX_HP), None);
    assert_eq!(fp.0.entries.len(), 23);
}

#[test]
fn growth_scales_at_level_90() {
    let fp = derived(90);
    assert_eq!(prop(&fp, PROP_BASE_HP), Some(2_000_000));
    assert_eq!(prop(&fp, PROP_BASE_ATTACK), Some(150_000));
    assert_eq!(prop(&fp, PROP_BASE_DEFENSE), Some(30_000));
}

#[test]
fn finalize_fills_base_values() {
    let fp = derived(90);
    assert_eq!(prop(&fp, PROP_MAX_HP), Some(2_000_000));
    assert_eq!(prop(&fp, PROP_CUR_ATTACK), Some(150_000));
    assert_eq!(prop(&fp, PROP_CUR_DEFENSE), Some(30_000));
    assert_eq!(prop(&fp, PROP_CUR_HP), Some(2_000_000));
}

#[test]
fn finalize_is_idempotent() {
    let mut fp = derived(90);
    let before: Vec<(u64, Scalar)> = fp.0.entries.clone();
    fp.apply_base_values();
    assert_eq!(fp.0.entries, before);
}

#[test]
fn growth_is_deterministic() {
    let a = derived(37);
    let b = derived(37);
    assert_eq!(a.0.entries, b.0.entries);
}

#[test]
fn growth_level_clamps_to_domain() {
    let mut table = GrowCurveTable::new();
    let mut factors = vec![1000 as Scalar; 3];
    factors[0] = 1500;
    factors[2] = 2500;
    assert!(table.add_curve(7, factors));
    assert_eq!(table.factor(7, 0), Some(1500));
    assert_eq!(table.factor(7, 1), Some(1500));
    assert_eq!(table.factor(7, 3), Some(2500));
    assert_eq!(table.factor(7, 99), Some(2500));
    assert_eq!(table.factor(8, 1), None);
    assert!(table.add_curve(9, Vec::new()));
    assert_eq!(table.factor(9, 1), None);
}

#[test]
fn growth_with_unknown_curve_changes_nothing() {
    let cfg = test_config(2);
    let tables = test_tables();
    let mut fp = create_fight_properties_by_monster_config(&cfg);
    let before: Vec<(u64, Scalar)> = fp.0.entries.clone();
    let missing = PropGrowCurve { prop_type: PROP_BASE_HP, grow_curve: 999 };
    fp.apply_grow_curve(90, &missing, GrowCurveConfigType::Monster, &tables);
    assert_eq!(fp.0.entries, before);
}

#[test]
fn curve_scope_routes_to_its_family() {
    let mut tables = GrowCurveTables::new();
    assert!(tables.monster.add_curve(5, vec![2000]));
    assert!(tables.avatar.add_curve(5, vec![4000]));
    let cfg = MonsterExcelConfig {
        prop_grow_curves: vec![PropGrowCurve { prop_type: PROP_BASE_HP, grow_curve: 5 }],
        ..test_config(3)
    };
    let mut fp = create_fight_properties_by_monster_config(&cfg);
    fp.apply_grow_curve(
        1,
        &cfg.prop_grow_curves[0],
        GrowCurveConfigType::Monster,
        &tables,
    );
    assert_eq!(prop(&fp, PROP_BASE_HP), Some(2_000_000));
}

#[test]
fn scaled_truncates_and_saturates() {
    assert_eq!(scaled(1_000_000, 2000), 2_000_000);
    assert_eq!(scaled(3, 500), 1);
    assert_eq!(scaled(1_000_000_000_000, 1_000_000), 1_000_000_000_000);
}

#[test]
fn config_collection_lookup_by_id() {
    let mut configs = MonsterConfigCollection::new();
    assert!(configs.add(test_config(20010101)));
    assert!(configs.get(20010101).is_some());
    assert!(configs.get(20010102).is_none());
    let bad = MonsterExcelConfig { hp_base: -5, ..test_config(7) };
    assert!(!configs.add(bad));
    assert!(configs.get(7).is_none());
}

#[test]
fn curve_with_factor_out_of_range_is_rejected() {
    let mut table = GrowCurveTable::new();
    assert!(!table.add_curve(1, vec![-1]));
    assert!(!table.add_curve(1, vec![1_000_001]));
    assert_eq!(table.factor(1, 1), None);
}

#[test]
fn parse_digits() {
    assert_eq!(parse_u32_digits(&b"20010101".to_vec()), Some(20010101));
    assert_eq!(parse_u32_digits(&b"0".to_vec()), Some(0));
    assert_eq!(parse_u32_digits(&b"4294967295".to_vec()), Some(u32::MAX));
    assert_eq!(parse_u32_digits(&b"4294967296".to_vec()), None);
    assert_eq!(parse_u32_digits(&b"".to_vec()), None);
    assert_eq!(parse_u32_digits(&b"12a".to_vec()), None);
    assert_eq!(parse_u32_digits(&b"99999999999999999999999".to_vec()), None);
}

#[test]
fn entity_counter_is_strictly_increasing() {
    let mut c = EntityCounter::new();
    let a = c.next();
    let b = c.next();
    let d = c.next();
    assert_eq!((a, b, d), (1, 2, 3));
    assert!(a < b && b < d);
}

#[test]
fn protocol_entity_id_packs_type_tag() {
    let id = to_protocol_entity_id(ProtEntityType::Monster, 1);
    assert_eq!(id.0, 2 * 0x100_0000 + 1);
    let id = to_protocol_entity_id(ProtEntityType::Avatar, 7);
    assert_eq!(id.0, 0x100_0000 + 7);
}

#[test]
fn uid_sits_in_guid_high_bits() {
    let guid = (5u64 << 32) | 7;
    assert_eq!(uid_of_guid(guid), 5);
}

#[test]
fn idmap_set_and_get() {
    let mut m: IdMap<u32> = IdMap::new();
    m.set(3, 30);
    m.set(1, 10);
    m.set(3, 31);
    assert_eq!(m.len(), 2);
    assert_eq!(m.get(3), Some(&31));
    assert_eq!(m.get(1), Some(&10));
    assert_eq!(m.get(2), None);
    assert_eq!(m.entries, vec![(3, 31), (1, 10)]);
    let d = m.duplicate();
    assert_eq!(d.entries, m.entries);
}
