use crate::common::{
    factor_in_range, value_in_range, GrowCurveConfigType, Scalar, FACTOR_BOUND, SCALAR_UNIT,
    VALUE_BOUND,
};
use crate::config::MonsterExcelConfig;
use crate::growth::{GrowCurveTables, PropGrowCurve};
use crate::idmap::{seq_has_key, seq_index_of, seq_keys_unique, seq_value_of, IdMap};
use vstd::prelude::*;

verus! {

pub const PROP_BASE_HP: u64 = 1;

pub const PROP_BASE_ATTACK: u64 = 4;

pub const PROP_BASE_DEFENSE: u64 = 7;

pub const PROP_CRITICAL: u64 = 20;

pub const PROP_ANTI_CRITICAL: u64 = 21;

pub const PROP_CRITICAL_HURT: u64 = 22;

pub const PROP_ELEMENT_MASTERY: u64 = 28;

pub const PROP_PHYSICAL_SUB_HURT: u64 = 29;

pub const PROP_PHYSICAL_ADD_HURT: u64 = 30;

pub const PROP_FIRE_ADD_HURT: u64 = 40;

pub const PROP_ELEC_ADD_HURT: u64 = 41;

pub const PROP_WATER_ADD_HURT: u64 = 42;

pub const PROP_GRASS_ADD_HURT: u64 = 43;

pub const PROP_WIND_ADD_HURT: u64 = 44;

pub const PROP_ROCK_ADD_HURT: u64 = 45;

pub const PROP_ICE_ADD_HURT: u64 = 46;

pub const PROP_FIRE_SUB_HURT: u64 = 50;

pub const PROP_ELEC_SUB_HURT: u64 = 51;

pub const PROP_WATER_SUB_HURT: u64 = 52;

pub const PROP_GRASS_SUB_HURT: u64 = 53;

pub const PROP_WIND_SUB_HURT: u64 = 54;

pub const PROP_ROCK_SUB_HURT: u64 = 55;

pub const PROP_ICE_SUB_HURT: u64 = 56;

pub const PROP_CUR_HP: u64 = 1010;

pub const PROP_MAX_HP: u64 = 2000;

pub const PROP_CUR_ATTACK: u64 = 2001;

pub const PROP_CUR_DEFENSE: u64 = 2002;

pub const PROP_LEVEL: u64 = 4001;

pub const PROP_BREAK_LEVEL: u64 = 4002;

/// The fight-properties component: property-type enumerant to scalar value.
/// A property not meaningful for the actor's kind, or not yet populated, is
/// absent, not zero.
pub struct FightProperties(pub IdMap<Scalar>);

/// A base value scaled by a growth factor (in thousandths), the product
/// saturating at the value bound.
pub open spec fn spec_scaled(v: Scalar, f: Scalar) -> Scalar
    recommends
        value_in_range(v),
        factor_in_range(f),
{
    if (v * f) / (SCALAR_UNIT as int) > VALUE_BOUND {
        VALUE_BOUND
    } else {
        ((v * f) / (SCALAR_UNIT as int)) as Scalar
    }
}

/// Scale `v` by the factor `f`; exactly `spec_scaled`.
pub fn scaled(v: Scalar, f: Scalar) -> (r: Scalar)
    requires
        value_in_range(v),
        factor_in_range(f),
    ensures
        r == spec_scaled(v, f),
        value_in_range(r),
{
    proof {
        assert(v * f <= VALUE_BOUND * FACTOR_BOUND) by (nonlinear_arith)
            requires
                0 <= v <= VALUE_BOUND,
                0 <= f <= FACTOR_BOUND,
        ;
        assert(0 <= v * f) by (nonlinear_arith)
            requires
                0 <= v,
                0 <= f,
        ;
    }
    let prod: u64 = (v as u64) * (f as u64);
    let q: u64 = prod / 1000;
    if q > (VALUE_BOUND as u64) {
        VALUE_BOUND
    } else {
        q as Scalar
    }
}

/// One growth application at the entry-sequence level: when the routed table
/// yields a factor and the property is present, the property is replaced in
/// place by its scaled value; otherwise the map is unchanged.
pub open spec fn spec_grown(
    s: Seq<(u64, Scalar)>,
    level: u32,
    grow_curve: PropGrowCurve,
    config_type: GrowCurveConfigType,
    tables: GrowCurveTables,
) -> Seq<(u64, Scalar)> {
    match tables.spec_table_for(config_type).spec_factor(grow_curve.grow_curve, level) {
        None => s,
        Some(f) => if seq_has_key(s, grow_curve.prop_type) {
            s.update(
                seq_index_of(s, grow_curve.prop_type),
                (grow_curve.prop_type, spec_scaled(seq_value_of(s, grow_curve.prop_type), f)),
            )
        } else {
            s
        },
    }
}

/// All growth references of a config applied in order.
pub open spec fn spec_grown_all(
    s: Seq<(u64, Scalar)>,
    level: u32,
    refs: Seq<PropGrowCurve>,
    config_type: GrowCurveConfigType,
    tables: GrowCurveTables,
) -> Seq<(u64, Scalar)>
    decreases refs.len(),
{
    if refs.len() == 0 {
        s
    } else {
        spec_grown(
            spec_grown_all(s, level, refs.drop_last(), config_type, tables),
            level,
            refs.last(),
            config_type,
            tables,
        )
    }
}

/// One finalization step: when `target` is absent and `source` present, the
/// target is appended with the source's verbatim value.
pub open spec fn spec_fill_one(s: Seq<(u64, Scalar)>, target: u64, source: u64) -> Seq<
    (u64, Scalar),
> {
    if !seq_has_key(s, target) && seq_has_key(s, source) {
        s.push((target, seq_value_of(s, source)))
    } else {
        s
    }
}

/// Finalization: every derived total not yet populated is filled with its
/// base value, verbatim, in a fixed order.
pub open spec fn spec_base_values_filled(s: Seq<(u64, Scalar)>) -> Seq<(u64, Scalar)> {
    spec_fill_one(
        spec_fill_one(
            spec_fill_one(
                spec_fill_one(s, PROP_MAX_HP, PROP_BASE_HP),
                PROP_CUR_ATTACK,
                PROP_BASE_ATTACK,
            ),
            PROP_CUR_DEFENSE,
            PROP_BASE_DEFENSE,
        ),
        PROP_CUR_HP,
        PROP_MAX_HP,
    )
}

/// The property entries a monster config projects one-to-one, no scaling.
pub open spec fn spec_baseline(cfg: MonsterExcelConfig) -> Seq<(u64, Scalar)> {
    seq![
        (PROP_BASE_HP, cfg.hp_base),
        (PROP_BASE_ATTACK, cfg.attack_base),
        (PROP_BASE_DEFENSE, cfg.defense_base),
        (PROP_CRITICAL, cfg.critical),
        (PROP_ANTI_CRITICAL, cfg.anti_critical),
        (PROP_CRITICAL_HURT, cfg.critical_hurt),
        (PROP_ELEMENT_MASTERY, cfg.element_mastery),
        (PROP_PHYSICAL_SUB_HURT, cfg.physical_sub_hurt),
        (PROP_PHYSICAL_ADD_HURT, cfg.physical_add_hurt),
        (PROP_FIRE_ADD_HURT, cfg.fire_add_hurt),
        (PROP_ELEC_ADD_HURT, cfg.elec_add_hurt),
        (PROP_WATER_ADD_HURT, cfg.water_add_hurt),
        (PROP_GRASS_ADD_HURT, cfg.grass_add_hurt),
        (PROP_WIND_ADD_HURT, cfg.wind_add_hurt),
        (PROP_ROCK_ADD_HURT, cfg.rock_add_hurt),
        (PROP_ICE_ADD_HURT, cfg.ice_add_hurt),
        (PROP_FIRE_SUB_HURT, cfg.fire_sub_hurt),
        (PROP_ELEC_SUB_HURT, cfg.elec_sub_hurt),
        (PROP_WATER_SUB_HURT, cfg.water_sub_hurt),
        (PROP_GRASS_SUB_HURT, cfg.grass_sub_hurt),
        (PROP_WIND_SUB_HURT, cfg.wind_sub_hurt),
        (PROP_ROCK_SUB_HURT, cfg.rock_sub_hurt),
        (PROP_ICE_SUB_HURT, cfg.ice_sub_hurt),
    ]
}

impl FightProperties {
    /// Well-formed: unique property types, every value in range.
    pub open spec fn wf(&self) -> bool {
        &&& self.0.wf()
        &&& forall|i: int|
            0 <= i < self.0.entries@.len() ==> value_in_range(
                (#[trigger] self.0.entries@[i]).1,
            )
    }

    /// The map holds property `k`.
    pub open spec fn has_prop(&self, k: u64) -> bool {
        self.0.has_key(k)
    }

    /// Value of property `k`; meaningful only when `has_prop(k)`.
    pub open spec fn prop_value(&self, k: u64) -> Scalar {
        self.0.value_of(k)
    }

    pub fn new() -> (r: Self)
        ensures
            r.wf(),
            r.0.entries@.len() == 0,
    {
        FightProperties(IdMap::new())
    }

    /// Read property `k`; `None` exactly when it is absent.
    pub fn get_prop(&self, k: u64) -> (r: Option<Scalar>)
        requires
            self.wf(),
        ensures
            (match r {
                Some(v) => self.has_prop(k) && v == self.prop_value(k) && value_in_range(v),
                None => !self.has_prop(k),
            }),
    {
        let r = self.0.get(k);
        proof {
            if self.0.has_key(k) {
                let w = self.0.index_of(k);
                assert(value_in_range(self.0.entries@[w].1));
            }
        }
        match r {
            Some(v) => Some(*v),
            None => None,
        }
    }

    /// Set property `k` to `v`, replacing it in place when present and
    /// appending it otherwise.
    pub fn set_prop(&mut self, k: u64, v: Scalar)
        requires
            old(self).wf(),
            value_in_range(v),
        ensures
            final(self).wf(),
            old(self).has_prop(k) ==> final(self).0.entries@ == old(self).0.entries@.update(
                seq_index_of(old(self).0.entries@, k),
                (k, v),
            ),
            !old(self).has_prop(k) ==> final(self).0.entries@ == old(self).0.entries@.push(
                (k, v),
            ),
            final(self).has_prop(k),
            final(self).prop_value(k) == v,
    {
        let ghost orig = self.0.entries@;
        self.0.set(k, v);
        proof {
            assert forall|i: int|
                0 <= i < self.0.entries@.len() implies value_in_range(
                (#[trigger] self.0.entries@[i]).1,
            ) by {
                if seq_has_key(orig, k) {
                    let w = seq_index_of(orig, k);
                    if i == w {
                    } else {
                        assert(self.0.entries@[i] == orig[i]);
                        assert(value_in_range(orig[i].1));
                    }
                } else {
                    if i == orig.len() {
                    } else {
                        assert(self.0.entries@[i] == orig[i]);
                        assert(value_in_range(orig[i].1));
                    }
                }
            }
        }
    }

    /// Apply one growth-curve reference: look the curve up in the family's
    /// table, read the factor at the clamped level, and scale the referenced
    /// property in place. An unknown or empty curve, or an absent property,
    /// leaves the map unchanged. The result is a function of the property
    /// map, the curve reference, the tables and the level alone.
    pub fn apply_grow_curve(
        &mut self,
        level: u32,
        grow_curve: &PropGrowCurve,
        config_type: GrowCurveConfigType,
        tables: &GrowCurveTables,
    )
        requires
            old(self).wf(),
            tables.wf(),
        ensures
            final(self).wf(),
            final(self).0.entries@ == spec_grown(
                old(self).0.entries@,
                level,
                *grow_curve,
                config_type,
                *tables,
            ),
    {
        let table = tables.table_for(config_type);
        proof {
            assert(table.wf());
        }
        match table.factor(grow_curve.grow_curve, level) {
            None => {},
            Some(f) => {
                match self.get_prop(grow_curve.prop_type) {
                    None => {},
                    Some(v) => {
                        let s = scaled(v, f);
                        self.set_prop(grow_curve.prop_type, s);
                    },
                }
            },
        }
    }

    /// One finalization step, executably.
    fn fill_prop(&mut self, target: u64, source: u64)
        requires
            old(self).wf(),
        ensures
            final(self).wf(),
            final(self).0.entries@ == spec_fill_one(old(self).0.entries@, target, source),
    {
        if !self.0.contains_key(target) {
            match self.get_prop(source) {
                Some(v) => self.set_prop(target, v),
                None => {},
            }
        }
    }

    /// Finalize the map: fill every derived total not populated by baseline
    /// or growth with its verbatim base value. Afterwards the map is total
    /// over the recognized derived properties whose bases are present.
    pub fn apply_base_values(&mut self)
        requires
            old(self).wf(),
        ensures
            final(self).wf(),
            final(self).0.entries@ == spec_base_values_filled(old(self).0.entries@),
    {
        self.fill_prop(PROP_MAX_HP, PROP_BASE_HP);
        self.fill_prop(PROP_CUR_ATTACK, PROP_BASE_ATTACK);
        self.fill_prop(PROP_CUR_DEFENSE, PROP_BASE_DEFENSE);
        self.fill_prop(PROP_CUR_HP, PROP_MAX_HP);
    }
}

/// Project the fixed base fields of a monster config into a fresh property
/// map, one-to-one, no scaling.
pub fn create_fight_properties_by_monster_config(config: &MonsterExcelConfig) -> (r:
    FightProperties)
    requires
        config.wf(),
    ensures
        r.wf(),
        r.0.entries@ == spec_baseline(*config),
{
    let entries: Vec<(u64, Scalar)> = vec![
        (PROP_BASE_HP, config.hp_base),
        (PROP_BASE_ATTACK, config.attack_base),
        (PROP_BASE_DEFENSE, config.defense_base),
        (PROP_CRITICAL, config.critical),
        (PROP_ANTI_CRITICAL, config.anti_critical),
        (PROP_CRITICAL_HURT, config.critical_hurt),
        (PROP_ELEMENT_MASTERY, config.element_mastery),
        (PROP_PHYSICAL_SUB_HURT, config.physical_sub_hurt),
        (PROP_PHYSICAL_ADD_HURT, config.physical_add_hurt),
        (PROP_FIRE_ADD_HURT, config.fire_add_hurt),
        (PROP_ELEC_ADD_HURT, config.elec_add_hurt),
        (PROP_WATER_ADD_HURT, config.water_add_hurt),
        (PROP_GRASS_ADD_HURT, config.grass_add_hurt),
        (PROP_WIND_ADD_HURT, config.wind_add_hurt),
        (PROP_ROCK_ADD_HURT, config.rock_add_hurt),
        (PROP_ICE_ADD_HURT, config.ice_add_hurt),
        (PROP_FIRE_SUB_HURT, config.fire_sub_hurt),
        (PROP_ELEC_SUB_HURT, config.elec_sub_hurt),
        (PROP_WATER_SUB_HURT, config.water_sub_hurt),
        (PROP_GRASS_SUB_HURT, config.grass_sub_hurt),
        (PROP_WIND_SUB_HURT, config.wind_sub_hurt),
        (PROP_ROCK_SUB_HURT, config.rock_sub_hurt),
        (PROP_ICE_SUB_HURT, config.ice_sub_hurt),
    ];
    proof {
        assert(entries@ == spec_baseline(*config));
        assert(seq_keys_unique(entries@));
        assert forall|i: int|
            0 <= i < entries@.len() implies value_in_range((#[trigger] entries@[i]).1) by {}
    }
    FightProperties(IdMap { entries })
}

/// At which keys a fill step changes membership: only its target, and only
/// when the target was absent and the source present.
pub proof fn lemma_fill_one_has(s: Seq<(u64, Scalar)>, target: u64, source: u64, k: u64)
    ensures
        seq_has_key(spec_fill_one(s, target, source), k) <==> (seq_has_key(s, k) || (k == target
            && !seq_has_key(s, target) && seq_has_key(s, source))),
{
    if !seq_has_key(s, target) && seq_has_key(s, source) {
        crate::idmap::lemma_seq_has_key_push(s, (target, seq_value_of(s, source)), k);
    }
}

/// Finalization is idempotent: a second `apply_base_values` on an already
/// finalized map changes nothing.
pub proof fn lemma_base_values_filled_idempotent(s: Seq<(u64, Scalar)>)
    ensures
        spec_base_values_filled(spec_base_values_filled(s)) == spec_base_values_filled(s),
{
    let s1 = spec_fill_one(s, PROP_MAX_HP, PROP_BASE_HP);
    let s2 = spec_fill_one(s1, PROP_CUR_ATTACK, PROP_BASE_ATTACK);
    let s3 = spec_fill_one(s2, PROP_CUR_DEFENSE, PROP_BASE_DEFENSE);
    let s4 = spec_fill_one(s3, PROP_CUR_HP, PROP_MAX_HP);
    lemma_fill_one_has(s, PROP_MAX_HP, PROP_BASE_HP, PROP_MAX_HP);
    lemma_fill_one_has(s, PROP_MAX_HP, PROP_BASE_HP, PROP_BASE_HP);
    lemma_fill_one_has(s1, PROP_CUR_ATTACK, PROP_BASE_ATTACK, PROP_MAX_HP);
    lemma_fill_one_has(s1, PROP_CUR_ATTACK, PROP_BASE_ATTACK, PROP_BASE_HP);
    lemma_fill_one_has(s1, PROP_CUR_ATTACK, PROP_BASE_ATTACK, PROP_CUR_ATTACK);
    lemma_fill_one_has(s1, PROP_CUR_ATTACK, PROP_BASE_ATTACK, PROP_BASE_ATTACK);
    lemma_fill_one_has(s2, PROP_CUR_DEFENSE, PROP_BASE_DEFENSE, PROP_MAX_HP);
    lemma_fill_one_has(s2, PROP_CUR_DEFENSE, PROP_BASE_DEFENSE, PROP_BASE_HP);
    lemma_fill_one_has(s2, PROP_CUR_DEFENSE, PROP_BASE_DEFENSE, PROP_CUR_ATTACK);
    lemma_fill_one_has(s2, PROP_CUR_DEFENSE, PROP_BASE_DEFENSE, PROP_BASE_ATTACK);
    lemma_fill_one_has(s2, PROP_CUR_DEFENSE, PROP_BASE_DEFENSE, PROP_CUR_DEFENSE);
    lemma_fill_one_has(s2, PROP_CUR_DEFENSE, PROP_BASE_DEFENSE, PROP_BASE_DEFENSE);
    lemma_fill_one_has(s3, PROP_CUR_HP, PROP_MAX_HP, PROP_MAX_HP);
    lemma_fill_one_has(s3, PROP_CUR_HP, PROP_MAX_HP, PROP_BASE_HP);
    lemma_fill_one_has(s3, PROP_CUR_HP, PROP_MAX_HP, PROP_CUR_ATTACK);
    lemma_fill_one_has(s3, PROP_CUR_HP, PROP_MAX_HP, PROP_BASE_ATTACK);
    lemma_fill_one_has(s3, PROP_CUR_HP, PROP_MAX_HP, PROP_CUR_DEFENSE);
    lemma_fill_one_has(s3, PROP_CUR_HP, PROP_MAX_HP, PROP_BASE_DEFENSE);
    lemma_fill_one_has(s3, PROP_CUR_HP, PROP_MAX_HP, PROP_CUR_HP);
    let t1 = spec_fill_one(s4, PROP_MAX_HP, PROP_BASE_HP);
    assert(t1 == s4);
    let t2 = spec_fill_one(t1, PROP_CUR_ATTACK, PROP_BASE_ATTACK);
    assert(t2 == s4);
    let t3 = spec_fill_one(t2, PROP_CUR_DEFENSE, PROP_BASE_DEFENSE);
    assert(t3 == s4);
    let t4 = spec_fill_one(t3, PROP_CUR_HP, PROP_MAX_HP);
    assert(t4 == s4);
}

} // verus!
