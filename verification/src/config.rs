use crate::common::{value_in_range, Scalar};
use crate::growth::PropGrowCurve;
use crate::idmap::IdMap;
use vstd::prelude::*;

verus! {

/// A staged hit-point drop attached to a monster config.
pub struct HpDropConfig {
    pub drop_id: u32,
    pub hp_percent: Scalar,
}

/// Static, read-only configuration record of a monster kind: base combat
/// stats, resistance and bonus percentages, and the ordered list of
/// growth-curve references that scale them per level.
pub struct MonsterExcelConfig {
    pub id: u32,
    pub hp_base: Scalar,
    pub attack_base: Scalar,
    pub defense_base: Scalar,
    pub critical: Scalar,
    pub anti_critical: Scalar,
    pub critical_hurt: Scalar,
    pub element_mastery: Scalar,
    pub fire_sub_hurt: Scalar,
    pub grass_sub_hurt: Scalar,
    pub water_sub_hurt: Scalar,
    pub elec_sub_hurt: Scalar,
    pub wind_sub_hurt: Scalar,
    pub ice_sub_hurt: Scalar,
    pub rock_sub_hurt: Scalar,
    pub physical_sub_hurt: Scalar,
    pub fire_add_hurt: Scalar,
    pub grass_add_hurt: Scalar,
    pub water_add_hurt: Scalar,
    pub elec_add_hurt: Scalar,
    pub wind_add_hurt: Scalar,
    pub ice_add_hurt: Scalar,
    pub rock_add_hurt: Scalar,
    pub physical_add_hurt: Scalar,
    pub prop_grow_curves: Vec<PropGrowCurve>,
    pub hp_drops: Vec<HpDropConfig>,
    pub kill_drop_id: u32,
}

impl MonsterExcelConfig {
    /// Every stat field carries an acceptable value.
    pub open spec fn wf(&self) -> bool {
        &&& value_in_range(self.hp_base)
        &&& value_in_range(self.attack_base)
        &&& value_in_range(self.defense_base)
        &&& value_in_range(self.critical)
        &&& value_in_range(self.anti_critical)
        &&& value_in_range(self.critical_hurt)
        &&& value_in_range(self.element_mastery)
        &&& value_in_range(self.fire_sub_hurt)
        &&& value_in_range(self.grass_sub_hurt)
        &&& value_in_range(self.water_sub_hurt)
        &&& value_in_range(self.elec_sub_hurt)
        &&& value_in_range(self.wind_sub_hurt)
        &&& value_in_range(self.ice_sub_hurt)
        &&& value_in_range(self.rock_sub_hurt)
        &&& value_in_range(self.physical_sub_hurt)
        &&& value_in_range(self.fire_add_hurt)
        &&& value_in_range(self.grass_add_hurt)
        &&& value_in_range(self.water_add_hurt)
        &&& value_in_range(self.elec_add_hurt)
        &&& value_in_range(self.wind_add_hurt)
        &&& value_in_range(self.ice_add_hurt)
        &&& value_in_range(self.rock_add_hurt)
        &&& value_in_range(self.physical_add_hurt)
    }

    /// Check `wf` executably.
    pub fn valid(&self) -> (r: bool)
        ensures
            r == self.wf(),
    {
        let b = crate::common::VALUE_BOUND;
        0 <= self.hp_base && self.hp_base <= b && 0 <= self.attack_base && self.attack_base <= b
            && 0 <= self.defense_base && self.defense_base <= b && 0 <= self.critical
            && self.critical <= b && 0 <= self.anti_critical && self.anti_critical <= b && 0
            <= self.critical_hurt && self.critical_hurt <= b && 0 <= self.element_mastery
            && self.element_mastery <= b && 0 <= self.fire_sub_hurt && self.fire_sub_hurt <= b && 0
            <= self.grass_sub_hurt && self.grass_sub_hurt <= b && 0 <= self.water_sub_hurt
            && self.water_sub_hurt <= b && 0 <= self.elec_sub_hurt && self.elec_sub_hurt <= b && 0
            <= self.wind_sub_hurt && self.wind_sub_hurt <= b && 0 <= self.ice_sub_hurt
            && self.ice_sub_hurt <= b && 0 <= self.rock_sub_hurt && self.rock_sub_hurt <= b && 0
            <= self.physical_sub_hurt && self.physical_sub_hurt <= b && 0 <= self.fire_add_hurt
            && self.fire_add_hurt <= b && 0 <= self.grass_add_hurt && self.grass_add_hurt <= b && 0
            <= self.water_add_hurt && self.water_add_hurt <= b && 0 <= self.elec_add_hurt
            && self.elec_add_hurt <= b && 0 <= self.wind_add_hurt && self.wind_add_hurt <= b && 0
            <= self.ice_add_hurt && self.ice_add_hurt <= b && 0 <= self.rock_add_hurt
            && self.rock_add_hurt <= b && 0 <= self.physical_add_hurt && self.physical_add_hurt
            <= b
    }
}

/// The id-keyed collection of monster config records, supplied once at
/// startup and read-only afterwards.
pub struct MonsterConfigCollection {
    pub configs: IdMap<MonsterExcelConfig>,
}

impl MonsterConfigCollection {
    pub open spec fn wf(&self) -> bool {
        &&& self.configs.wf()
        &&& forall|i: int|
            0 <= i < self.configs.entries@.len() ==> (#[trigger] self.configs.entries@[i]).1.wf()
                && self.configs.entries@[i].0 == self.configs.entries@[i].1.id as u64
    }

    /// The collection holds a record for `id`.
    pub open spec fn has_config(&self, id: u32) -> bool {
        self.configs.has_key(id as u64)
    }

    /// The record for `id`; meaningful only when `has_config`.
    pub open spec fn config_of(&self, id: u32) -> MonsterExcelConfig {
        self.configs.value_of(id as u64)
    }

    pub fn new() -> (r: Self)
        ensures
            r.wf(),
            r.configs.entries@.len() == 0,
    {
        MonsterConfigCollection { configs: IdMap::new() }
    }

    /// Add or replace a record. A record with a stat out of range is
    /// rejected and leaves the collection unchanged.
    pub fn add(&mut self, config: MonsterExcelConfig) -> (r: bool)
        requires
            old(self).wf(),
        ensures
            final(self).wf(),
            r == config.wf(),
            r && old(self).has_config(config.id) ==> final(self).configs.entries@ == old(
                self,
            ).configs.entries@.update(
                crate::idmap::seq_index_of(old(self).configs.entries@, config.id as u64),
                (config.id as u64, config),
            ),
            r && !old(self).has_config(config.id) ==> final(self).configs.entries@ == old(
                self,
            ).configs.entries@.push((config.id as u64, config)),
            r ==> final(self).has_config(config.id) && final(self).config_of(config.id) == config,
            !r ==> *final(self) == *old(self),
    {
        if !config.valid() {
            return false;
        }
        let key = config.id as u64;
        let ghost orig = self.configs.entries@;
        let ghost cfg = config;
        self.configs.set(key, config);
        proof {
            assert forall|k: int|
                0 <= k < self.configs.entries@.len() implies (#[trigger] self.configs.entries@[k]).1.wf()
                && self.configs.entries@[k].0 == self.configs.entries@[k].1.id as u64 by {
                if crate::idmap::seq_has_key(orig, key) {
                    let w = crate::idmap::seq_index_of(orig, key);
                    if k == w {
                        assert(self.configs.entries@[k] == (key, cfg));
                    } else {
                        assert(self.configs.entries@[k] == orig[k]);
                        assert(orig[k].1.wf() && orig[k].0 == orig[k].1.id as u64);
                    }
                } else {
                    if k == orig.len() {
                        assert(self.configs.entries@[k] == (key, cfg));
                    } else {
                        assert(self.configs.entries@[k] == orig[k]);
                        assert(orig[k].1.wf() && orig[k].0 == orig[k].1.id as u64);
                    }
                }
            }
        }
        true
    }

    /// Id-equality lookup; `None` exactly when no record carries `id`.
    pub fn get(&self, id: u32) -> (r: Option<&MonsterExcelConfig>)
        requires
            self.wf(),
        ensures
            (match r {
                Some(cfg) => self.has_config(id) && *cfg == self.config_of(id) && cfg.wf(),
                None => !self.has_config(id),
            }),
    {
        let r = self.configs.get(id as u64);
        proof {
            if self.configs.has_key(id as u64) {
                let w = self.configs.index_of(id as u64);
                assert(self.configs.entries@[w].1.wf());
            }
        }
        r
    }
}

} // verus!
