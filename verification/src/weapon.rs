use crate::common::{Guid, Level, ProtocolEntityID};
use crate::idmap::IdMap;
use vstd::prelude::*;

verus! {

/// Type-specific numeric id of a weapon kind.
#[derive(Clone, Copy, PartialEq, Eq, Structural)]
pub struct WeaponID(pub u32);

/// Gadget id under which a weapon is rendered.
#[derive(Clone, Copy, PartialEq, Eq, Structural)]
pub struct GadgetID(pub u32);

/// Promotion tier of a weapon.
#[derive(Clone, Copy, PartialEq, Eq, Structural)]
pub struct PromoteLevel(pub u32);

/// Affix id to affix level of a weapon.
pub struct AffixMap(pub IdMap<u32>);

/// The complete component set of a weapon actor, inserted in one step.
pub struct WeaponBundle {
    pub weapon_id: WeaponID,
    pub guid: Guid,
    pub entity_id: ProtocolEntityID,
    pub gadget_id: GadgetID,
    pub level: Level,
    pub promote_level: PromoteLevel,
    pub affix_map: AffixMap,
}

impl WeaponBundle {
    pub open spec fn wf(&self) -> bool {
        self.affix_map.0.wf()
    }
}

} // verus!
