use crate::common::{Level, LifeState, ProtocolEntityID};
use crate::props::FightProperties;
use crate::transform::Transform;
use vstd::prelude::*;

verus! {

/// Type-specific numeric id of a monster kind.
#[derive(Clone, Copy, PartialEq, Eq, Structural)]
pub struct MonsterID(pub u32);

/// The complete component set of a monster actor, inserted in one step.
pub struct MonsterBundle {
    pub monster_id: MonsterID,
    pub entity_id: ProtocolEntityID,
    pub level: Level,
    pub transform: Transform,
    pub fight_properties: FightProperties,
    pub life_state: LifeState,
}

impl MonsterBundle {
    pub open spec fn wf(&self) -> bool {
        self.fight_properties.wf()
    }
}

} // verus!
