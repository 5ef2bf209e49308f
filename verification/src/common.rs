use vstd::prelude::*;

verus! {

/// Fixed-point scalar: a count of thousandths of one game unit.
pub type Scalar = i64;

/// Number of `Scalar` steps in one game unit.
pub const SCALAR_UNIT: Scalar = 1000;

/// Largest magnitude a stored stat or coordinate value may take.
pub const VALUE_BOUND: Scalar = 1_000_000_000_000;

/// Largest growth-curve factor, in thousandths (a thousandfold scaling).
pub const FACTOR_BOUND: Scalar = 1_000_000;

/// A stat or coordinate value the library accepts: non-negative and bounded.
pub open spec fn value_in_range(v: Scalar) -> bool {
    0 <= v <= VALUE_BOUND
}

/// A coordinate the library accepts: bounded in magnitude.
pub open spec fn coord_in_range(v: Scalar) -> bool {
    -VALUE_BOUND <= v <= VALUE_BOUND
}

/// A growth factor the library accepts: non-negative and bounded.
pub open spec fn factor_in_range(f: Scalar) -> bool {
    0 <= f <= FACTOR_BOUND
}

/// Protocol-visible entity id of a live actor.
#[derive(Clone, Copy, PartialEq, Eq, Structural)]
pub struct ProtocolEntityID(pub u32);

/// Process-wide, scene-independent 64-bit identifier of a persisted actor.
#[derive(Clone, Copy, PartialEq, Eq, Structural)]
pub struct Guid(pub u64);

/// Progression level.
#[derive(Clone, Copy, PartialEq, Eq, Structural)]
pub struct Level(pub u32);

/// Secondary progression tier.
#[derive(Clone, Copy, PartialEq, Eq, Structural)]
pub struct BreakLevel(pub u32);

/// Uid of the player that owns an actor.
#[derive(Clone, Copy, PartialEq, Eq, Structural)]
pub struct OwnerPlayerUID(pub u32);

/// Life-state of a live actor.
#[derive(Clone, Copy, Debug, PartialEq, Eq, Structural)]
pub enum LifeState {
    LifeNone,
    LifeAlive,
    LifeDead,
    LifeRevive,
}

impl LifeState {
    /// Wire code of the life state.
    pub open spec fn spec_code(self) -> u32 {
        match self {
            LifeState::LifeNone => 0,
            LifeState::LifeAlive => 1,
            LifeState::LifeDead => 2,
            LifeState::LifeRevive => 3,
        }
    }

    #[verifier::when_used_as_spec(spec_code)]
    pub fn code(self) -> (r: u32)
        ensures
            r == self.spec_code(),
    {
        match self {
            LifeState::LifeNone => 0,
            LifeState::LifeAlive => 1,
            LifeState::LifeDead => 2,
            LifeState::LifeRevive => 3,
        }
    }
}

impl Default for LifeState {
    /// A fresh actor starts alive.
    fn default() -> (r: Self)
        ensures
            r == LifeState::LifeAlive,
    {
        LifeState::LifeAlive
    }
}

/// Actor-type tag of a protocol entity id.
#[derive(Clone, Copy, Debug, PartialEq, Eq, Structural)]
pub enum ProtEntityType {
    Avatar,
    Monster,
    Gadget,
    Weapon,
}

impl ProtEntityType {
    /// Wire code of the type tag.
    pub open spec fn spec_tag(self) -> u32 {
        match self {
            ProtEntityType::Avatar => 1,
            ProtEntityType::Monster => 2,
            ProtEntityType::Gadget => 4,
            ProtEntityType::Weapon => 6,
        }
    }

    #[verifier::when_used_as_spec(spec_tag)]
    pub fn tag(self) -> (r: u32)
        ensures
            r == self.spec_tag(),
    {
        match self {
            ProtEntityType::Avatar => 1,
            ProtEntityType::Monster => 2,
            ProtEntityType::Gadget => 4,
            ProtEntityType::Weapon => 6,
        }
    }
}

/// Largest per-type counter value a protocol entity id can carry.
pub const ENTITY_NUMBER_BOUND: u32 = 0x1000000;

/// A protocol entity id packs the actor-type tag above the per-type number.
pub open spec fn spec_protocol_entity_id(entity_type: ProtEntityType, number: u32) -> int {
    entity_type.spec_tag() * ENTITY_NUMBER_BOUND + number
}

/// Combine an actor-type tag and a per-type counter number into the
/// protocol-visible entity id.
pub fn to_protocol_entity_id(entity_type: ProtEntityType, number: u32) -> (r: ProtocolEntityID)
    requires
        number < ENTITY_NUMBER_BOUND,
    ensures
        r.0 == spec_protocol_entity_id(entity_type, number),
{
    ProtocolEntityID(entity_type.tag() * ENTITY_NUMBER_BOUND + number)
}

/// Owning player uid packed in the upper 32 bits of a persisted guid.
pub open spec fn spec_uid_of_guid(guid: u64) -> int {
    guid as int / 0x1_0000_0000
}

/// Extract the owning player's uid from the upper 32 bits of a guid.
pub fn uid_of_guid(guid: u64) -> (r: u32)
    ensures
        r == spec_uid_of_guid(guid),
{
    (guid / 0x1_0000_0000) as u32
}

/// Scope tag routing a growth-curve identifier to the table of its actor
/// family: monster and avatar curves share an identifier namespace but are
/// distinct tables.
#[derive(Clone, Copy, PartialEq, Eq, Structural)]
pub enum GrowCurveConfigType {
    Monster,
    Avatar,
}

} // verus!
