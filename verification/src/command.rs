use crate::common::{
    GrowCurveConfigType, LifeState, Scalar, ENTITY_NUMBER_BOUND, spec_protocol_entity_id,
    to_protocol_entity_id, ProtEntityType,
};
use crate::config::{MonsterConfigCollection, MonsterExcelConfig};
use crate::growth::GrowCurveTables;
use crate::monster::{MonsterBundle, MonsterID};
use crate::persistence::Players;
use crate::props::{
    create_fight_properties_by_monster_config, spec_base_values_filled, spec_baseline,
    spec_grown_all,
};
use crate::store::{ActorComponents, ActorRow, EntityStore, Handle};
use crate::transform::{Transform, Vector3};
use rand::RngCore;
use vstd::prelude::*;

verus! {

/// Level at which an administratively spawned monster's stats are derived.
pub const DEFAULT_MONSTER_LEVEL: u32 = 90;

/// Vertical clearance added above the issuing player's height when placing
/// a spawned monster.
pub const MONSTER_SPAWN_CLEARANCE: Scalar = 10_000;

/// Height a reposition resolves to when none is given or the external
/// resource cannot be read.
pub const DEFAULT_TRAVEL_HEIGHT: Scalar = 2_000_000;

/// The fixed candidate set a spawn target is drawn from when a numeric
/// target fails to parse.
pub open spec fn spec_spawn_candidates() -> Seq<u32> {
    seq![20010101u32, 20010302u32, 20010502u32, 20010803u32, 20011002u32]
}

/// Startup payload store for the scripting shell of the embedding process.
pub struct LuaShellSettings {
    pub startup_payloads: Vec<Vec<u8>>,
}

/// Registration marker under which the embedding tick driver wires the
/// command processor into its schedule.
pub struct CommandPlugin;

/// Alternate target of a reposition command: explicit coordinates, or a
/// textual key naming an external payload resource.
pub enum QuickTravelTarget {
    Coordinates { x: Scalar, y: Option<Scalar>, z: Scalar },
    Resource { key: Vec<u8> },
}

/// An administrative command.
pub enum CommandKind {
    SpawnMonster { monster_id: Option<Vec<u8>>, position: (Scalar, Scalar) },
    QuickTravel { target: QuickTravelTarget },
}

/// One issued command, carrying the issuing player's uid.
pub struct DebugCommandEvent {
    pub executor_uid: u32,
    pub kind: CommandKind,
}

/// Ask the scene-membership system to move a player's actor.
#[derive(Clone, Copy, Debug, PartialEq, Eq, Structural)]
pub struct ScenePlayerJumpEvent(pub u32, pub Vector3);

/// Per-type monotonic source of protocol entity id numbers. Issued numbers
/// strictly increase and are never repeated.
pub struct EntityCounter {
    pub current_id: u32,
    pub issued: Ghost<Seq<u32>>,
}

impl EntityCounter {
    /// Issued numbers are strictly increasing and never exceed the current
    /// value.
    pub open spec fn wf(&self) -> bool {
        &&& forall|i: int, j: int|
            0 <= i < j < self.issued@.len() ==> self.issued@[i] < self.issued@[j]
        &&& forall|i: int| 0 <= i < self.issued@.len() ==> #[trigger] self.issued@[i] <= self.current_id
    }

    pub fn new() -> (r: Self)
        ensures
            r.wf(),
            r.current_id == 0,
            r.issued@.len() == 0,
    {
        EntityCounter { current_id: 0, issued: Ghost(Seq::empty()) }
    }

    /// Issue the next number: strictly above everything issued before.
    pub fn next(&mut self) -> (r: u32)
        requires
            old(self).wf(),
            old(self).current_id < u32::MAX,
        ensures
            final(self).wf(),
            r == old(self).current_id + 1,
            final(self).current_id == r,
            final(self).issued@ == old(self).issued@.push(r),
            forall|i: int| 0 <= i < old(self).issued@.len() ==> old(self).issued@[i] < r,
    {
        self.current_id = self.current_id + 1;
        let r = self.current_id;
        proof {
            self.issued@ = self.issued@.push(r);
        }
        r
    }
}

/// Protocol entity ids issued by a counter never repeat: two distinct
/// issues yield distinct numbers, so two actors live at the same time never
/// share an id drawn from the same counter.
pub proof fn lemma_counter_ids_never_repeat(c: EntityCounter, i: int, j: int)
    requires
        c.wf(),
        0 <= i < c.issued@.len(),
        0 <= j < c.issued@.len(),
        i != j,
    ensures
        c.issued@[i] != c.issued@[j],
{
    if i < j {
        assert(c.issued@[i] < c.issued@[j]);
    } else {
        assert(c.issued@[j] < c.issued@[i]);
    }
}

/// A freshly issued number collides with no id packed from an earlier
/// issue of the same counter: while both actors are live, their protocol
/// entity ids differ.
pub proof fn lemma_fresh_entity_id_unique(c: EntityCounter, k: u32)
    requires
        c.wf(),
        c.issued@.contains(k),
        c.current_id < u32::MAX,
    ensures
        spec_protocol_entity_id(ProtEntityType::Monster, (c.current_id + 1) as u32)
            != spec_protocol_entity_id(ProtEntityType::Monster, k),
{
    let i = choose|i: int| 0 <= i < c.issued@.len() && c.issued@[i] == k;
    assert(c.issued@[i] <= c.current_id);
}

/// An ASCII decimal digit.
pub open spec fn spec_is_digit(b: u8) -> bool {
    48 <= b <= 57
}

/// Every byte is an ASCII decimal digit.
pub open spec fn spec_all_digits(s: Seq<u8>) -> bool {
    forall|i: int| 0 <= i < s.len() ==> spec_is_digit(#[trigger] s[i])
}

/// Value of a decimal digit string.
pub open spec fn spec_digits_value(s: Seq<u8>) -> int
    decreases s.len(),
{
    if s.len() == 0 {
        0
    } else {
        spec_digits_value(s.drop_last()) * 10 + (s.last() - 48)
    }
}

/// A numeric target parses exactly when it is a non-empty digit string
/// whose value fits.
pub open spec fn spec_parsed_u32(s: Seq<u8>) -> Option<u32> {
    if s.len() > 0 && spec_all_digits(s) && spec_digits_value(s) <= u32::MAX {
        Some(spec_digits_value(s) as u32)
    } else {
        None
    }
}

/// A digit string's value is non-negative and no prefix exceeds it.
pub proof fn lemma_digits_value_prefix(s: Seq<u8>, i: int)
    requires
        spec_all_digits(s),
        0 <= i <= s.len(),
    ensures
        0 <= spec_digits_value(s.take(i)),
        spec_digits_value(s.take(i)) <= spec_digits_value(s),
    decreases s.len() - i,
{
    if i == s.len() {
        assert(s.take(i) == s);
        lemma_digits_nonneg(s);
    } else {
        lemma_digits_value_prefix(s, i + 1);
        assert(s.take(i + 1).drop_last() == s.take(i));
        assert(spec_is_digit(s[i]));
        assert(spec_digits_value(s.take(i + 1)) == spec_digits_value(s.take(i)) * 10 + (s[i]
            - 48));
        assert(0 <= spec_digits_value(s.take(i))) by {
            lemma_digits_nonneg(s.take(i));
        }
        assert(spec_digits_value(s.take(i)) <= spec_digits_value(s.take(i)) * 10) by (nonlinear_arith)
            requires
                0 <= spec_digits_value(s.take(i)),
        ;
    }
}

/// A digit string's value is non-negative.
pub proof fn lemma_digits_nonneg(s: Seq<u8>)
    requires
        spec_all_digits(s),
    ensures
        0 <= spec_digits_value(s),
    decreases s.len(),
{
    if s.len() > 0 {
        assert(spec_all_digits(s.drop_last())) by {
            assert forall|i: int| 0 <= i < s.drop_last().len() implies spec_is_digit(
                #[trigger] s.drop_last()[i],
            ) by {
                assert(s.drop_last()[i] == s[i]);
            }
        }
        lemma_digits_nonneg(s.drop_last());
        assert(spec_is_digit(s.last()));
        assert(0 <= spec_digits_value(s.drop_last()) * 10) by (nonlinear_arith)
            requires
                0 <= spec_digits_value(s.drop_last()),
        ;
    }
}

/// Whether every byte of the input is an ASCII digit.
pub fn all_digits(s: &Vec<u8>) -> (r: bool)
    ensures
        r == spec_all_digits(s@),
{
    let n = s.len();
    let mut i: usize = 0;
    while i < n
        invariant
            n == s@.len(),
            i <= n,
            forall|j: int| 0 <= j < i ==> spec_is_digit(#[trigger] s@[j]),
        decreases n - i,
    {
        let b = s[i];
        if b < 48 || b > 57 {
            return false;
        }
        i += 1;
    }
    true
}

/// Parse a numeric target; `None` exactly when the input is empty, holds a
/// non-digit, or overflows.
pub fn parse_u32_digits(s: &Vec<u8>) -> (r: Option<u32>)
    ensures
        r == spec_parsed_u32(s@),
{
    let n = s.len();
    if n == 0 {
        return None;
    }
    if !all_digits(s) {
        return None;
    }
    let mut acc: u64 = 0;
    let mut i: usize = 0;
    while i < n
        invariant
            n == s@.len(),
            i <= n,
            spec_all_digits(s@),
            acc == spec_digits_value(s@.take(i as int)),
            acc <= u32::MAX,
        decreases n - i,
    {
        let b = s[i];
        proof {
            assert(spec_is_digit(s@[i as int]));
        }
        let next: u64 = acc * 10 + ((b - 48) as u64);
        proof {
            assert(s@.take(i + 1).drop_last() == s@.take(i as int));
            assert(s@.take(i + 1).last() == s@[i as int]);
            assert(next == spec_digits_value(s@.take(i + 1)));
        }
        if next > 0xFFFF_FFFF {
            proof {
                lemma_digits_value_prefix(s@, i + 1);
                assert(s@.take(n as int) == s@);
                assert(spec_digits_value(s@) > u32::MAX);
            }
            return None;
        }
        acc = next;
        i += 1;
    }
    proof {
        assert(s@.take(n as int) == s@);
    }
    Some(acc as u32)
}

/// Relies on `rand::thread_rng` and `RngCore::next_u32` for a uniformly
/// random draw; nothing is promised of the value.
#[verifier::external_body]
fn draw_random_u32() -> u32 {
    rand::thread_rng().next_u32()
}

/// Pick one id from the fixed candidate set, uniformly at random.
pub fn random_candidate() -> (r: u32)
    ensures
        spec_spawn_candidates().contains(r),
{
    let idx = draw_random_u32() % 5;
    let r: u32 = if idx == 0 {
        20010101
    } else if idx == 1 {
        20010302
    } else if idx == 2 {
        20010502
    } else if idx == 3 {
        20010803
    } else {
        20011002
    };
    proof {
        if idx == 0 {
            assert(spec_spawn_candidates()[0] == r);
        } else if idx == 1 {
            assert(spec_spawn_candidates()[1] == r);
        } else if idx == 2 {
            assert(spec_spawn_candidates()[2] == r);
        } else if idx == 3 {
            assert(spec_spawn_candidates()[3] == r);
        } else {
            assert(spec_spawn_candidates()[4] == r);
        }
    }
    r
}

/// The finalized property entries of a monster config at the default spawn
/// level: baseline, then every growth reference in order, then the base
/// values filled in.
pub open spec fn spec_monster_props(cfg: MonsterExcelConfig, tables: GrowCurveTables) -> Seq<
    (u64, Scalar),
> {
    spec_base_values_filled(
        spec_grown_all(
            spec_baseline(cfg),
            DEFAULT_MONSTER_LEVEL,
            cfg.prop_grow_curves@,
            GrowCurveConfigType::Monster,
            tables,
        ),
    )
}

/// Effect of one resolved spawn on the scene: with a known config and a
/// known issuing player, exactly one visible monster actor is appended,
/// carrying the derived stats and standing at the ground position with its
/// height taken from the player plus the fixed clearance; a lookup miss on
/// either changes nothing.
pub open spec fn spec_spawned(
    pre_store: EntityStore,
    pre_counter: EntityCounter,
    players: Players,
    configs: MonsterConfigCollection,
    tables: GrowCurveTables,
    executor_uid: u32,
    monster_id: u32,
    position: (Scalar, Scalar),
    post_store: EntityStore,
    post_counter: EntityCounter,
) -> bool {
    if configs.has_config(monster_id) && players.has_player(executor_uid) {
        &&& post_counter.current_id == pre_counter.current_id + 1
        &&& post_counter.issued@ == pre_counter.issued@.push((pre_counter.current_id + 1) as u32)
        &&& post_store.slots@.len() == pre_store.slots@.len() + 1
        &&& (forall|t: int|
            0 <= t < pre_store.slots@.len() ==> #[trigger] post_store.slots@[t]
                == pre_store.slots@[t])
        &&& post_store.slots@.last() matches Some(row) && {
            &&& row.visible
            &&& !row.appeared_processed
            &&& !row.pending_removal
            &&& row.components matches ActorComponents::Monster(b) && {
                &&& b.monster_id.0 == monster_id
                &&& b.entity_id.0 == spec_protocol_entity_id(
                    ProtEntityType::Monster,
                    (pre_counter.current_id + 1) as u32,
                )
                &&& b.level.0 == DEFAULT_MONSTER_LEVEL
                &&& b.transform.position == (Vector3 {
                    x: position.0,
                    y: (players.player_of(executor_uid).world_position.position.y
                        + MONSTER_SPAWN_CLEARANCE) as Scalar,
                    z: position.1,
                })
                &&& b.transform.rotation == (Vector3 {
                    x: 0 as Scalar,
                    y: 0 as Scalar,
                    z: 0 as Scalar,
                })
                &&& b.life_state == LifeState::LifeAlive
                &&& b.fight_properties.0.entries@ == spec_monster_props(
                    configs.config_of(monster_id),
                    tables,
                )
            }
        }
    } else {
        post_store == pre_store && post_counter == pre_counter
    }
}

/// Spawn one monster from a resolved numeric target: look the config up,
/// derive its stats at the default level, allocate the next protocol entity
/// id, place it above the issuing player's height, and insert it visible.
/// An unknown config id or issuing player drops the command.
#[verifier::rlimit(80)]
pub fn spawn_monster_with_id(
    store: &mut EntityStore,
    entity_counter: &mut EntityCounter,
    players: &Players,
    configs: &MonsterConfigCollection,
    tables: &GrowCurveTables,
    executor_uid: u32,
    monster_id: u32,
    position: (Scalar, Scalar),
) -> (r: Option<Handle>)
    requires
        configs.wf(),
        tables.wf(),
        players.wf(),
        old(entity_counter).wf(),
        old(entity_counter).current_id + 1 < ENTITY_NUMBER_BOUND,
    ensures
        final(entity_counter).wf(),
        spec_spawned(
            *old(store),
            *old(entity_counter),
            *players,
            *configs,
            *tables,
            executor_uid,
            monster_id,
            position,
            *final(store),
            *final(entity_counter),
        ),
        (r is Some) == (configs.has_config(monster_id) && players.has_player(executor_uid)),
        r matches Some(h) ==> h.index == old(store).slots@.len(),
{
    let config = match configs.get(monster_id) {
        Some(c) => c,
        None => {
            return None;
        },
    };
    let player = match players.get(executor_uid) {
        Some(p) => p,
        None => {
            return None;
        },
    };
    let level = DEFAULT_MONSTER_LEVEL;
    let mut fight_properties = create_fight_properties_by_monster_config(config);
    let n = config.prop_grow_curves.len();
    let mut i: usize = 0;
    while i < n
        invariant
            n == config.prop_grow_curves@.len(),
            i <= n,
            tables.wf(),
            config.wf(),
            fight_properties.wf(),
            fight_properties.0.entries@ == spec_grown_all(
                spec_baseline(*config),
                DEFAULT_MONSTER_LEVEL,
                config.prop_grow_curves@.take(i as int),
                GrowCurveConfigType::Monster,
                *tables,
            ),
        decreases n - i,
    {
        let grow_curve = config.prop_grow_curves[i];
        fight_properties.apply_grow_curve(
            DEFAULT_MONSTER_LEVEL,
            &grow_curve,
            GrowCurveConfigType::Monster,
            tables,
        );
        proof {
            assert(config.prop_grow_curves@.take(i + 1).drop_last()
                == config.prop_grow_curves@.take(i as int));
            assert(config.prop_grow_curves@.take(i + 1).last()
                == config.prop_grow_curves@[i as int]);
        }
        i += 1;
    }
    proof {
        assert(config.prop_grow_curves@.take(n as int) == config.prop_grow_curves@);
    }
    fight_properties.apply_base_values();
    let number = entity_counter.next();
    let entity_id = to_protocol_entity_id(ProtEntityType::Monster, number);
    let y = player.world_position.position.y + MONSTER_SPAWN_CLEARANCE;
    let bundle = MonsterBundle {
        monster_id: MonsterID(monster_id),
        entity_id,
        level: crate::common::Level(level),
        transform: Transform {
            position: Vector3 { x: position.0, y, z: position.1 },
            rotation: Vector3 { x: 0, y: 0, z: 0 },
        },
        fight_properties,
        life_state: LifeState::LifeAlive,
    };
    let ghost pre_spawn = store.slots@;
    let h = store.spawn(ActorComponents::Monster(bundle));
    store.mark_visible(h);
    proof {
        assert(store.slots@.len() == pre_spawn.len() + 1);
        assert forall|t: int| 0 <= t < pre_spawn.len() implies #[trigger] store.slots@[t]
            == pre_spawn[t] by {}
    }
    Some(h)
}

/// Destination a resource payload encodes: three little-endian signed
/// 64-bit fixed-point coordinates; any other length is unreadable and
/// yields the default destination.
pub open spec fn spec_payload_destination(p: Seq<u8>) -> Vector3 {
    if p.len() == 24 {
        Vector3 { x: spec_le_i64(p, 0), y: spec_le_i64(p, 8), z: spec_le_i64(p, 16) }
    } else {
        spec_default_destination()
    }
}

/// A signed 64-bit value read little-endian at `off`.
pub open spec fn spec_le_i64(p: Seq<u8>, off: int) -> i64 {
    (p[off] + p[off + 1] * 0x100 + p[off + 2] * 0x1_0000 + p[off + 3] * 0x100_0000 + p[off + 4]
        * 0x1_0000_0000 + p[off + 5] * 0x100_0000_0000 + p[off + 6] * 0x1_0000_0000_0000 + p[off
        + 7] * 0x100_0000_0000_0000) as u64 as i64
}

/// The safe default destination used when no height is given or the
/// external resource cannot be read.
pub open spec fn spec_default_destination() -> Vector3 {
    Vector3 { x: 0 as Scalar, y: DEFAULT_TRAVEL_HEIGHT, z: 0 as Scalar }
}

pub fn default_destination() -> (r: Vector3)
    ensures
        r == spec_default_destination(),
{
    Vector3 { x: 0, y: DEFAULT_TRAVEL_HEIGHT, z: 0 }
}

/// Read one little-endian signed 64-bit coordinate.
fn read_le_i64(p: &Vec<u8>, off: usize) -> (r: i64)
    requires
        off + 8 <= p@.len(),
    ensures
        r == spec_le_i64(p@, off as int),
{
    let n = p.len();
    proof {
        assert(off + 8 <= n);
    }
    let b0 = p[off] as u64;
    let b1 = p[off + 1] as u64;
    let b2 = p[off + 2] as u64;
    let b3 = p[off + 3] as u64;
    let b4 = p[off + 4] as u64;
    let b5 = p[off + 5] as u64;
    let b6 = p[off + 6] as u64;
    let b7 = p[off + 7] as u64;
    proof {
        assert(b0 <= 255 && b1 <= 255 && b2 <= 255 && b3 <= 255 && b4 <= 255 && b5 <= 255 && b6
            <= 255 && b7 <= 255);
        assert(b1 * 0x100 <= 255 * 0x100);
        assert(b2 * 0x1_0000 <= 255 * 0x1_0000);
        assert(b3 * 0x100_0000 <= 255 * 0x100_0000);
        assert(b4 * 0x1_0000_0000 <= 255 * 0x1_0000_0000);
        assert(b5 * 0x100_0000_0000 <= 255 * 0x100_0000_0000);
        assert(b6 * 0x1_0000_0000_0000 <= 255 * 0x1_0000_0000_0000);
        assert(b7 * 0x100_0000_0000_0000 <= 255 * 0x100_0000_0000_0000);
    }
    let v: u64 = b0 + b1 * 0x100 + b2 * 0x1_0000 + b3 * 0x100_0000 + b4 * 0x1_0000_0000 + b5
        * 0x100_0000_0000 + b6 * 0x1_0000_0000_0000 + b7 * 0x100_0000_0000_0000;
    #[verifier::truncate]
    (v as i64)
}

/// Resolve a reposition resource read: an absent or malformed payload
/// falls back to the default destination, never an error.
pub fn resolve_travel_resource(resource: &Option<Vec<u8>>) -> (r: Vector3)
    ensures
        (match resource {
            Some(p) => r == spec_payload_destination(p@),
            None => r == spec_default_destination(),
        }),
{
    match resource {
        None => default_destination(),
        Some(p) => {
            if p.len() == 24 {
                Vector3 { x: read_le_i64(p, 0), y: read_le_i64(p, 8), z: read_le_i64(p, 16) }
            } else {
                default_destination()
            }
        },
    }
}

/// The jump event one command yields: a reposition command always yields
/// exactly one, a spawn command none.
pub open spec fn spec_jump_for(ev: DebugCommandEvent, resource: Option<Vec<u8>>) -> Option<
    ScenePlayerJumpEvent,
> {
    match ev.kind {
        CommandKind::QuickTravel { target } => match target {
            QuickTravelTarget::Coordinates { x, y, z } => Some(
                ScenePlayerJumpEvent(
                    ev.executor_uid,
                    Vector3 {
                        x,
                        y: (match y {
                            Some(v) => v,
                            None => DEFAULT_TRAVEL_HEIGHT,
                        }),
                        z,
                    },
                ),
            ),
            QuickTravelTarget::Resource { .. } => Some(
                ScenePlayerJumpEvent(
                    ev.executor_uid,
                    (match resource {
                        Some(p) => spec_payload_destination(p@),
                        None => spec_default_destination(),
                    }),
                ),
            ),
        },
        _ => None,
    }
}

/// Jump events of a command batch, in command order.
pub open spec fn spec_jump_list(
    events: Seq<DebugCommandEvent>,
    resources: Seq<Option<Vec<u8>>>,
) -> Seq<ScenePlayerJumpEvent>
    recommends
        events.len() == resources.len(),
    decreases events.len(),
{
    if events.len() == 0 {
        Seq::empty()
    } else {
        let rest = spec_jump_list(events.drop_last(), resources.drop_last());
        match spec_jump_for(events.last(), resources.last()) {
            Some(j) => rest.push(j),
            None => rest,
        }
    }
}

/// Effect of one command on the scene and the counter. A spawn command
/// resolves its target: a parsed numeric id spawns that monster; a numeric
/// form that fails to parse spawns one of the fixed candidates; a missing
/// or non-numeric target is dropped. A reposition command touches neither.
pub open spec fn spec_command_applied_one(
    pre_store: EntityStore,
    pre_counter: EntityCounter,
    players: Players,
    configs: MonsterConfigCollection,
    tables: GrowCurveTables,
    ev: DebugCommandEvent,
    post_store: EntityStore,
    post_counter: EntityCounter,
) -> bool {
    match ev.kind {
        CommandKind::SpawnMonster { monster_id, position } => match monster_id {
            None => post_store == pre_store && post_counter == pre_counter,
            Some(input) => if spec_all_digits(input@) {
                exists|id: u32|
                    (match spec_parsed_u32(input@) {
                        Some(v) => id == v,
                        None => spec_spawn_candidates().contains(id),
                    }) && #[trigger] spec_spawned(
                        pre_store,
                        pre_counter,
                        players,
                        configs,
                        tables,
                        ev.executor_uid,
                        id,
                        position,
                        post_store,
                        post_counter,
                    )
            } else {
                post_store == pre_store && post_counter == pre_counter
            },
        },
        CommandKind::QuickTravel { .. } => post_store == pre_store && post_counter == pre_counter,
    }
}

/// Effect of a command batch, applied in order.
pub open spec fn spec_commands_applied(
    pre_store: EntityStore,
    pre_counter: EntityCounter,
    players: Players,
    configs: MonsterConfigCollection,
    tables: GrowCurveTables,
    events: Seq<DebugCommandEvent>,
    post_store: EntityStore,
    post_counter: EntityCounter,
) -> bool
    decreases events.len(),
{
    if events.len() == 0 {
        post_store == pre_store && post_counter == pre_counter
    } else {
        exists|mid_store: EntityStore, mid_counter: EntityCounter|
            spec_commands_applied(
                pre_store,
                pre_counter,
                players,
                configs,
                tables,
                events.drop_last(),
                mid_store,
                mid_counter,
            ) && #[trigger] spec_command_applied_one(
                mid_store,
                mid_counter,
                players,
                configs,
                tables,
                events.last(),
                post_store,
                post_counter,
            )
    }
}

/// One more command extends an applied batch.
pub proof fn lemma_commands_applied_step(
    pre_store: EntityStore,
    pre_counter: EntityCounter,
    players: Players,
    configs: MonsterConfigCollection,
    tables: GrowCurveTables,
    events: Seq<DebugCommandEvent>,
    mid_store: EntityStore,
    mid_counter: EntityCounter,
    post_store: EntityStore,
    post_counter: EntityCounter,
)
    requires
        events.len() > 0,
        spec_commands_applied(
            pre_store,
            pre_counter,
            players,
            configs,
            tables,
            events.drop_last(),
            mid_store,
            mid_counter,
        ),
        spec_command_applied_one(
            mid_store,
            mid_counter,
            players,
            configs,
            tables,
            events.last(),
            post_store,
            post_counter,
        ),
    ensures
        spec_commands_applied(
            pre_store,
            pre_counter,
            players,
            configs,
            tables,
            events,
            post_store,
            post_counter,
        ),
{
}

/// Consume a batch of administrative commands: spawn commands create
/// monster actors through the entity store and the stat derivation engine;
/// reposition commands emit one jump event each, resolved against the
/// optional external resource read handed in beside the event. Every
/// failure is local: a command that cannot resolve is dropped.
#[verifier::rlimit(80)]
pub fn debug_command_handler(
    events: &Vec<DebugCommandEvent>,
    resources: &Vec<Option<Vec<u8>>>,
    store: &mut EntityStore,
    entity_counter: &mut EntityCounter,
    players: &Players,
    configs: &MonsterConfigCollection,
    tables: &GrowCurveTables,
) -> (jump_events: Vec<ScenePlayerJumpEvent>)
    requires
        configs.wf(),
        tables.wf(),
        players.wf(),
        old(entity_counter).wf(),
        resources@.len() == events@.len(),
        old(entity_counter).current_id + events@.len() < ENTITY_NUMBER_BOUND,
    ensures
        final(entity_counter).wf(),
        spec_commands_applied(
            *old(store),
            *old(entity_counter),
            *players,
            *configs,
            *tables,
            events@,
            *final(store),
            *final(entity_counter),
        ),
        jump_events@ == spec_jump_list(events@, resources@),
{
    let n = events.len();
    let mut jump_events: Vec<ScenePlayerJumpEvent> = Vec::new();
    let mut i: usize = 0;
    while i < n
        invariant
            n == events@.len(),
            resources@.len() == n,
            configs.wf(),
            tables.wf(),
            players.wf(),
            entity_counter.wf(),
            entity_counter.current_id <= old(entity_counter).current_id + i,
            old(entity_counter).current_id + n < ENTITY_NUMBER_BOUND,
            i <= n,
            spec_commands_applied(
                *old(store),
                *old(entity_counter),
                *players,
                *configs,
                *tables,
                events@.take(i as int),
                *store,
                *entity_counter,
            ),
            jump_events@ == spec_jump_list(events@.take(i as int), resources@.take(i as int)),
        decreases n - i,
    {
        let ghost mid_store = *store;
        let ghost mid_counter = *entity_counter;
        let ghost prev_jumps = jump_events@;
        let ev = &events[i];
        match &ev.kind {
            CommandKind::SpawnMonster { monster_id, position } => {
                match monster_id {
                    Some(input) => {
                        if all_digits(input) {
                            let id = match parse_u32_digits(input) {
                                Some(v) => v,
                                None => random_candidate(),
                            };
                            spawn_monster_with_id(
                                store,
                                entity_counter,
                                players,
                                configs,
                                tables,
                                ev.executor_uid,
                                id,
                                (position.0, position.1),
                            );
                            proof {
                                assert(spec_command_applied_one(
                                    mid_store,
                                    mid_counter,
                                    *players,
                                    *configs,
                                    *tables,
                                    events@[i as int],
                                    *store,
                                    *entity_counter,
                                ));
                            }
                        } else {
                            proof {
                                assert(spec_command_applied_one(
                                    mid_store,
                                    mid_counter,
                                    *players,
                                    *configs,
                                    *tables,
                                    events@[i as int],
                                    *store,
                                    *entity_counter,
                                ));
                            }
                        }
                    },
                    None => {},
                }
            },
            CommandKind::QuickTravel { target } => {
                match target {
                    QuickTravelTarget::Coordinates { x, y, z } => {
                        let height = match y {
                            Some(v) => *v,
                            None => DEFAULT_TRAVEL_HEIGHT,
                        };
                        jump_events.push(
                            ScenePlayerJumpEvent(
                                ev.executor_uid,
                                Vector3 { x: *x, y: height, z: *z },
                            ),
                        );
                    },
                    QuickTravelTarget::Resource { .. } => {
                        let destination = resolve_travel_resource(&resources[i]);
                        jump_events.push(ScenePlayerJumpEvent(ev.executor_uid, destination));
                    },
                }
            },
        }
        proof {
            assert(events@.take(i + 1).len() == i + 1);
            assert(events@.take(i + 1).drop_last() == events@.take(i as int));
            assert(events@.take(i + 1).last() == events@[i as int]);
            assert(resources@.take(i + 1).len() == i + 1);
            assert(resources@.take(i + 1).drop_last() == resources@.take(i as int));
            assert(resources@.take(i + 1).last() == resources@[i as int]);
            assert(spec_command_applied_one(
                mid_store,
                mid_counter,
                *players,
                *configs,
                *tables,
                events@[i as int],
                *store,
                *entity_counter,
            ));
            assert(spec_commands_applied(
                *old(store),
                *old(entity_counter),
                *players,
                *configs,
                *tables,
                events@.take(i + 1).drop_last(),
                mid_store,
                mid_counter,
            ));
            lemma_commands_applied_step(
                *old(store),
                *old(entity_counter),
                *players,
                *configs,
                *tables,
                events@.take(i + 1),
                mid_store,
                mid_counter,
                *store,
                *entity_counter,
            );
            assert(jump_events@ == spec_jump_list(
                events@.take(i + 1),
                resources@.take(i + 1),
            ));
        }
        i += 1;
    }
    proof {
        assert(events@.take(n as int) == events@);
        assert(resources@.take(n as int) == resources@);
    }
    jump_events
}

} // verus!
