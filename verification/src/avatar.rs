use crate::common::{BreakLevel, Guid, Level, LifeState, OwnerPlayerUID, ProtocolEntityID};
use crate::idmap::IdMap;
use crate::persistence::Players;
use crate::props::FightProperties;
use crate::snapshot::{
    build_avatar_entity_info, build_fake_avatar_entity_info, fake_avatar_snapshot_ok,
    live_avatar_snapshot_ok, AvatarChangeCostumeNotify, AvatarChangeTraceEffectNotify,
    OutboundMessage, Recipient, SceneEntityAppearNotify, SceneEntityInfo, SceneNotify,
    VISION_TYPE_MEET,
};
use crate::store::{ActorComponents, ActorRow, EntityStore, Handle};
use crate::transform::Transform;
use crate::weapon::WeaponBundle;
use vstd::prelude::*;

verus! {

/// Type-specific numeric id of an avatar kind.
#[derive(Clone, Copy, PartialEq, Eq, Structural)]
pub struct AvatarID(pub u32);

/// Peer id of the client controlling an avatar.
#[derive(Clone, Copy, PartialEq, Eq, Structural)]
pub struct ControlPeer(pub u32);

/// Skill depot an avatar draws its skills from.
#[derive(Clone, Copy, PartialEq, Eq, Structural)]
pub struct SkillDepot(pub u32);

/// Spawn timestamp of an actor.
#[derive(Clone, Copy, PartialEq, Eq, Structural)]
pub struct BornTime(pub u32);

/// Slot an avatar occupies in its scene team.
#[derive(Clone, Copy, PartialEq, Eq, PartialOrd, Ord, Structural)]
pub struct IndexInSceneTeam(pub u8);

/// Marks the avatar currently controlled by the owning player.
pub struct CurrentPlayerAvatarMarker;

/// Skill id to skill level of an avatar.
pub struct SkillLevelMap(pub IdMap<u32>);

/// Inherent proud-skill ids of an avatar.
pub struct InherentProudSkillList(pub Vec<u32>);

/// Equipment of an avatar: a reference to its equipped weapon actor.
#[derive(Clone, Copy, PartialEq, Eq, Structural)]
pub struct Equipment {
    pub weapon: Handle,
}

/// Cosmetic appearance of an avatar.
#[derive(Clone, Copy, PartialEq, Eq, Structural)]
pub struct AvatarAppearance {
    pub flycloak_id: u32,
    pub costume_id: u32,
    pub trace_effect_id: u32,
}

/// An avatar changed its equipped weapon.
pub struct AvatarEquipChangeEvent {
    pub player_uid: u32,
    pub avatar_guid: u64,
    pub weapon_guid: u64,
}

/// Which cosmetic field an appearance change replaces.
#[derive(Clone, Copy, PartialEq, Eq, Structural)]
pub enum AvatarAppearanceChange {
    Costume(u32),
    TraceEffect(u32),
}

/// A cosmetic change requested for the avatar with the given guid, issued by
/// the given player.
#[derive(Clone, Copy, PartialEq, Eq, Structural)]
pub struct AvatarAppearanceChangeEvent {
    pub player_uid: u32,
    pub avatar_guid: u64,
    pub change: AvatarAppearanceChange,
}

/// The complete component set of an avatar actor, inserted in one step.
pub struct AvatarBundle {
    pub avatar_id: AvatarID,
    pub entity_id: ProtocolEntityID,
    pub guid: Guid,
    pub level: Level,
    pub break_level: BreakLevel,
    pub control_peer: ControlPeer,
    pub skill_depot: SkillDepot,
    pub equipment: Equipment,
    pub appearance: AvatarAppearance,
    pub transform: Transform,
    pub owner_player_uid: OwnerPlayerUID,
    pub fight_properties: FightProperties,
    pub life_state: LifeState,
    pub born_time: BornTime,
    pub index_in_scene_team: IndexInSceneTeam,
    pub skill_level_map: SkillLevelMap,
    pub inherent_proud_skill_list: InherentProudSkillList,
}

impl AvatarBundle {
    pub open spec fn wf(&self) -> bool {
        self.fight_properties.wf() && self.skill_level_map.0.wf()
    }
}

/// Read-only joined view over one avatar's complete component set, as the
/// entity store hands it out to queries.
pub type AvatarQueryReadOnly<'a> = &'a AvatarBundle;

/// The slot holds a live avatar carrying `guid`.
pub open spec fn slot_is_avatar_guid(s: Option<ActorRow>, guid: u64) -> bool {
    s matches Some(row) && row.components matches ActorComponents::Avatar(b) && b.guid.0 == guid
}

/// Some slot holds a live avatar carrying `guid`.
pub open spec fn seq_has_avatar_guid(slots: Seq<Option<ActorRow>>, guid: u64) -> bool {
    exists|i: int| 0 <= i < slots.len() && slot_is_avatar_guid(#[trigger] slots[i], guid)
}

/// Index of the first slot holding a live avatar with `guid`; meaningful
/// only when `seq_has_avatar_guid`.
pub open spec fn seq_first_avatar_index(slots: Seq<Option<ActorRow>>, guid: u64) -> int {
    choose|i: int|
        0 <= i < slots.len() && slot_is_avatar_guid(slots[i], guid) && (forall|j: int|
            0 <= j < i ==> !slot_is_avatar_guid(slots[j], guid))
}

/// The components of the first live avatar with `guid`; meaningful only when
/// `seq_has_avatar_guid`.
pub open spec fn seq_resident_avatar(slots: Seq<Option<ActorRow>>, guid: u64) -> AvatarBundle {
    match slots[seq_first_avatar_index(slots, guid)] {
        Some(row) => match row.components {
            ActorComponents::Avatar(b) => b,
            _ => vstd::pervasive::arbitrary(),
        },
        None => vstd::pervasive::arbitrary(),
    }
}

/// A slot that matches with none before it is the first match.
pub proof fn lemma_first_avatar_index(slots: Seq<Option<ActorRow>>, guid: u64, i: int)
    requires
        0 <= i < slots.len(),
        slot_is_avatar_guid(slots[i], guid),
        forall|j: int| 0 <= j < i ==> !slot_is_avatar_guid(#[trigger] slots[j], guid),
    ensures
        seq_has_avatar_guid(slots, guid),
        seq_first_avatar_index(slots, guid) == i,
{
    assert(seq_has_avatar_guid(slots, guid));
    assert(0 <= i < slots.len() && slot_is_avatar_guid(slots[i], guid) && (forall|j: int|
        0 <= j < i ==> !slot_is_avatar_guid(#[trigger] slots[j], guid)));
    let w = seq_first_avatar_index(slots, guid);
    assert(0 <= w < slots.len() && slot_is_avatar_guid(slots[w], guid) && (forall|j: int|
        0 <= j < w ==> !slot_is_avatar_guid(#[trigger] slots[j], guid)));
    if w < i {
        assert(!slot_is_avatar_guid(slots[w], guid));
    }
    if i < w {
        assert(!slot_is_avatar_guid(slots[i], guid));
    }
}

/// An actor row with one cosmetic field replaced; a non-avatar row is
/// untouched.
pub open spec fn appearance_target_row(row: ActorRow, change: AvatarAppearanceChange) -> ActorRow {
    match row.components {
        ActorComponents::Avatar(b) => ActorRow {
            components: ActorComponents::Avatar(
                AvatarBundle {
                    appearance: match change {
                        AvatarAppearanceChange::Costume(id) => AvatarAppearance {
                            costume_id: id,
                            ..b.appearance
                        },
                        AvatarAppearanceChange::TraceEffect(id) => AvatarAppearance {
                            trace_effect_id: id,
                            ..b.appearance
                        },
                    },
                    ..b
                },
            ),
            ..row
        },
        _ => row,
    }
}

/// Effect of one appearance-change event on the arena: the first live avatar
/// matching the event's guid has exactly the implicated cosmetic field
/// replaced; with no live match, nothing changes (the event is still kept
/// for the notification stage).
pub open spec fn spec_appearance_applied(
    slots: Seq<Option<ActorRow>>,
    ev: AvatarAppearanceChangeEvent,
) -> Seq<Option<ActorRow>> {
    if seq_has_avatar_guid(slots, ev.avatar_guid) {
        let i = seq_first_avatar_index(slots, ev.avatar_guid);
        slots.update(i, Some(appearance_target_row(slots[i]->Some_0, ev.change)))
    } else {
        slots
    }
}

/// Effect of a batch of appearance-change events, applied in order.
pub open spec fn spec_appearance_applied_all(
    slots: Seq<Option<ActorRow>>,
    events: Seq<AvatarAppearanceChangeEvent>,
) -> Seq<Option<ActorRow>>
    decreases events.len(),
{
    if events.len() == 0 {
        slots
    } else {
        spec_appearance_applied(
            spec_appearance_applied_all(slots, events.drop_last()),
            events.last(),
        )
    }
}

/// Mutation stage of the appearance pipeline: apply each event's cosmetic
/// change to the matching live avatar, in event order, without publishing
/// anything.
#[verifier::rlimit(80)]
pub fn update_avatar_appearance(
    store: &mut EntityStore,
    events: &Vec<AvatarAppearanceChangeEvent>,
)
    ensures
        final(store).slots@ == spec_appearance_applied_all(old(store).slots@, events@),
{
    let n = events.len();
    let mut i: usize = 0;
    while i < n
        invariant
            n == events@.len(),
            i <= n,
            store.slots@ == spec_appearance_applied_all(old(store).slots@, events@.take(i as int)),
        decreases n - i,
    {
        let ev = events[i];
        let ghost pre = store.slots@;
        match store.find_avatar_by_guid(ev.avatar_guid) {
            Some(h) => {
                proof {
                    assert(slot_is_avatar_guid(pre[h.index as int], ev.avatar_guid));
                    assert forall|j: int|
                        0 <= j < h.index as int implies !slot_is_avatar_guid(
                        #[trigger] pre[j],
                        ev.avatar_guid,
                    ) by {
                        assert(!store.is_live_avatar_guid(j, ev.avatar_guid));
                    }
                    lemma_first_avatar_index(pre, ev.avatar_guid, h.index as int);
                }
                match ev.change {
                    AvatarAppearanceChange::Costume(id) => {
                        store.set_costume(h, id);
                    },
                    AvatarAppearanceChange::TraceEffect(id) => {
                        store.set_trace_effect(h, id);
                    },
                }
                proof {
                    assert(store.slots@ == spec_appearance_applied(pre, ev));
                }
            },
            None => {
                proof {
                    assert forall|j: int|
                        0 <= j < pre.len() implies !slot_is_avatar_guid(
                        #[trigger] pre[j],
                        ev.avatar_guid,
                    ) by {
                        assert(!store.is_live_avatar_guid(j, ev.avatar_guid));
                    }
                    assert(!seq_has_avatar_guid(pre, ev.avatar_guid));
                    assert(store.slots@ == spec_appearance_applied(pre, ev));
                }
            },
        }
        proof {
            assert(events@.take(i + 1).drop_last() == events@.take(i as int));
            assert(events@.take(i + 1).last() == events@[i as int]);
        }
        i += 1;
    }
    proof {
        assert(events@.take(n as int) == events@);
    }
}

/// The resident avatar's equipment resolves to a live weapon actor.
pub open spec fn resident_weapon_ok(store: EntityStore, guid: u64) -> bool {
    let h = seq_resident_avatar(store.slots@, guid).equipment.weapon;
    store.live(h) && store.row_at(h.index as int).components is Weapon
}

/// The resident avatar's equipped weapon components; meaningful only when
/// `resident_weapon_ok`.
pub open spec fn resident_weapon(store: EntityStore, guid: u64) -> WeaponBundle {
    match store.row_at(
        seq_resident_avatar(store.slots@, guid).equipment.weapon.index as int,
    ).components {
        ActorComponents::Weapon(w) => w,
        _ => vstd::pervasive::arbitrary(),
    }
}

/// The persisted fallback path is complete for the event: the issuing
/// player, the avatar record and its weapon item record all resolve.
pub open spec fn fallback_ok(players: Players, ev: AvatarAppearanceChangeEvent) -> bool {
    &&& players.has_player(ev.player_uid)
    &&& players.player_of(ev.player_uid).avatar_module.avatar_map.has_key(ev.avatar_guid)
    &&& players.player_of(ev.player_uid).item_map.has_key(
        players.player_of(ev.player_uid).avatar_module.avatar_map.value_of(
            ev.avatar_guid,
        ).weapon_guid,
    )
}

/// The event produces a notification: through the live path when the avatar
/// is resident, through the persisted fallback otherwise.
pub open spec fn event_handled(
    store: EntityStore,
    players: Players,
    ev: AvatarAppearanceChangeEvent,
) -> bool {
    if seq_has_avatar_guid(store.slots@, ev.avatar_guid) {
        resident_weapon_ok(store, ev.avatar_guid)
    } else {
        fallback_ok(players, ev)
    }
}

/// What the notification for one event must look like: a live-path snapshot
/// broadcast to everyone for a resident avatar, a fallback-path snapshot
/// sent only to the owning player's connection otherwise; the notify kind
/// follows the change kind.
pub open spec fn event_message_ok(
    store: EntityStore,
    players: Players,
    ev: AvatarAppearanceChangeEvent,
    m: OutboundMessage,
) -> bool {
    if seq_has_avatar_guid(store.slots@, ev.avatar_guid) {
        let a = seq_resident_avatar(store.slots@, ev.avatar_guid);
        let w = resident_weapon(store, ev.avatar_guid);
        &&& m.recipient == Recipient::AllPlayers
        &&& (match ev.change {
            AvatarAppearanceChange::Costume(_) => m.notify matches SceneNotify::ChangeCostume(n)
                && n.entity_info matches Some(info) && live_avatar_snapshot_ok(info, a, w),
            AvatarAppearanceChange::TraceEffect(_) => m.notify matches SceneNotify::ChangeTraceEffect(
                n,
            ) && n.entity_info matches Some(info) && live_avatar_snapshot_ok(info, a, w),
        })
    } else {
        let av = players.player_of(ev.player_uid).avatar_module.avatar_map.value_of(
            ev.avatar_guid,
        );
        let it = players.player_of(ev.player_uid).item_map.value_of(av.weapon_guid);
        &&& m.recipient == Recipient::Player(ev.player_uid)
        &&& (match ev.change {
            AvatarAppearanceChange::Costume(_) => m.notify matches SceneNotify::ChangeCostume(n)
                && n.entity_info matches Some(info) && fake_avatar_snapshot_ok(info, av, it),
            AvatarAppearanceChange::TraceEffect(_) => m.notify matches SceneNotify::ChangeTraceEffect(
                n,
            ) && n.entity_info matches Some(info) && fake_avatar_snapshot_ok(info, av, it),
        })
    }
}

/// The outbound batch is exactly one correct notification per handled
/// event, in event order; unhandled events (lookup misses anywhere along
/// either path) contribute nothing.
pub open spec fn spec_notify_outputs_ok(
    store: EntityStore,
    players: Players,
    events: Seq<AvatarAppearanceChangeEvent>,
    out: Seq<OutboundMessage>,
) -> bool
    decreases events.len(),
{
    if events.len() == 0 {
        out.len() == 0
    } else {
        let ev = events.last();
        if event_handled(store, players, ev) {
            &&& out.len() >= 1
            &&& spec_notify_outputs_ok(store, players, events.drop_last(), out.drop_last())
            &&& event_message_ok(store, players, ev, out.last())
        } else {
            spec_notify_outputs_ok(store, players, events.drop_last(), out)
        }
    }
}

/// Notification stage of the appearance pipeline. Performs its own lookup
/// per event: a resident avatar is serialized from its live components and
/// broadcast; a non-resident avatar is serialized from the owning player's
/// persisted record and sent only to that player. Any lookup miss drops the
/// one event and touches nothing else.
#[verifier::rlimit(80)]
pub fn notify_avatar_appearance_change(
    store: &EntityStore,
    players: &Players,
    events: &Vec<AvatarAppearanceChangeEvent>,
) -> (out: Vec<OutboundMessage>)
    requires
        players.wf(),
    ensures
        spec_notify_outputs_ok(*store, *players, events@, out@),
{
    let n = events.len();
    let mut out: Vec<OutboundMessage> = Vec::new();
    let mut i: usize = 0;
    while i < n
        invariant
            n == events@.len(),
            i <= n,
            players.wf(),
            spec_notify_outputs_ok(*store, *players, events@.take(i as int), out@),
        decreases n - i,
    {
        let ev = events[i];
        let ghost prev = out@;
        match store.find_avatar_by_guid(ev.avatar_guid) {
            Some(h) => {
                proof {
                    assert(slot_is_avatar_guid(store.slots@[h.index as int], ev.avatar_guid));
                    assert forall|j: int|
                        0 <= j < h.index as int implies !slot_is_avatar_guid(
                        #[trigger] store.slots@[j],
                        ev.avatar_guid,
                    ) by {
                        assert(!store.is_live_avatar_guid(j, ev.avatar_guid));
                    }
                    lemma_first_avatar_index(store.slots@, ev.avatar_guid, h.index as int);
                }
                match store.avatar(h) {
                    Some(avatar_data) => {
                        proof {
                            assert(*avatar_data == seq_resident_avatar(
                                store.slots@,
                                ev.avatar_guid,
                            ));
                        }
                        match store.weapon(avatar_data.equipment.weapon) {
                            Some(weapon_data) => {
                                let info = build_avatar_entity_info(avatar_data, weapon_data);
                                let msg = match ev.change {
                                    AvatarAppearanceChange::Costume(_) => OutboundMessage {
                                        recipient: Recipient::AllPlayers,
                                        notify: SceneNotify::ChangeCostume(
                                            AvatarChangeCostumeNotify { entity_info: Some(info) },
                                        ),
                                    },
                                    AvatarAppearanceChange::TraceEffect(_) => OutboundMessage {
                                        recipient: Recipient::AllPlayers,
                                        notify: SceneNotify::ChangeTraceEffect(
                                            AvatarChangeTraceEffectNotify {
                                                entity_info: Some(info),
                                            },
                                        ),
                                    },
                                };
                                out.push(msg);
                                proof {
                                    assert(event_handled(*store, *players, ev));
                                    assert(event_message_ok(*store, *players, ev, out@.last()));
                                    assert(out@.drop_last() == prev);
                                }
                            },
                            None => {
                                proof {
                                    assert(!event_handled(*store, *players, ev));
                                }
                            },
                        }
                    },
                    None => {
                        proof {
                            assert(false);
                        }
                    },
                }
            },
            None => {
                proof {
                    assert forall|j: int|
                        0 <= j < store.slots@.len() implies !slot_is_avatar_guid(
                        #[trigger] store.slots@[j],
                        ev.avatar_guid,
                    ) by {
                        assert(!store.is_live_avatar_guid(j, ev.avatar_guid));
                    }
                    assert(!seq_has_avatar_guid(store.slots@, ev.avatar_guid));
                }
                match players.get(ev.player_uid) {
                    Some(player) => {
                        match player.avatar_module.avatar_map.get(ev.avatar_guid) {
                            Some(av) => {
                                let weapon_guid = av.weapon_guid;
                                match player.item_map.get(weapon_guid) {
                                    Some(it) => {
                                        let info = build_fake_avatar_entity_info(av, it);
                                        let msg = match ev.change {
                                            AvatarAppearanceChange::Costume(_) => OutboundMessage {
                                                recipient: Recipient::Player(ev.player_uid),
                                                notify: SceneNotify::ChangeCostume(
                                                    AvatarChangeCostumeNotify {
                                                        entity_info: Some(info),
                                                    },
                                                ),
                                            },
                                            AvatarAppearanceChange::TraceEffect(_) => OutboundMessage {
                                                recipient: Recipient::Player(ev.player_uid),
                                                notify: SceneNotify::ChangeTraceEffect(
                                                    AvatarChangeTraceEffectNotify {
                                                        entity_info: Some(info),
                                                    },
                                                ),
                                            },
                                        };
                                        out.push(msg);
                                        proof {
                                            assert(event_handled(*store, *players, ev));
                                            assert(event_message_ok(
                                                *store,
                                                *players,
                                                ev,
                                                out@.last(),
                                            ));
                                            assert(out@.drop_last() == prev);
                                        }
                                    },
                                    None => {
                                        proof {
                                            assert(!event_handled(*store, *players, ev));
                                        }
                                    },
                                }
                            },
                            None => {
                                proof {
                                    assert(!event_handled(*store, *players, ev));
                                }
                            },
                        }
                    },
                    None => {
                        proof {
                            assert(!event_handled(*store, *players, ev));
                        }
                    },
                }
            },
        }
        proof {
            assert(events@.take(i + 1).drop_last() == events@.take(i as int));
            assert(events@.take(i + 1).last() == events@[i as int]);
        }
        i += 1;
    }
    proof {
        assert(events@.take(n as int) == events@);
    }
    out
}

/// The avatar components in slot `i`; meaningful only for a live avatar.
pub open spec fn avatar_bundle_at(store: EntityStore, i: int) -> AvatarBundle {
    match store.row_at(i).components {
        ActorComponents::Avatar(b) => b,
        _ => vstd::pervasive::arbitrary(),
    }
}

/// Slot `i` joins the appear batch: a newly visible avatar whose equipped
/// weapon resolves.
pub open spec fn emit_ok(store: EntityStore, i: int) -> bool {
    store.newly_visible_avatar_at(i) && {
        let h = avatar_bundle_at(store, i).equipment.weapon;
        store.live(h) && store.row_at(h.index as int).components is Weapon
    }
}

/// The appear batch holds exactly one live-path snapshot per emitting slot,
/// in ascending slot order.
pub open spec fn spec_appear_list_ok(store: EntityStore, n: int, out: Seq<SceneEntityInfo>) -> bool
    decreases n,
{
    if n <= 0 {
        out.len() == 0
    } else if emit_ok(store, n - 1) {
        &&& out.len() >= 1
        &&& spec_appear_list_ok(store, n - 1, out.drop_last())
        &&& live_avatar_snapshot_ok(
            out.last(),
            avatar_bundle_at(store, n - 1),
            (match store.row_at(
                avatar_bundle_at(store, n - 1).equipment.weapon.index as int,
            ).components {
                ActorComponents::Weapon(w) => w,
                _ => vstd::pervasive::arbitrary(),
            }),
        )
    } else {
        spec_appear_list_ok(store, n - 1, out)
    }
}

/// Announce every newly visible avatar in one batch broadcast and exclude
/// each from further "newly appeared" processing. An avatar whose equipped
/// weapon does not resolve is skipped (and still excluded), never a fault.
#[verifier::rlimit(80)]
pub fn notify_appear_avatar_entities(store: &mut EntityStore) -> (r: OutboundMessage)
    ensures
        r.recipient == Recipient::AllPlayers,
        r.notify matches SceneNotify::EntityAppear(n) && n.appear_type == VISION_TYPE_MEET
            && n.param == 0 && spec_appear_list_ok(
            *old(store),
            old(store).slots@.len() as int,
            n.entity_list@,
        ),
        final(store).slots@.len() == old(store).slots@.len(),
        forall|i: int|
            0 <= i < old(store).slots@.len() ==> final(store).slots@[i] == (if old(
                store,
            ).newly_visible_avatar_at(i) {
                Some(ActorRow { appeared_processed: true, ..old(store).row_at(i) })
            } else {
                old(store).slots@[i]
            }),
{
    let n = store.slots.len();
    let mut list: Vec<SceneEntityInfo> = Vec::new();
    let mut i: usize = 0;
    while i < n
        invariant
            *store == *old(store),
            n == store.slots@.len(),
            i <= n,
            spec_appear_list_ok(*store, i as int, list@),
        decreases n - i,
    {
        let ghost prev = list@;
        let h = Handle { index: i };
        let mut emitted = false;
        match store.avatar(h) {
            Some(avatar_data) => {
                match store.row(h) {
                    Some(row) => {
                        if row.visible && !row.appeared_processed && !row.pending_removal {
                            match store.weapon(avatar_data.equipment.weapon) {
                                Some(weapon_data) => {
                                    list.push(
                                        build_avatar_entity_info(avatar_data, weapon_data),
                                    );
                                    emitted = true;
                                },
                                None => {},
                            }
                        }
                    },
                    None => {
                        proof {
                            assert(false);
                        }
                    },
                }
            },
            None => {},
        }
        proof {
            if emitted {
                assert(emit_ok(*store, i as int));
                assert(list@.drop_last() == prev);
            } else {
                assert(!emit_ok(*store, i as int));
                assert(list@ == prev);
            }
        }
        i += 1;
    }
    let mut j: usize = 0;
    while j < n
        invariant
            n == old(store).slots@.len(),
            n == store.slots@.len(),
            j <= n,
            forall|t: int|
                0 <= t < n ==> #[trigger] store.slots@[t] == (if t < j && old(
                    store,
                ).newly_visible_avatar_at(t) {
                    Some(ActorRow { appeared_processed: true, ..old(store).row_at(t) })
                } else {
                    old(store).slots@[t]
                }),
        decreases n - j,
    {
        let h = Handle { index: j };
        let nv = match store.row(h) {
            Some(row) => (match &row.components {
                ActorComponents::Avatar(_) => true,
                _ => false,
            }) && row.visible && !row.appeared_processed && !row.pending_removal,
            None => false,
        };
        let ghost mid = store.slots@;
        proof {
            assert(store.slots@[j as int] == old(store).slots@[j as int]);
        }
        if nv {
            proof {
                assert(store.live_at(j as int));
                assert(store.newly_visible_avatar_at(j as int));
                assert(old(store).newly_visible_avatar_at(j as int));
            }
            store.mark_appeared_processed(h);
            proof {
                assert(store.slots@[j as int] == Some(
                    ActorRow { appeared_processed: true, ..old(store).row_at(j as int) },
                ));
            }
        } else {
            proof {
                assert(!old(store).newly_visible_avatar_at(j as int));
            }
        }
        proof {
            assert forall|t: int|
                0 <= t < n implies store.slots@[t] == (if t < j + 1 && old(
                store,
            ).newly_visible_avatar_at(t) {
                Some(ActorRow { appeared_processed: true, ..old(store).row_at(t) })
            } else {
                old(store).slots@[t]
            }) by {
                if t != j as int {
                    assert(store.slots@[t] == mid[t]);
                }
            }
        }
        j += 1;
    }
    OutboundMessage {
        recipient: Recipient::AllPlayers,
        notify: SceneNotify::EntityAppear(
            SceneEntityAppearNotify {
                appear_type: VISION_TYPE_MEET,
                param: 0,
                entity_list: list,
            },
        ),
    }
}

/// Whether any newly visible avatar awaits announcement; gates the appear
/// system.
pub fn run_if_avatar_entities_appeared(store: &EntityStore) -> (r: bool)
    ensures
        r == exists|i: int| 0 <= i < store.slots@.len() && store.newly_visible_avatar_at(i),
{
    store.has_newly_visible_avatars()
}

} // verus!
