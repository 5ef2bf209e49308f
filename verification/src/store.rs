use crate::avatar::{AvatarAppearance, AvatarBundle};
use crate::monster::MonsterBundle;
use crate::weapon::WeaponBundle;
use vstd::prelude::*;

verus! {

/// Process-local handle of a live actor: an index into the store's arena,
/// stable for the actor's lifetime and never reissued.
#[derive(Clone, Copy, PartialEq, Eq, Structural)]
pub struct Handle {
    pub index: usize,
}

/// The typed component set of one actor.
pub enum ActorComponents {
    Avatar(AvatarBundle),
    Monster(MonsterBundle),
    Weapon(WeaponBundle),
}

/// One arena row: an actor's components and its lifecycle markers.
pub struct ActorRow {
    pub components: ActorComponents,
    /// Present once the actor has been announced to clients; never cleared
    /// except by deletion.
    pub visible: bool,
    /// Set once "newly appeared" processing has consumed the actor.
    pub appeared_processed: bool,
    /// Set when the actor awaits removal by housekeeping.
    pub pending_removal: bool,
}

/// Arena of live actors. All mutation goes through `&mut` methods, so two
/// writers, or a writer beside a reader, can never address the same
/// component at once; the tick scheduler that sequences systems hands the
/// store out accordingly.
pub struct EntityStore {
    pub slots: Vec<Option<ActorRow>>,
}

impl EntityStore {
    /// Slot `i` holds a live actor.
    pub open spec fn live_at(&self, i: int) -> bool {
        0 <= i < self.slots@.len() && self.slots@[i] is Some
    }

    /// The row in slot `i`; meaningful only when `live_at(i)`.
    pub open spec fn row_at(&self, i: int) -> ActorRow {
        self.slots@[i]->Some_0
    }

    /// `h` refers to a live actor.
    pub open spec fn live(&self, h: Handle) -> bool {
        self.live_at(h.index as int)
    }

    /// Slot `i` holds a live avatar whose guid is `guid`.
    pub open spec fn is_live_avatar_guid(&self, i: int, guid: u64) -> bool {
        self.live_at(i) && match self.row_at(i).components {
            ActorComponents::Avatar(b) => b.guid.0 == guid,
            _ => false,
        }
    }

    /// Slot `i` holds a visible avatar not yet consumed by "newly appeared"
    /// processing and not awaiting removal.
    pub open spec fn newly_visible_avatar_at(&self, i: int) -> bool {
        self.live_at(i) && self.row_at(i).components is Avatar && self.row_at(i).visible
            && !self.row_at(i).appeared_processed && !self.row_at(i).pending_removal
    }

    pub fn new() -> (r: Self)
        ensures
            r.slots@.len() == 0,
    {
        EntityStore { slots: Vec::new() }
    }

    /// Insert one new actor atomically, not yet visible. The returned handle
    /// is fresh: no earlier actor ever carried it.
    pub fn spawn(&mut self, components: ActorComponents) -> (h: Handle)
        ensures
            final(self).slots@ == old(self).slots@.push(
                Some(
                    ActorRow {
                        components,
                        visible: false,
                        appeared_processed: false,
                        pending_removal: false,
                    },
                ),
            ),
            h.index == old(self).slots@.len(),
            final(self).live(h),
    {
        let h = Handle { index: self.slots.len() };
        self.slots.push(
            Some(
                ActorRow {
                    components,
                    visible: false,
                    appeared_processed: false,
                    pending_removal: false,
                },
            ),
        );
        h
    }

    /// Remove an actor and all its components. A handle that no longer
    /// refers to a live actor is reported, not a fault.
    pub fn despawn(&mut self, h: Handle) -> (r: bool)
        ensures
            r == old(self).live(h),
            r ==> final(self).slots@ == old(self).slots@.update(h.index as int, None),
            !r ==> final(self).slots@ == old(self).slots@,
    {
        if h.index < self.slots.len() {
            let slot = &mut self.slots[h.index];
            let r = match slot {
                Some(_) => {
                    *slot = None;
                    true
                },
                None => false,
            };
            proof {
                if !r {
                    assert(final(self).slots@ =~= old(self).slots@);
                }
            }
            r
        } else {
            false
        }
    }

    /// Borrow an actor's row; `None` exactly when the handle is stale.
    pub fn row(&self, h: Handle) -> (r: Option<&ActorRow>)
        ensures
            (match r {
                Some(row) => self.live(h) && *row == self.row_at(h.index as int),
                None => !self.live(h),
            }),
    {
        if h.index < self.slots.len() {
            match &self.slots[h.index] {
                Some(row) => Some(row),
                None => None,
            }
        } else {
            None
        }
    }

    /// Borrow an avatar's components; `None` when the handle is stale or the
    /// actor is not an avatar.
    pub fn avatar(&self, h: Handle) -> (r: Option<&AvatarBundle>)
        ensures
            (match r {
                Some(b) => self.live(h) && self.row_at(h.index as int).components
                    == ActorComponents::Avatar(*b),
                None => !(self.live(h) && self.row_at(h.index as int).components is Avatar),
            }),
    {
        match self.row(h) {
            Some(row) => match &row.components {
                ActorComponents::Avatar(b) => Some(b),
                _ => None,
            },
            None => None,
        }
    }

    /// Borrow a weapon's components; `None` when the handle is stale or the
    /// actor is not a weapon.
    pub fn weapon(&self, h: Handle) -> (r: Option<&WeaponBundle>)
        ensures
            (match r {
                Some(b) => self.live(h) && self.row_at(h.index as int).components
                    == ActorComponents::Weapon(*b),
                None => !(self.live(h) && self.row_at(h.index as int).components is Weapon),
            }),
    {
        match self.row(h) {
            Some(row) => match &row.components {
                ActorComponents::Weapon(b) => Some(b),
                _ => None,
            },
            None => None,
        }
    }

    /// Attach the visible marker; reports whether the handle was live.
    pub fn mark_visible(&mut self, h: Handle) -> (r: bool)
        ensures
            r == old(self).live(h),
            r ==> final(self).slots@ == old(self).slots@.update(
                h.index as int,
                Some(ActorRow { visible: true, ..old(self).row_at(h.index as int) }),
            ),
            !r ==> final(self).slots@ == old(self).slots@,
    {
        if h.index < self.slots.len() {
            let slot = &mut self.slots[h.index];
            let r = match slot {
                Some(row) => {
                    row.visible = true;
                    true
                },
                None => false,
            };
            proof {
                if !r {
                    assert(final(self).slots@ =~= old(self).slots@);
                }
            }
            r
        } else {
            false
        }
    }

    /// Exclude the actor from further "newly appeared" processing.
    pub fn mark_appeared_processed(&mut self, h: Handle) -> (r: bool)
        ensures
            r == old(self).live(h),
            r ==> final(self).slots@ == old(self).slots@.update(
                h.index as int,
                Some(ActorRow { appeared_processed: true, ..old(self).row_at(h.index as int) }),
            ),
            !r ==> final(self).slots@ == old(self).slots@,
    {
        if h.index < self.slots.len() {
            let slot = &mut self.slots[h.index];
            let r = match slot {
                Some(row) => {
                    row.appeared_processed = true;
                    true
                },
                None => false,
            };
            proof {
                if !r {
                    assert(final(self).slots@ =~= old(self).slots@);
                }
            }
            r
        } else {
            false
        }
    }

    /// Replace an avatar's costume id; reports whether a live avatar stood
    /// behind the handle.
    pub fn set_costume(&mut self, h: Handle, costume_id: u32) -> (r: bool)
        ensures
            r == (old(self).live(h) && old(self).row_at(h.index as int).components is Avatar),
            r ==> (match old(self).row_at(h.index as int).components {
                ActorComponents::Avatar(b) => final(self).slots@ == old(self).slots@.update(
                    h.index as int,
                    Some(
                        ActorRow {
                            components: ActorComponents::Avatar(
                                AvatarBundle {
                                    appearance: (AvatarAppearance {
                                        costume_id,
                                        ..b.appearance
                                    }),
                                    ..b
                                },
                            ),
                            ..old(self).row_at(h.index as int)
                        },
                    ),
                ),
                _ => false,
            }),
            !r ==> final(self).slots@ == old(self).slots@,
    {
        if h.index < self.slots.len() {
            let slot = &mut self.slots[h.index];
            let r = match slot {
                Some(row) => match &mut row.components {
                    ActorComponents::Avatar(b) => {
                        b.appearance.costume_id = costume_id;
                        true
                    },
                    _ => false,
                },
                None => false,
            };
            proof {
                if !r {
                    assert(final(self).slots@ =~= old(self).slots@);
                }
            }
            r
        } else {
            false
        }
    }

    /// Replace an avatar's trace-effect id; reports whether a live avatar
    /// stood behind the handle.
    pub fn set_trace_effect(&mut self, h: Handle, trace_effect_id: u32) -> (r: bool)
        ensures
            r == (old(self).live(h) && old(self).row_at(h.index as int).components is Avatar),
            r ==> (match old(self).row_at(h.index as int).components {
                ActorComponents::Avatar(b) => final(self).slots@ == old(self).slots@.update(
                    h.index as int,
                    Some(
                        ActorRow {
                            components: ActorComponents::Avatar(
                                AvatarBundle {
                                    appearance: (AvatarAppearance {
                                        trace_effect_id,
                                        ..b.appearance
                                    }),
                                    ..b
                                },
                            ),
                            ..old(self).row_at(h.index as int)
                        },
                    ),
                ),
                _ => false,
            }),
            !r ==> final(self).slots@ == old(self).slots@,
    {
        if h.index < self.slots.len() {
            let slot = &mut self.slots[h.index];
            let r = match slot {
                Some(row) => match &mut row.components {
                    ActorComponents::Avatar(b) => {
                        b.appearance.trace_effect_id = trace_effect_id;
                        true
                    },
                    _ => false,
                },
                None => false,
            };
            proof {
                if !r {
                    assert(final(self).slots@ =~= old(self).slots@);
                }
            }
            r
        } else {
            false
        }
    }

    /// First live avatar carrying `guid`; `None` exactly when no live avatar
    /// does.
    pub fn find_avatar_by_guid(&self, guid: u64) -> (r: Option<Handle>)
        ensures
            (match r {
                Some(h) => self.is_live_avatar_guid(h.index as int, guid) && forall|j: int|
                    0 <= j < h.index as int ==> !self.is_live_avatar_guid(j, guid),
                None => forall|i: int|
                    0 <= i < self.slots@.len() ==> !self.is_live_avatar_guid(i, guid),
            }),
    {
        let n = self.slots.len();
        let mut i: usize = 0;
        while i < n
            invariant
                n == self.slots@.len(),
                i <= n,
                forall|j: int| 0 <= j < i ==> !self.is_live_avatar_guid(j, guid),
            decreases n - i,
        {
            match &self.slots[i] {
                Some(row) => match &row.components {
                    ActorComponents::Avatar(b) => {
                        if b.guid.0 == guid {
                            return Some(Handle { index: i });
                        }
                    },
                    _ => {},
                },
                None => {},
            }
            i += 1;
        }
        None
    }

    /// Handles of every newly visible avatar, in ascending slot order.
    pub fn newly_visible_avatars(&self) -> (r: Vec<Handle>)
        ensures
            forall|k: int|
                0 <= k < r@.len() ==> self.newly_visible_avatar_at(
                    (#[trigger] r@[k]).index as int,
                ),
            forall|k1: int, k2: int| 0 <= k1 < k2 < r@.len() ==> r@[k1].index < r@[k2].index,
            forall|i: int|
                0 <= i < self.slots@.len() && self.newly_visible_avatar_at(i) ==> exists|k: int|
                    0 <= k < r@.len() && (#[trigger] r@[k]).index as int == i,
    {
        let n = self.slots.len();
        let mut out: Vec<Handle> = Vec::new();
        let mut i: usize = 0;
        while i < n
            invariant
                n == self.slots@.len(),
                i <= n,
                forall|k: int|
                    0 <= k < out@.len() ==> self.newly_visible_avatar_at(
                        (#[trigger] out@[k]).index as int,
                    ) && out@[k].index < i,
                forall|k1: int, k2: int|
                    0 <= k1 < k2 < out@.len() ==> out@[k1].index < out@[k2].index,
                forall|j: int|
                    0 <= j < i && self.newly_visible_avatar_at(j) ==> exists|k: int|
                        0 <= k < out@.len() && (#[trigger] out@[k]).index as int == j,
            decreases n - i,
        {
            let picked = match &self.slots[i] {
                Some(row) => match &row.components {
                    ActorComponents::Avatar(_) => row.visible && !row.appeared_processed
                        && !row.pending_removal,
                    _ => false,
                },
                None => false,
            };
            if picked {
                let ghost prev = out@;
                out.push(Handle { index: i });
                proof {
                    assert forall|j: int|
                        0 <= j < i + 1 && self.newly_visible_avatar_at(j) implies exists|k: int|
                        0 <= k < out@.len() && (#[trigger] out@[k]).index as int == j by {
                        if j == i as int {
                            assert(out@[out@.len() - 1].index as int == j);
                        } else {
                            let k = choose|k: int|
                                0 <= k < prev.len() && (#[trigger] prev[k]).index as int == j;
                            assert(out@[k].index as int == j);
                        }
                    }
                }
            }
            i += 1;
        }
        out
    }

    /// Whether any newly visible avatar awaits announcement.
    pub fn has_newly_visible_avatars(&self) -> (r: bool)
        ensures
            r == exists|i: int| 0 <= i < self.slots@.len() && self.newly_visible_avatar_at(i),
    {
        let n = self.slots.len();
        let mut i: usize = 0;
        while i < n
            invariant
                n == self.slots@.len(),
                i <= n,
                forall|j: int| 0 <= j < i ==> !self.newly_visible_avatar_at(j),
            decreases n - i,
        {
            let picked = match &self.slots[i] {
                Some(row) => match &row.components {
                    ActorComponents::Avatar(_) => row.visible && !row.appeared_processed
                        && !row.pending_removal,
                    _ => false,
                },
                None => {
                    false
                },
            };
            if picked {
                proof {
                    assert(self.newly_visible_avatar_at(i as int));
                }
                return true;
            }
            i += 1;
        }
        false
    }
}

} // verus!
