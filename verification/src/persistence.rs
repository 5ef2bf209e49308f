use crate::idmap::IdMap;
use crate::transform::Transform;
use vstd::prelude::*;

verus! {

/// Persisted record of a player's avatar, read when the avatar is not
/// resident in the live scene.
pub struct AvatarInformation {
    pub avatar_id: u32,
    pub guid: u64,
    pub weapon_guid: u64,
    pub skill_depot_id: u32,
    pub inherent_proud_skill_list: Vec<u32>,
    pub skill_level_map: IdMap<u32>,
    pub wearing_flycloak_id: u32,
    pub born_time: u32,
    pub costume_id: u32,
    pub trace_effect_id: u32,
}

/// Persisted record of an inventory item; the weapon form carries what the
/// fallback replication path reads.
pub enum ItemInformation {
    Weapon { weapon_id: u32, level: u32, promote_level: u32, affix_map: IdMap<u32> },
}

impl ItemInformation {
    pub open spec fn spec_weapon_id(&self) -> u32 {
        match self {
            ItemInformation::Weapon { weapon_id, .. } => *weapon_id,
        }
    }

    pub open spec fn spec_level(&self) -> u32 {
        match self {
            ItemInformation::Weapon { level, .. } => *level,
        }
    }

    pub open spec fn spec_promote_level(&self) -> u32 {
        match self {
            ItemInformation::Weapon { promote_level, .. } => *promote_level,
        }
    }

    pub open spec fn spec_affix_entries(&self) -> Seq<(u64, u32)> {
        match self {
            ItemInformation::Weapon { affix_map, .. } => affix_map.entries@,
        }
    }
}

/// The avatar records of one player, keyed by avatar guid.
pub struct AvatarModule {
    pub avatar_map: IdMap<AvatarInformation>,
}

/// One player's durable record: world position, avatars and items.
pub struct PlayerInformation {
    pub world_position: Transform,
    pub avatar_module: AvatarModule,
    pub item_map: IdMap<ItemInformation>,
}

impl PlayerInformation {
    pub open spec fn wf(&self) -> bool {
        self.world_position.wf() && self.avatar_module.avatar_map.wf() && self.item_map.wf()
    }
}

/// The durable player store, keyed by player uid.
pub struct Players {
    pub players: IdMap<PlayerInformation>,
}

impl Players {
    pub open spec fn wf(&self) -> bool {
        &&& self.players.wf()
        &&& forall|i: int|
            0 <= i < self.players.entries@.len() ==> (#[trigger] self.players.entries@[i]).1.wf()
    }

    /// The store holds a record for `uid`.
    pub open spec fn has_player(&self, uid: u32) -> bool {
        self.players.has_key(uid as u64)
    }

    /// The record for `uid`; meaningful only when `has_player`.
    pub open spec fn player_of(&self, uid: u32) -> PlayerInformation {
        self.players.value_of(uid as u64)
    }

    pub fn new() -> (r: Self)
        ensures
            r.wf(),
            r.players.entries@.len() == 0,
    {
        Players { players: IdMap::new() }
    }

    /// Insert or replace one player's record.
    pub fn put(&mut self, uid: u32, player: PlayerInformation)
        requires
            old(self).wf(),
            player.wf(),
        ensures
            final(self).wf(),
            final(self).has_player(uid),
            final(self).player_of(uid) == player,
            forall|u2: u32|
                u2 != uid ==> (final(self).has_player(u2) == old(self).has_player(u2) && (old(
                    self,
                ).has_player(u2) ==> final(self).player_of(u2) == old(self).player_of(u2))),
    {
        let ghost orig = self.players.entries@;
        let ghost p = player;
        self.players.set(uid as u64, player);
        proof {
            assert forall|i: int|
                0 <= i < self.players.entries@.len() implies (#[trigger] self.players.entries@[i]).1.wf() by {
                if crate::idmap::seq_has_key(orig, uid as u64) {
                    let w = crate::idmap::seq_index_of(orig, uid as u64);
                    if i == w {
                        assert(self.players.entries@[i] == (uid as u64, p));
                    } else {
                        assert(self.players.entries@[i] == orig[i]);
                        assert(orig[i].1.wf());
                    }
                } else {
                    if i == orig.len() {
                        assert(self.players.entries@[i] == (uid as u64, p));
                    } else {
                        assert(self.players.entries@[i] == orig[i]);
                        assert(orig[i].1.wf());
                    }
                }
            }
            if crate::idmap::seq_has_key(orig, uid as u64) {
                crate::idmap::lemma_seq_has_key_update(orig, uid as u64, p, 0);
            }
            assert forall|u2: u32| u2 != uid implies (self.has_player(u2) == old(
                self,
            ).has_player(u2) && (old(self).has_player(u2) ==> self.player_of(u2) == old(
                self,
            ).player_of(u2))) by {
                if crate::idmap::seq_has_key(orig, uid as u64) {
                    crate::idmap::lemma_seq_has_key_update(orig, uid as u64, p, u2 as u64);
                    let w = crate::idmap::seq_index_of(orig, uid as u64);
                    if crate::idmap::seq_has_key(orig, u2 as u64) {
                        let w2 = crate::idmap::seq_index_of(orig, u2 as u64);
                        assert(self.players.entries@[w2] == orig[w2]);
                        let w3 = crate::idmap::seq_index_of(self.players.entries@, u2 as u64);
                        assert(self.players.entries@[w3].0 == u2 as u64);
                        assert(w3 == w2);
                    }
                } else {
                    crate::idmap::lemma_seq_has_key_push(orig, (uid as u64, p), u2 as u64);
                    if crate::idmap::seq_has_key(orig, u2 as u64) {
                        let w2 = crate::idmap::seq_index_of(orig, u2 as u64);
                        assert(self.players.entries@[w2] == orig[w2]);
                        let w3 = crate::idmap::seq_index_of(self.players.entries@, u2 as u64);
                        assert(self.players.entries@[w3].0 == u2 as u64);
                        assert(w3 == w2);
                    }
                }
            }
        }
    }

    /// Look a player up; `None` exactly when the uid is unknown.
    pub fn get(&self, uid: u32) -> (r: Option<&PlayerInformation>)
        requires
            self.wf(),
        ensures
            (match r {
                Some(p) => self.has_player(uid) && *p == self.player_of(uid) && p.wf(),
                None => !self.has_player(uid),
            }),
    {
        let r = self.players.get(uid as u64);
        proof {
            if self.players.has_key(uid as u64) {
                let w = self.players.index_of(uid as u64);
                assert(self.players.entries@[w].1.wf());
            }
        }
        r
    }
}

} // verus!
