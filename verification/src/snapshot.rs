use crate::avatar::AvatarBundle;
use crate::common::{spec_uid_of_guid, uid_of_guid, ProtEntityType, Scalar};
use crate::idmap::IdMap;
use crate::persistence::{AvatarInformation, ItemInformation};
use crate::props::{PROP_BREAK_LEVEL, PROP_LEVEL};
use crate::transform::Vector3;
use crate::weapon::WeaponBundle;
use vstd::prelude::*;

verus! {

/// One property pair of an outbound snapshot.
#[derive(Clone, Copy, PartialEq, Eq, Structural)]
pub struct PropPair {
    pub prop_type: u64,
    pub prop_value: Scalar,
}

/// Motion block of a live snapshot.
#[derive(Clone, Copy, PartialEq, Eq, Structural)]
pub struct MotionInfo {
    pub pos: Vector3,
    pub rot: Vector3,
    pub speed: Vector3,
}

/// Placeholder block the wire contract requires present even when empty.
#[derive(Clone, Copy, PartialEq, Eq, Structural)]
pub struct AbilitySyncStateInfo {}

/// Placeholder block the wire contract requires present even when empty.
#[derive(Clone, Copy, PartialEq, Eq, Structural)]
pub struct EntityClientData {}

/// Placeholder block the wire contract requires present even when empty.
#[derive(Clone, Copy, PartialEq, Eq, Structural)]
pub struct EntityRendererChangedInfo {}

/// Placeholder avatar excel block the wire contract requires present.
#[derive(Clone, Copy, PartialEq, Eq, Structural)]
pub struct AvatarExcelInfo {}

/// Client extra block carrying only a placeholder anchor position.
#[derive(Clone, Copy, PartialEq, Eq, Structural)]
pub struct EntityClientExtraInfo {
    pub skill_anchor_position: Option<Vector3>,
}

/// Authority block of a live snapshot; semantically empty placeholders.
#[derive(Clone, Copy, PartialEq, Eq, Structural)]
pub struct EntityAuthorityInfo {
    pub ability_info: Option<AbilitySyncStateInfo>,
    pub born_pos: Option<Vector3>,
    pub client_extra_info: Option<EntityClientExtraInfo>,
}

/// One animator parameter pair; the live path sends a single placeholder.
#[derive(Clone, Copy, PartialEq, Eq, Structural)]
pub struct AnimatorParameterValueInfo {}

#[derive(Clone, Copy, PartialEq, Eq, Structural)]
pub struct AnimatorParameterValueInfoPair {
    pub name_id: u32,
    pub animator_para: Option<AnimatorParameterValueInfo>,
}

/// Weapon block of an avatar snapshot.
pub struct SceneWeaponInfo {
    pub guid: u64,
    pub entity_id: u32,
    pub gadget_id: u32,
    pub item_id: u32,
    pub level: u32,
    pub promote_level: u32,
    pub affix_map: IdMap<u32>,
    pub ability_info: Option<AbilitySyncStateInfo>,
    pub renderer_changed_info: Option<EntityRendererChangedInfo>,
}

/// Avatar payload of a snapshot.
pub struct SceneAvatarInfo {
    pub uid: u32,
    pub avatar_id: u32,
    pub guid: u64,
    pub peer_id: u32,
    pub equip_id_list: Vec<u32>,
    pub skill_depot_id: u32,
    pub talent_id_list: Vec<u32>,
    pub weapon: Option<SceneWeaponInfo>,
    pub reliquary_list: Vec<u32>,
    pub core_proud_skill_level: u32,
    pub inherent_proud_skill_list: Vec<u32>,
    pub skill_level_map: IdMap<u32>,
    pub proud_skill_extra_level_map: IdMap<u32>,
    pub server_buff_list: Vec<u32>,
    pub team_resonance_list: Vec<u32>,
    pub wearing_flycloak_id: u32,
    pub born_time: u32,
    pub costume_id: u32,
    pub trace_effect_id: u32,
    pub cur_vehicle_info: Option<u32>,
    pub excel_info: Option<AvatarExcelInfo>,
    pub anim_hash: u32,
}

/// The externally defined snapshot shape both replication paths converge on.
pub struct SceneEntityInfo {
    pub entity_type: u32,
    pub entity_id: u32,
    pub motion_info: Option<MotionInfo>,
    pub prop_list: Vec<PropPair>,
    pub fight_prop_list: Vec<PropPair>,
    pub life_state: u32,
    pub animator_para_list: Vec<AnimatorParameterValueInfoPair>,
    pub last_move_scene_time_ms: u32,
    pub last_move_reliable_seq: u32,
    pub entity_client_data: Option<EntityClientData>,
    pub entity_environment_info_list: Vec<u32>,
    pub entity_authority_info: Option<EntityAuthorityInfo>,
    pub tag_list: Vec<u32>,
    pub server_buff_list: Vec<u32>,
    pub entity: Option<SceneAvatarInfo>,
}

/// What the live path promises of its snapshot, field by field, as a
/// function of the avatar's and its weapon's component values.
pub open spec fn live_avatar_snapshot_ok(
    r: SceneEntityInfo,
    a: AvatarBundle,
    w: WeaponBundle,
) -> bool {
    &&& r.entity_type == ProtEntityType::Avatar.spec_tag()
    &&& r.entity_id == a.entity_id.0
    &&& r.motion_info == Some(
        MotionInfo {
            pos: a.transform.position,
            rot: a.transform.rotation,
            speed: Vector3 { x: 0 as Scalar, y: 0 as Scalar, z: 0 as Scalar },
        },
    )
    &&& r.prop_list@ == seq![
        PropPair { prop_type: PROP_LEVEL, prop_value: a.level.0 as Scalar },
        PropPair { prop_type: PROP_BREAK_LEVEL, prop_value: a.break_level.0 as Scalar },
    ]
    &&& r.fight_prop_list@.len() == a.fight_properties.0.entries@.len()
    &&& forall|i: int|
        0 <= i < r.fight_prop_list@.len() ==> #[trigger] r.fight_prop_list@[i] == (PropPair {
            prop_type: a.fight_properties.0.entries@[i].0,
            prop_value: a.fight_properties.0.entries@[i].1,
        })
    &&& r.life_state == a.life_state.spec_code()
    &&& r.animator_para_list@ == seq![
        AnimatorParameterValueInfoPair {
            name_id: 0,
            animator_para: Some(AnimatorParameterValueInfo {  }),
        },
    ]
    &&& r.last_move_scene_time_ms == 0
    &&& r.last_move_reliable_seq == 0
    &&& r.entity_client_data == Some(EntityClientData {  })
    &&& r.entity_environment_info_list@.len() == 0
    &&& r.entity_authority_info == Some(
        EntityAuthorityInfo {
            ability_info: Some(AbilitySyncStateInfo {  }),
            born_pos: Some(Vector3 { x: 0 as Scalar, y: 0 as Scalar, z: 0 as Scalar }),
            client_extra_info: Some(
                EntityClientExtraInfo {
                    skill_anchor_position: Some(
                        Vector3 { x: 0 as Scalar, y: 0 as Scalar, z: 0 as Scalar },
                    ),
                },
            ),
        },
    )
    &&& r.tag_list@.len() == 0
    &&& r.server_buff_list@.len() == 0
    &&& r.entity matches Some(av) && live_avatar_payload_ok(av, a, w)
}

/// The avatar payload the live path promises.
pub open spec fn live_avatar_payload_ok(av: SceneAvatarInfo, a: AvatarBundle, w: WeaponBundle) -> bool {
    &&& av.uid == a.owner_player_uid.0
    &&& av.avatar_id == a.avatar_id.0
    &&& av.guid == a.guid.0
    &&& av.peer_id == a.control_peer.0
    &&& av.equip_id_list@ == seq![w.weapon_id.0]
    &&& av.skill_depot_id == a.skill_depot.0
    &&& av.talent_id_list@.len() == 0
    &&& av.weapon matches Some(wi) && {
        &&& wi.guid == w.guid.0
        &&& wi.entity_id == w.entity_id.0
        &&& wi.gadget_id == w.gadget_id.0
        &&& wi.item_id == w.weapon_id.0
        &&& wi.level == w.level.0
        &&& wi.promote_level == w.promote_level.0
        &&& wi.affix_map.entries@ == w.affix_map.0.entries@
        &&& wi.ability_info == Some(AbilitySyncStateInfo {  })
        &&& wi.renderer_changed_info == Some(EntityRendererChangedInfo {  })
    }
    &&& av.reliquary_list@.len() == 0
    &&& av.core_proud_skill_level == 0
    &&& av.inherent_proud_skill_list@ == a.inherent_proud_skill_list.0@
    &&& av.skill_level_map.entries@ == a.skill_level_map.0.entries@
    &&& av.proud_skill_extra_level_map.entries@.len() == 0
    &&& av.server_buff_list@.len() == 0
    &&& av.team_resonance_list@.len() == 0
    &&& av.wearing_flycloak_id == a.appearance.flycloak_id
    &&& av.born_time == a.born_time.0
    &&& av.costume_id == a.appearance.costume_id
    &&& av.trace_effect_id == a.appearance.trace_effect_id
    &&& av.cur_vehicle_info is None
    &&& av.excel_info == Some(AvatarExcelInfo {  })
    &&& av.anim_hash == 0
}

/// What the fallback path promises of its snapshot, as a function of the
/// persisted avatar and weapon-item records alone. Fields unavailable
/// offline keep the wire default.
pub open spec fn fake_avatar_snapshot_ok(
    r: SceneEntityInfo,
    avatar: AvatarInformation,
    weapon: ItemInformation,
) -> bool {
    &&& r.entity_type == ProtEntityType::Avatar.spec_tag()
    &&& r.entity_id == 0
    &&& r.motion_info is None
    &&& r.prop_list@.len() == 0
    &&& r.fight_prop_list@.len() == 0
    &&& r.life_state == 0
    &&& r.animator_para_list@.len() == 0
    &&& r.last_move_scene_time_ms == 0
    &&& r.last_move_reliable_seq == 0
    &&& r.entity_client_data is None
    &&& r.entity_environment_info_list@.len() == 0
    &&& r.entity_authority_info is None
    &&& r.tag_list@.len() == 0
    &&& r.server_buff_list@.len() == 0
    &&& r.entity matches Some(av) && fake_avatar_payload_ok(av, avatar, weapon)
}

/// The avatar payload the fallback path promises.
pub open spec fn fake_avatar_payload_ok(
    av: SceneAvatarInfo,
    avatar: AvatarInformation,
    weapon: ItemInformation,
) -> bool {
    &&& av.uid == spec_uid_of_guid(avatar.guid)
    &&& av.avatar_id == avatar.avatar_id
    &&& av.guid == avatar.guid
    &&& av.peer_id == 0
    &&& av.equip_id_list@ == seq![weapon.spec_weapon_id()]
    &&& av.skill_depot_id == avatar.skill_depot_id
    &&& av.talent_id_list@.len() == 0
    &&& av.weapon matches Some(wi) && {
        &&& wi.guid == avatar.weapon_guid
        &&& wi.entity_id == 0
        &&& wi.gadget_id == 0
        &&& wi.item_id == weapon.spec_weapon_id()
        &&& wi.level == weapon.spec_level()
        &&& wi.promote_level == weapon.spec_promote_level()
        &&& wi.affix_map.entries@ == weapon.spec_affix_entries()
        &&& wi.ability_info is None
        &&& wi.renderer_changed_info is None
    }
    &&& av.reliquary_list@.len() == 0
    &&& av.core_proud_skill_level == 0
    &&& av.inherent_proud_skill_list@ == avatar.inherent_proud_skill_list@
    &&& av.skill_level_map.entries@ == avatar.skill_level_map.entries@
    &&& av.proud_skill_extra_level_map.entries@.len() == 0
    &&& av.server_buff_list@.len() == 0
    &&& av.team_resonance_list@.len() == 0
    &&& av.wearing_flycloak_id == avatar.wearing_flycloak_id
    &&& av.born_time == avatar.born_time
    &&& av.costume_id == avatar.costume_id
    &&& av.trace_effect_id == avatar.trace_effect_id
    &&& av.cur_vehicle_info is None
    &&& av.excel_info == Some(AvatarExcelInfo {  })
    &&& av.anim_hash == 0
}

/// Copy a list of plain ids.
fn copy_ids(v: &Vec<u32>) -> (r: Vec<u32>)
    ensures
        r@ == v@,
{
    let n = v.len();
    let mut out: Vec<u32> = Vec::new();
    let mut i: usize = 0;
    while i < n
        invariant
            n == v@.len(),
            i <= n,
            out@ == v@.take(i as int),
        decreases n - i,
    {
        out.push(v[i]);
        proof {
            assert(v@.take(i + 1 as int) == v@.take(i as int).push(v@[i as int]));
        }
        i += 1;
    }
    proof {
        assert(v@.take(n as int) == v@);
    }
    out
}

/// Build the live-path snapshot from a joined read-only view of an avatar
/// and its equipped weapon.
pub fn build_avatar_entity_info(avatar_data: &AvatarBundle, weapon_data: &WeaponBundle) -> (r:
    SceneEntityInfo)
    ensures
        live_avatar_snapshot_ok(r, *avatar_data, *weapon_data),
{
    let zero = Vector3 { x: 0, y: 0, z: 0 };
    let mut fight_prop_list: Vec<PropPair> = Vec::new();
    let n = avatar_data.fight_properties.0.len();
    let mut i: usize = 0;
    while i < n
        invariant
            n == avatar_data.fight_properties.0.entries@.len(),
            i <= n,
            fight_prop_list@.len() == i,
            forall|j: int|
                0 <= j < i ==> #[trigger] fight_prop_list@[j] == (PropPair {
                    prop_type: avatar_data.fight_properties.0.entries@[j].0,
                    prop_value: avatar_data.fight_properties.0.entries@[j].1,
                }),
        decreases n - i,
    {
        let p = avatar_data.fight_properties.0.pair_at(i);
        fight_prop_list.push(PropPair { prop_type: p.0, prop_value: p.1 });
        i += 1;
    }
    let weapon = SceneWeaponInfo {
        guid: weapon_data.guid.0,
        entity_id: weapon_data.entity_id.0,
        gadget_id: weapon_data.gadget_id.0,
        item_id: weapon_data.weapon_id.0,
        level: weapon_data.level.0,
        promote_level: weapon_data.promote_level.0,
        affix_map: weapon_data.affix_map.0.duplicate(),
        ability_info: Some(AbilitySyncStateInfo {  }),
        renderer_changed_info: Some(EntityRendererChangedInfo {  }),
    };
    let equip_id_list = vec![weapon_data.weapon_id.0];
    proof {
        assert(equip_id_list@ =~= seq![weapon_data.weapon_id.0]);
    }
    let avatar_info = SceneAvatarInfo {
        uid: avatar_data.owner_player_uid.0,
        avatar_id: avatar_data.avatar_id.0,
        guid: avatar_data.guid.0,
        peer_id: avatar_data.control_peer.0,
        equip_id_list,
        skill_depot_id: avatar_data.skill_depot.0,
        talent_id_list: Vec::new(),
        weapon: Some(weapon),
        reliquary_list: Vec::new(),
        core_proud_skill_level: 0,
        inherent_proud_skill_list: copy_ids(&avatar_data.inherent_proud_skill_list.0),
        skill_level_map: avatar_data.skill_level_map.0.duplicate(),
        proud_skill_extra_level_map: IdMap::new(),
        server_buff_list: Vec::new(),
        team_resonance_list: Vec::new(),
        wearing_flycloak_id: avatar_data.appearance.flycloak_id,
        born_time: avatar_data.born_time.0,
        costume_id: avatar_data.appearance.costume_id,
        trace_effect_id: avatar_data.appearance.trace_effect_id,
        cur_vehicle_info: None,
        excel_info: Some(AvatarExcelInfo {  }),
        anim_hash: 0,
    };
    let animator_para_list = vec![
        AnimatorParameterValueInfoPair {
            name_id: 0,
            animator_para: Some(AnimatorParameterValueInfo {  }),
        },
    ];
    proof {
        assert(animator_para_list@ =~= seq![
            AnimatorParameterValueInfoPair {
                name_id: 0,
                animator_para: Some(AnimatorParameterValueInfo {  }),
            },
        ]);
    }
    SceneEntityInfo {
        entity_type: ProtEntityType::Avatar.tag(),
        entity_id: avatar_data.entity_id.0,
        motion_info: Some(
            MotionInfo {
                pos: avatar_data.transform.position,
                rot: avatar_data.transform.rotation,
                speed: zero,
            },
        ),
        prop_list: vec![
            PropPair { prop_type: PROP_LEVEL, prop_value: avatar_data.level.0 as Scalar },
            PropPair {
                prop_type: PROP_BREAK_LEVEL,
                prop_value: avatar_data.break_level.0 as Scalar,
            },
        ],
        fight_prop_list,
        life_state: avatar_data.life_state.code(),
        animator_para_list,
        last_move_scene_time_ms: 0,
        last_move_reliable_seq: 0,
        entity_client_data: Some(EntityClientData {  }),
        entity_environment_info_list: Vec::new(),
        entity_authority_info: Some(
            EntityAuthorityInfo {
                ability_info: Some(AbilitySyncStateInfo {  }),
                born_pos: Some(zero),
                client_extra_info: Some(
                    EntityClientExtraInfo { skill_anchor_position: Some(zero) },
                ),
            },
        ),
        tag_list: Vec::new(),
        server_buff_list: Vec::new(),
        entity: Some(avatar_info),
    }
}

/// Build the fallback-path snapshot from a persisted avatar record and its
/// persisted weapon item record alone.
pub fn build_fake_avatar_entity_info(avatar: &AvatarInformation, weapon: &ItemInformation) -> (r:
    SceneEntityInfo)
    ensures
        fake_avatar_snapshot_ok(r, *avatar, *weapon),
{
    let ItemInformation::Weapon { weapon_id, level, promote_level, affix_map } = weapon;
    let weapon_info = SceneWeaponInfo {
        guid: avatar.weapon_guid,
        entity_id: 0,
        gadget_id: 0,
        item_id: *weapon_id,
        level: *level,
        promote_level: *promote_level,
        affix_map: affix_map.duplicate(),
        ability_info: None,
        renderer_changed_info: None,
    };
    let equip_id_list = vec![*weapon_id];
    proof {
        assert(equip_id_list@ =~= seq![*weapon_id]);
    }
    let avatar_info = SceneAvatarInfo {
        uid: uid_of_guid(avatar.guid),
        avatar_id: avatar.avatar_id,
        guid: avatar.guid,
        peer_id: 0,
        equip_id_list,
        skill_depot_id: avatar.skill_depot_id,
        talent_id_list: Vec::new(),
        weapon: Some(weapon_info),
        reliquary_list: Vec::new(),
        core_proud_skill_level: 0,
        inherent_proud_skill_list: copy_ids(&avatar.inherent_proud_skill_list),
        skill_level_map: avatar.skill_level_map.duplicate(),
        proud_skill_extra_level_map: IdMap::new(),
        server_buff_list: Vec::new(),
        team_resonance_list: Vec::new(),
        wearing_flycloak_id: avatar.wearing_flycloak_id,
        born_time: avatar.born_time,
        costume_id: avatar.costume_id,
        trace_effect_id: avatar.trace_effect_id,
        cur_vehicle_info: None,
        excel_info: Some(AvatarExcelInfo {  }),
        anim_hash: 0,
    };
    SceneEntityInfo {
        entity_type: ProtEntityType::Avatar.tag(),
        entity_id: 0,
        motion_info: None,
        prop_list: Vec::new(),
        fight_prop_list: Vec::new(),
        life_state: 0,
        animator_para_list: Vec::new(),
        last_move_scene_time_ms: 0,
        last_move_reliable_seq: 0,
        entity_client_data: None,
        entity_environment_info_list: Vec::new(),
        entity_authority_info: None,
        tag_list: Vec::new(),
        server_buff_list: Vec::new(),
        entity: Some(avatar_info),
    }
}

/// Live component values that exactly match a persisted record pair.
pub open spec fn live_matches_persisted(
    a: AvatarBundle,
    w: WeaponBundle,
    avatar: AvatarInformation,
    weapon: ItemInformation,
) -> bool {
    &&& a.avatar_id.0 == avatar.avatar_id
    &&& a.guid.0 == avatar.guid
    &&& a.owner_player_uid.0 == spec_uid_of_guid(avatar.guid)
    &&& a.skill_depot.0 == avatar.skill_depot_id
    &&& a.inherent_proud_skill_list.0@ == avatar.inherent_proud_skill_list@
    &&& a.skill_level_map.0.entries@ == avatar.skill_level_map.entries@
    &&& a.appearance.flycloak_id == avatar.wearing_flycloak_id
    &&& a.born_time.0 == avatar.born_time
    &&& a.appearance.costume_id == avatar.costume_id
    &&& a.appearance.trace_effect_id == avatar.trace_effect_id
    &&& w.guid.0 == avatar.weapon_guid
    &&& w.weapon_id.0 == weapon.spec_weapon_id()
    &&& w.level.0 == weapon.spec_level()
    &&& w.promote_level.0 == weapon.spec_promote_level()
    &&& w.affix_map.0.entries@ == weapon.spec_affix_entries()
}

/// The fields both replication paths define agree between two snapshots.
pub open spec fn common_fields_agree(ri: SceneEntityInfo, rf: SceneEntityInfo) -> bool {
    &&& ri.entity_type == rf.entity_type
    &&& ri.entity matches Some(ai) && rf.entity matches Some(af) && {
        &&& ai.uid == af.uid
        &&& ai.avatar_id == af.avatar_id
        &&& ai.guid == af.guid
        &&& ai.equip_id_list@ == af.equip_id_list@
        &&& ai.skill_depot_id == af.skill_depot_id
        &&& ai.talent_id_list@ == af.talent_id_list@
        &&& ai.weapon matches Some(wi) && af.weapon matches Some(wf) && {
            &&& wi.guid == wf.guid
            &&& wi.item_id == wf.item_id
            &&& wi.level == wf.level
            &&& wi.promote_level == wf.promote_level
            &&& wi.affix_map.entries@ == wf.affix_map.entries@
        }
        &&& ai.reliquary_list@ == af.reliquary_list@
        &&& ai.core_proud_skill_level == af.core_proud_skill_level
        &&& ai.inherent_proud_skill_list@ == af.inherent_proud_skill_list@
        &&& ai.skill_level_map.entries@ == af.skill_level_map.entries@
        &&& ai.proud_skill_extra_level_map.entries@ == af.proud_skill_extra_level_map.entries@
        &&& ai.server_buff_list@ == af.server_buff_list@
        &&& ai.team_resonance_list@ == af.team_resonance_list@
        &&& ai.wearing_flycloak_id == af.wearing_flycloak_id
        &&& ai.born_time == af.born_time
        &&& ai.costume_id == af.costume_id
        &&& ai.trace_effect_id == af.trace_effect_id
        &&& ai.cur_vehicle_info == af.cur_vehicle_info
        &&& ai.excel_info == af.excel_info
        &&& ai.anim_hash == af.anim_hash
    }
}

/// For any actor whose live component values exactly match its persisted
/// record, the live-path and fallback-path snapshots agree on every field
/// both paths define.
pub proof fn lemma_live_fallback_snapshots_agree(
    ri: SceneEntityInfo,
    rf: SceneEntityInfo,
    a: AvatarBundle,
    w: WeaponBundle,
    avatar: AvatarInformation,
    weapon: ItemInformation,
)
    requires
        live_avatar_snapshot_ok(ri, a, w),
        fake_avatar_snapshot_ok(rf, avatar, weapon),
        live_matches_persisted(a, w, avatar, weapon),
    ensures
        common_fields_agree(ri, rf),
{
    let ai = ri.entity->Some_0;
    let af = rf.entity->Some_0;
    assert(ai.equip_id_list@ == af.equip_id_list@);
    assert(ai.talent_id_list@ =~= af.talent_id_list@);
    assert(ai.reliquary_list@ =~= af.reliquary_list@);
    assert(ai.proud_skill_extra_level_map.entries@ =~= af.proud_skill_extra_level_map.entries@);
    assert(ai.server_buff_list@ =~= af.server_buff_list@);
    assert(ai.team_resonance_list@ =~= af.team_resonance_list@);
}

/// Recipient of an outbound message.
#[derive(Clone, Copy, Debug, PartialEq, Eq, Structural)]
pub enum Recipient {
    AllPlayers,
    Player(u32),
}

/// An avatar changed its costume.
pub struct AvatarChangeCostumeNotify {
    pub entity_info: Option<SceneEntityInfo>,
}

/// An avatar changed its trace effect.
pub struct AvatarChangeTraceEffectNotify {
    pub entity_info: Option<SceneEntityInfo>,
}

/// Wire code of the "met by sight" appearance reason.
pub const VISION_TYPE_MEET: u32 = 1;

/// A batch of entities entered client view.
pub struct SceneEntityAppearNotify {
    pub appear_type: u32,
    pub param: u32,
    pub entity_list: Vec<SceneEntityInfo>,
}

/// The notifications this core emits.
pub enum SceneNotify {
    ChangeCostume(AvatarChangeCostumeNotify),
    ChangeTraceEffect(AvatarChangeTraceEffectNotify),
    EntityAppear(SceneEntityAppearNotify),
}

/// A notification addressed to its recipients; the message bus that carries
/// it is outside this core.
pub struct OutboundMessage {
    pub recipient: Recipient,
    pub notify: SceneNotify,
}

} // verus!
