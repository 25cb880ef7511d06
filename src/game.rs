//! The kinds of asset a container can hold.
use vstd::prelude::*;

verus! {

/// The type of an asset record, stored as a `u32` code.
#[derive(Debug, Clone, Copy, PartialEq, Eq, Structural)]
pub enum AssetType {
    ResTexture,
    ResAnim,
    ResUnknown3,
    ResModel,
    ResAnimEvents,
    ResCutscene,
    ResCutsceneEvents,
    ResMisc,
    ResActorGoals,
    ResMarker,
    ResFxCallout,
    ResAidList,
    ResLoctext,
    ResXSoundbank,
    ResXDSP,
    ResXCueList,
    ResFont,
    ResGhoulybox,
    ResGhoulyspawn,
    ResScript,
    ResActorAttribs,
    ResEmitter,
    ResParticle,
    ResRumble,
    ResShakeCam,
    ResCount,
}

/// The code that stands for `t` on disk.
pub open spec fn asset_type_code(t: AssetType) -> u32 {
    match t {
        AssetType::ResTexture => 1,
        AssetType::ResAnim => 2,
        AssetType::ResUnknown3 => 3,
        AssetType::ResModel => 4,
        AssetType::ResAnimEvents => 5,
        AssetType::ResCutscene => 7,
        AssetType::ResCutsceneEvents => 8,
        AssetType::ResMisc => 10,
        AssetType::ResActorGoals => 11,
        AssetType::ResMarker => 12,
        AssetType::ResFxCallout => 13,
        AssetType::ResAidList => 14,
        AssetType::ResLoctext => 16,
        AssetType::ResXSoundbank => 18,
        AssetType::ResXDSP => 19,
        AssetType::ResXCueList => 20,
        AssetType::ResFont => 21,
        AssetType::ResGhoulybox => 22,
        AssetType::ResGhoulyspawn => 23,
        AssetType::ResScript => 24,
        AssetType::ResActorAttribs => 25,
        AssetType::ResEmitter => 26,
        AssetType::ResParticle => 27,
        AssetType::ResRumble => 28,
        AssetType::ResShakeCam => 29,
        AssetType::ResCount => 30,
    }
}

/// The type whose code is `v`, if any.
pub open spec fn asset_type_of(v: u32) -> Option<AssetType> {
    if v == 1 {
        Some(AssetType::ResTexture)
    } else if v == 2 {
        Some(AssetType::ResAnim)
    } else if v == 3 {
        Some(AssetType::ResUnknown3)
    } else if v == 4 {
        Some(AssetType::ResModel)
    } else if v == 5 {
        Some(AssetType::ResAnimEvents)
    } else if v == 7 {
        Some(AssetType::ResCutscene)
    } else if v == 8 {
        Some(AssetType::ResCutsceneEvents)
    } else if v == 10 {
        Some(AssetType::ResMisc)
    } else if v == 11 {
        Some(AssetType::ResActorGoals)
    } else if v == 12 {
        Some(AssetType::ResMarker)
    } else if v == 13 {
        Some(AssetType::ResFxCallout)
    } else if v == 14 {
        Some(AssetType::ResAidList)
    } else if v == 16 {
        Some(AssetType::ResLoctext)
    } else if v == 18 {
        Some(AssetType::ResXSoundbank)
    } else if v == 19 {
        Some(AssetType::ResXDSP)
    } else if v == 20 {
        Some(AssetType::ResXCueList)
    } else if v == 21 {
        Some(AssetType::ResFont)
    } else if v == 22 {
        Some(AssetType::ResGhoulybox)
    } else if v == 23 {
        Some(AssetType::ResGhoulyspawn)
    } else if v == 24 {
        Some(AssetType::ResScript)
    } else if v == 25 {
        Some(AssetType::ResActorAttribs)
    } else if v == 26 {
        Some(AssetType::ResEmitter)
    } else if v == 27 {
        Some(AssetType::ResParticle)
    } else if v == 28 {
        Some(AssetType::ResRumble)
    } else if v == 29 {
        Some(AssetType::ResShakeCam)
    } else if v == 30 {
        Some(AssetType::ResCount)
    } else {
        None
    }
}

/// Decoding the code of a type gives the type back.
pub proof fn lemma_asset_type_code(t: AssetType)
    ensures
        asset_type_of(asset_type_code(t)) == Some(t),
{
}

impl AssetType {
    /// The type whose code is `v`; `None` for a code no type has.
    pub fn from_u32(v: u32) -> (r: Option<AssetType>)
        ensures
            r == asset_type_of(v),
    {
        match v {
            1 => Some(AssetType::ResTexture),
            2 => Some(AssetType::ResAnim),
            3 => Some(AssetType::ResUnknown3),
            4 => Some(AssetType::ResModel),
            5 => Some(AssetType::ResAnimEvents),
            7 => Some(AssetType::ResCutscene),
            8 => Some(AssetType::ResCutsceneEvents),
            10 => Some(AssetType::ResMisc),
            11 => Some(AssetType::ResActorGoals),
            12 => Some(AssetType::ResMarker),
            13 => Some(AssetType::ResFxCallout),
            14 => Some(AssetType::ResAidList),
            16 => Some(AssetType::ResLoctext),
            18 => Some(AssetType::ResXSoundbank),
            19 => Some(AssetType::ResXDSP),
            20 => Some(AssetType::ResXCueList),
            21 => Some(AssetType::ResFont),
            22 => Some(AssetType::ResGhoulybox),
            23 => Some(AssetType::ResGhoulyspawn),
            24 => Some(AssetType::ResScript),
            25 => Some(AssetType::ResActorAttribs),
            26 => Some(AssetType::ResEmitter),
            27 => Some(AssetType::ResParticle),
            28 => Some(AssetType::ResRumble),
            29 => Some(AssetType::ResShakeCam),
            30 => Some(AssetType::ResCount),
            _ => None,
        }
    }

    /// The code of this type.
    pub fn to_u32(&self) -> (r: u32)
        ensures
            r == asset_type_code(*self),
    {
        match self {
            AssetType::ResTexture => 1,
            AssetType::ResAnim => 2,
            AssetType::ResUnknown3 => 3,
            AssetType::ResModel => 4,
            AssetType::ResAnimEvents => 5,
            AssetType::ResCutscene => 7,
            AssetType::ResCutsceneEvents => 8,
            AssetType::ResMisc => 10,
            AssetType::ResActorGoals => 11,
            AssetType::ResMarker => 12,
            AssetType::ResFxCallout => 13,
            AssetType::ResAidList => 14,
            AssetType::ResLoctext => 16,
            AssetType::ResXSoundbank => 18,
            AssetType::ResXDSP => 19,
            AssetType::ResXCueList => 20,
            AssetType::ResFont => 21,
            AssetType::ResGhoulybox => 22,
            AssetType::ResGhoulyspawn => 23,
            AssetType::ResScript => 24,
            AssetType::ResActorAttribs => 25,
            AssetType::ResEmitter => 26,
            AssetType::ResParticle => 27,
            AssetType::ResRumble => 28,
            AssetType::ResShakeCam => 29,
            AssetType::ResCount => 30,
        }
    }
}

} // verus!
