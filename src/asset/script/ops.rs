//! Script opcodes.
use vstd::prelude::*;

use indexmap::IndexMap;

use crate::asset::script::{ScriptParamDetails, ScriptParamType};

verus! {

/// An opcode: one whose meaning is known, or a raw code.
#[derive(Debug, Clone, Copy, PartialEq, Eq, Structural)]
pub enum ScriptOpcode {
    Known(KnownOpcode),
    Unknown(u32),
}

/// The opcodes whose meaning is known.
#[derive(Debug, Clone, Copy, PartialEq, Eq, Structural)]
pub enum KnownOpcode {
    EndScript,
    SetBackground,
    SetSceneName,
    CreateTimeLimitChallenge,
    CreateKillAllByTagChallenge,
    CreateFindTheGhoulieKeyChallenge,
    SpawnGhoulieWithBox,
    CreateWeaponsOnlyChallenge,
    CreateFindTheKeyChallenge,
    CreateNoBreakHouseChallenge,
    PlayWalkinCutscene,
    PlaySound,
}

/// The code of a known opcode.
pub open spec fn known_opcode_code(k: KnownOpcode) -> u32 {
    match k {
        KnownOpcode::EndScript => 0x0,
        KnownOpcode::SetBackground => 0x1,
        KnownOpcode::SetSceneName => 0xa,
        KnownOpcode::CreateTimeLimitChallenge => 0x1a,
        KnownOpcode::CreateKillAllByTagChallenge => 0x1c,
        KnownOpcode::CreateFindTheGhoulieKeyChallenge => 0x1f,
        KnownOpcode::SpawnGhoulieWithBox => 0x2a,
        KnownOpcode::CreateWeaponsOnlyChallenge => 0x23,
        KnownOpcode::CreateFindTheKeyChallenge => 0x27,
        KnownOpcode::CreateNoBreakHouseChallenge => 0x28,
        KnownOpcode::PlayWalkinCutscene => 0x53,
        KnownOpcode::PlaySound => 0x8d,
    }
}

/// The known opcode with code `v`, if any.
pub open spec fn known_opcode_of(v: u32) -> Option<KnownOpcode> {
    if v == 0x0 {
        Some(KnownOpcode::EndScript)
    } else if v == 0x1 {
        Some(KnownOpcode::SetBackground)
    } else if v == 0xa {
        Some(KnownOpcode::SetSceneName)
    } else if v == 0x1a {
        Some(KnownOpcode::CreateTimeLimitChallenge)
    } else if v == 0x1c {
        Some(KnownOpcode::CreateKillAllByTagChallenge)
    } else if v == 0x1f {
        Some(KnownOpcode::CreateFindTheGhoulieKeyChallenge)
    } else if v == 0x2a {
        Some(KnownOpcode::SpawnGhoulieWithBox)
    } else if v == 0x23 {
        Some(KnownOpcode::CreateWeaponsOnlyChallenge)
    } else if v == 0x27 {
        Some(KnownOpcode::CreateFindTheKeyChallenge)
    } else if v == 0x28 {
        Some(KnownOpcode::CreateNoBreakHouseChallenge)
    } else if v == 0x53 {
        Some(KnownOpcode::PlayWalkinCutscene)
    } else if v == 0x8d {
        Some(KnownOpcode::PlaySound)
    } else {
        None
    }
}

/// The opcode that code `v` stands for.
pub open spec fn opcode_of(v: u32) -> ScriptOpcode {
    match known_opcode_of(v) {
        Some(k) => ScriptOpcode::Known(k),
        None => ScriptOpcode::Unknown(v),
    }
}

/// The code of an opcode.
pub open spec fn opcode_code(op: ScriptOpcode) -> u32 {
    match op {
        ScriptOpcode::Known(k) => known_opcode_code(k),
        ScriptOpcode::Unknown(v) => v,
    }
}

impl KnownOpcode {
    /// The known opcode with code `v`, if any.
    pub fn from_u32(v: u32) -> (r: Option<KnownOpcode>)
        ensures
            r == known_opcode_of(v),
    {
        match v {
            0x0 => Some(KnownOpcode::EndScript),
            0x1 => Some(KnownOpcode::SetBackground),
            0xa => Some(KnownOpcode::SetSceneName),
            0x1a => Some(KnownOpcode::CreateTimeLimitChallenge),
            0x1c => Some(KnownOpcode::CreateKillAllByTagChallenge),
            0x1f => Some(KnownOpcode::CreateFindTheGhoulieKeyChallenge),
            0x2a => Some(KnownOpcode::SpawnGhoulieWithBox),
            0x23 => Some(KnownOpcode::CreateWeaponsOnlyChallenge),
            0x27 => Some(KnownOpcode::CreateFindTheKeyChallenge),
            0x28 => Some(KnownOpcode::CreateNoBreakHouseChallenge),
            0x53 => Some(KnownOpcode::PlayWalkinCutscene),
            0x8d => Some(KnownOpcode::PlaySound),
            _ => None,
        }
    }

    /// The code of this opcode.
    pub fn to_u32(&self) -> (r: u32)
        ensures
            r == known_opcode_code(*self),
    {
        match self {
            KnownOpcode::EndScript => 0x0,
            KnownOpcode::SetBackground => 0x1,
            KnownOpcode::SetSceneName => 0xa,
            KnownOpcode::CreateTimeLimitChallenge => 0x1a,
            KnownOpcode::CreateKillAllByTagChallenge => 0x1c,
            KnownOpcode::CreateFindTheGhoulieKeyChallenge => 0x1f,
            KnownOpcode::SpawnGhoulieWithBox => 0x2a,
            KnownOpcode::CreateWeaponsOnlyChallenge => 0x23,
            KnownOpcode::CreateFindTheKeyChallenge => 0x27,
            KnownOpcode::CreateNoBreakHouseChallenge => 0x28,
            KnownOpcode::PlayWalkinCutscene => 0x53,
            KnownOpcode::PlaySound => 0x8d,
        }
    }

    /// The bytes of operands that follow this opcode.
    pub fn operands_size(&self) -> (r: usize)
        ensures
            r == match self {
                KnownOpcode::EndScript => 0x00,
                KnownOpcode::CreateTimeLimitChallenge => 0x4,
                KnownOpcode::CreateKillAllByTagChallenge => 0x40 + 0x4,
                KnownOpcode::CreateFindTheGhoulieKeyChallenge
                | KnownOpcode::CreateFindTheKeyChallenge
                | KnownOpcode::CreateNoBreakHouseChallenge
                | KnownOpcode::CreateWeaponsOnlyChallenge => 0x00,
                KnownOpcode::SetBackground => 0x80,
                KnownOpcode::SetSceneName => 0x48,
                KnownOpcode::SpawnGhoulieWithBox => 0x108,
                KnownOpcode::PlayWalkinCutscene => 0x80,
                KnownOpcode::PlaySound => 0x80,
            },
    {
        match self {
            KnownOpcode::EndScript => 0x00,
            KnownOpcode::CreateTimeLimitChallenge => 0x4,
            KnownOpcode::CreateKillAllByTagChallenge => 0x40 + 0x4,
            KnownOpcode::CreateFindTheGhoulieKeyChallenge
            | KnownOpcode::CreateFindTheKeyChallenge
            | KnownOpcode::CreateNoBreakHouseChallenge
            | KnownOpcode::CreateWeaponsOnlyChallenge => 0x00,
            KnownOpcode::SetBackground => 0x80,
            KnownOpcode::SetSceneName => 0x48,
            KnownOpcode::SpawnGhoulieWithBox => 0x108,
            KnownOpcode::PlayWalkinCutscene => 0x80,
            KnownOpcode::PlaySound => 0x80,
        }
    }
}

impl ScriptOpcode {
    /// The opcode that code `v` stands for.
    pub fn from_u32(v: u32) -> (r: ScriptOpcode)
        ensures
            r == opcode_of(v),
    {
        match KnownOpcode::from_u32(v) {
            Some(k) => ScriptOpcode::Known(k),
            None => ScriptOpcode::Unknown(v),
        }
    }

    /// The code of this opcode.
    pub fn to_u32(&self) -> (r: u32)
        ensures
            r == opcode_code(*self),
    {
        match self {
            ScriptOpcode::Known(k) => k.to_u32(),
            ScriptOpcode::Unknown(v) => *v,
        }
    }
}

/// The operands of an operation, by name, in order.
pub type ScriptOperationShape = IndexMap<String, ScriptParamDetails>;

#[verifier::external_type_specification]
#[verifier::external_body]
#[verifier::reject_recursive_types(K)]
#[verifier::reject_recursive_types(V)]
#[verifier::reject_recursive_types(S)]
pub struct ExIndexMap<K, V, S>(IndexMap<K, V, S>);

/// What a shape holds: each operand's name with its type and description,
/// in insertion order.
pub uninterp spec fn shape_entries(m: ScriptOperationShape) -> Seq<
    (Seq<char>, (ScriptParamType, Seq<char>)),
>;

/// Relies on `indexmap::IndexMap::new`: a map with no entry.
#[verifier::external_body]
fn empty_shape() -> (r: ScriptOperationShape)
    ensures
        shape_entries(r) == Seq::<(Seq<char>, (ScriptParamType, Seq<char>))>::empty(),
{
    IndexMap::new()
}

/// Relies on `indexmap::IndexMap::insert`: an existing key keeps its place
/// and takes the new value; a new key goes last.
#[verifier::external_body]
fn shape_insert(m: &mut ScriptOperationShape, key: String, value: ScriptParamDetails)
    ensures
        forall|j: int|
            0 <= j < shape_entries(*old(m)).len() && (#[trigger] shape_entries(*old(m))[j]).0
                == key@ ==> shape_entries(*final(m)) == shape_entries(*old(m)).update(
                j,
                (key@, value@),
            ),
        (forall|j: int|
            0 <= j < shape_entries(*old(m)).len() ==> (#[trigger] shape_entries(*old(m))[j]).0
                != key@) ==> shape_entries(*final(m)) == shape_entries(*old(m)).push(
            (key@, value@),
        ),
{
    m.insert(key, value);
}

/// The operands of a known opcode: name, type and description, in order.
pub open spec fn known_shape(op: KnownOpcode) -> Seq<(Seq<char>, (ScriptParamType, Seq<char>))> {
    match op {
        KnownOpcode::SetBackground => seq![
                ("background_aid"@, (ScriptParamType::String(0x80), "The asset ID of the background to be loaded at the beginning of the scene."@)),
            ],
        KnownOpcode::SetSceneName => seq![
                ("scene_name"@, (ScriptParamType::String(0x40), "The name of the current scene as a string (eg. Scummy Scullery)"@)),
                ("unknown1"@, (ScriptParamType::Bytes(4), "Unknown value of size 4 bytes. Suspected to be a u32."@)),
                ("unknown2"@, (ScriptParamType::Bytes(4), "Unknown value of size 4 bytes. Suspected to be a f32."@)),
                ("unknown3"@, (ScriptParamType::Bytes(4), "Unknown value of size 4 bytes. Suspected to be a f32."@)),
            ],
        KnownOpcode::CreateTimeLimitChallenge => seq![
                ("duration"@, (ScriptParamType::F32, "The duration of the timer in the challenge."@)),
            ],
        KnownOpcode::SpawnGhoulieWithBox => seq![
                ("ghoulybox_aid"@, (ScriptParamType::String(0x80), "The asset ID of the ghoulybox that will be spawned."@)),
                ("spawn_count"@, (ScriptParamType::U32, "The number of entities spawned? (Not 100% sure on this)"@)),
                ("actor_attribs_aid"@, (ScriptParamType::String(0x80), "The asset ID of the actor attribs asset that will be used."@)),
            ],
        KnownOpcode::PlayWalkinCutscene => seq![
                ("cutscene_aid"@, (ScriptParamType::String(0x80), "The asset ID of the cutscene to be played on room walk in (eg. aid_cutscene_ghoulies_roomwalkins_walkina)"@)),
            ],
        KnownOpcode::PlaySound => seq![
                ("soundbank_id"@, (ScriptParamType::String(0x80), "The soundbank ID of the audio to be played. (eg. XACT_SOUNDBANK_GZOMBIE_DISAPPOINTED)"@)),
            ],
        KnownOpcode::CreateKillAllByTagChallenge => seq![
                ("actor_tag"@, (ScriptParamType::String(0x40), "The tag of the actor which must be killed in the challenge. (eg. objTag_Actor_Zombie)"@)),
                ("unknownU32"@, (ScriptParamType::U32, "Unknown U32 value. Has a value of 1 typically even for kill all challenges."@)),
            ],
        _ => Seq::empty(),
    }
}

impl KnownOpcode {
    /// The operands of this opcode, by name, in order.
    pub fn get_shape(&self) -> (r: ScriptOperationShape)
        ensures
            shape_entries(r) == known_shape(*self),
    {
        let mut map = empty_shape();
        match self {
            KnownOpcode::SetBackground => {
                shape_insert(
                    &mut map,
                    "background_aid".to_owned(),
                    ScriptParamDetails::new(
                        ScriptParamType::String(0x80),
                        "The asset ID of the background to be loaded at the beginning of the scene.",
                    ),
                );
                assert(shape_entries(map) =~= known_shape(*self).take(1));
            },
            KnownOpcode::SetSceneName => {
                shape_insert(
                    &mut map,
                    "scene_name".to_owned(),
                    ScriptParamDetails::new(
                        ScriptParamType::String(0x40),
                        "The name of the current scene as a string (eg. Scummy Scullery)",
                    ),
                );
                assert(shape_entries(map) =~= known_shape(*self).take(1));
                assert("scene_name"@ != "unknown1"@) by {
                    reveal_strlit("scene_name");
                    reveal_strlit("unknown1");
                    assert("scene_name"@.len() != "unknown1"@.len());
                }
                assert(forall|j: int|
                    0 <= j < shape_entries(map).len() ==> shape_entries(map)[j].0 != "unknown1"@);
                shape_insert(
                    &mut map,
                    "unknown1".to_owned(),
                    ScriptParamDetails::new(
                        ScriptParamType::Bytes(4),
                        "Unknown value of size 4 bytes. Suspected to be a u32.",
                    ),
                );
                assert(shape_entries(map) =~= known_shape(*self).take(2));
                assert("scene_name"@ != "unknown2"@) by {
                    reveal_strlit("scene_name");
                    reveal_strlit("unknown2");
                    assert("scene_name"@.len() != "unknown2"@.len());
                }
                assert("unknown1"@ != "unknown2"@) by {
                    reveal_strlit("unknown1");
                    reveal_strlit("unknown2");
                    assert("unknown1"@[7] != "unknown2"@[7]);
                }
                assert(forall|j: int|
                    0 <= j < shape_entries(map).len() ==> shape_entries(map)[j].0 != "unknown2"@);
                shape_insert(
                    &mut map,
                    "unknown2".to_owned(),
                    ScriptParamDetails::new(
                        ScriptParamType::Bytes(4),
                        "Unknown value of size 4 bytes. Suspected to be a f32.",
                    ),
                );
                assert(shape_entries(map) =~= known_shape(*self).take(3));
                assert("scene_name"@ != "unknown3"@) by {
                    reveal_strlit("scene_name");
                    reveal_strlit("unknown3");
                    assert("scene_name"@.len() != "unknown3"@.len());
                }
                assert("unknown1"@ != "unknown3"@) by {
                    reveal_strlit("unknown1");
                    reveal_strlit("unknown3");
                    assert("unknown1"@[7] != "unknown3"@[7]);
                }
                assert("unknown2"@ != "unknown3"@) by {
                    reveal_strlit("unknown2");
                    reveal_strlit("unknown3");
                    assert("unknown2"@[7] != "unknown3"@[7]);
                }
                assert(forall|j: int|
                    0 <= j < shape_entries(map).len() ==> shape_entries(map)[j].0 != "unknown3"@);
                shape_insert(
                    &mut map,
                    "unknown3".to_owned(),
                    ScriptParamDetails::new(
                        ScriptParamType::Bytes(4),
                        "Unknown value of size 4 bytes. Suspected to be a f32.",
                    ),
                );
                assert(shape_entries(map) =~= known_shape(*self).take(4));
            },
            KnownOpcode::CreateTimeLimitChallenge => {
                shape_insert(
                    &mut map,
                    "duration".to_owned(),
                    ScriptParamDetails::new(
                        ScriptParamType::F32,
                        "The duration of the timer in the challenge.",
                    ),
                );
                assert(shape_entries(map) =~= known_shape(*self).take(1));
            },
            KnownOpcode::SpawnGhoulieWithBox => {
                shape_insert(
                    &mut map,
                    "ghoulybox_aid".to_owned(),
                    ScriptParamDetails::new(
                        ScriptParamType::String(0x80),
                        "The asset ID of the ghoulybox that will be spawned.",
                    ),
                );
                assert(shape_entries(map) =~= known_shape(*self).take(1));
                assert("ghoulybox_aid"@ != "spawn_count"@) by {
                    reveal_strlit("ghoulybox_aid");
                    reveal_strlit("spawn_count");
                    assert("ghoulybox_aid"@.len() != "spawn_count"@.len());
                }
                assert(forall|j: int|
                    0 <= j < shape_entries(map).len() ==> shape_entries(map)[j].0 != "spawn_count"@);
                shape_insert(
                    &mut map,
                    "spawn_count".to_owned(),
                    ScriptParamDetails::new(
                        ScriptParamType::U32,
                        "The number of entities spawned? (Not 100% sure on this)",
                    ),
                );
                assert(shape_entries(map) =~= known_shape(*self).take(2));
                assert("ghoulybox_aid"@ != "actor_attribs_aid"@) by {
                    reveal_strlit("ghoulybox_aid");
                    reveal_strlit("actor_attribs_aid");
                    assert("ghoulybox_aid"@.len() != "actor_attribs_aid"@.len());
                }
                assert("spawn_count"@ != "actor_attribs_aid"@) by {
                    reveal_strlit("spawn_count");
                    reveal_strlit("actor_attribs_aid");
                    assert("spawn_count"@.len() != "actor_attribs_aid"@.len());
                }
                assert(forall|j: int|
                    0 <= j < shape_entries(map).len() ==> shape_entries(map)[j].0 != "actor_attribs_aid"@);
                shape_insert(
                    &mut map,
                    "actor_attribs_aid".to_owned(),
                    ScriptParamDetails::new(
                        ScriptParamType::String(0x80),
                        "The asset ID of the actor attribs asset that will be used.",
                    ),
                );
                assert(shape_entries(map) =~= known_shape(*self).take(3));
            },
            KnownOpcode::PlayWalkinCutscene => {
                shape_insert(
                    &mut map,
                    "cutscene_aid".to_owned(),
                    ScriptParamDetails::new(
                        ScriptParamType::String(0x80),
                        "The asset ID of the cutscene to be played on room walk in (eg. aid_cutscene_ghoulies_roomwalkins_walkina)",
                    ),
                );
                assert(shape_entries(map) =~= known_shape(*self).take(1));
            },
            KnownOpcode::PlaySound => {
                shape_insert(
                    &mut map,
                    "soundbank_id".to_owned(),
                    ScriptParamDetails::new(
                        ScriptParamType::String(0x80),
                        "The soundbank ID of the audio to be played. (eg. XACT_SOUNDBANK_GZOMBIE_DISAPPOINTED)",
                    ),
                );
                assert(shape_entries(map) =~= known_shape(*self).take(1));
            },
            KnownOpcode::CreateKillAllByTagChallenge => {
                shape_insert(
                    &mut map,
                    "actor_tag".to_owned(),
                    ScriptParamDetails::new(
                        ScriptParamType::String(0x40),
                        "The tag of the actor which must be killed in the challenge. (eg. objTag_Actor_Zombie)",
                    ),
                );
                assert(shape_entries(map) =~= known_shape(*self).take(1));
                assert("actor_tag"@ != "unknownU32"@) by {
                    reveal_strlit("actor_tag");
                    reveal_strlit("unknownU32");
                    assert("actor_tag"@.len() != "unknownU32"@.len());
                }
                assert(forall|j: int|
                    0 <= j < shape_entries(map).len() ==> shape_entries(map)[j].0 != "unknownU32"@);
                shape_insert(
                    &mut map,
                    "unknownU32".to_owned(),
                    ScriptParamDetails::new(
                        ScriptParamType::U32,
                        "Unknown U32 value. Has a value of 1 typically even for kill all challenges.",
                    ),
                );
                assert(shape_entries(map) =~= known_shape(*self).take(2));
            },
            _ => {},
        }
        proof {
            assert(shape_entries(map) =~= known_shape(*self));
        }
        map
    }
}

impl ScriptOpcode {
    /// The operands of this opcode; an unknown opcode has none.
    pub fn get_shape(&self) -> (r: ScriptOperationShape)
        ensures
            shape_entries(r) == match self {
                ScriptOpcode::Known(k) => known_shape(*k),
                ScriptOpcode::Unknown(_) => Seq::empty(),
            },
    {
        match self {
            ScriptOpcode::Known(known_opcode) => known_opcode.get_shape(),
            ScriptOpcode::Unknown(_) => empty_shape(),
        }
    }
}

} // verus!
