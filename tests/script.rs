use bnl::asset::script::ops::{KnownOpcode, ScriptOpcode};
use bnl::asset::script::{ScriptDescriptor, ScriptParamType};
use bnl::asset::AssetDescriptor;

fn op(size: u32, code: u32, operands: &[u8]) -> Vec<u8> {
    let mut b = Vec::new();
    b.extend_from_slice(&size.to_le_bytes());
    b.extend_from_slice(&code.to_le_bytes());
    b.extend_from_slice(operands);
    b
}

#[test]
fn script_parses_until_end() {
    let mut bytes = op(12, 0x1a, &[0, 0, 0x80, 0x3f]);
    bytes.extend(op(9, 0x77, &[5]));
    bytes.extend(op(8, 0, &[]));
    bytes.extend([1, 2, 3]);
    let d = ScriptDescriptor::from_bytes(&bytes).unwrap();
    let ops = d.operations();
    assert_eq!(ops.len(), 3);
    assert_eq!(*ops[0].opcode(), ScriptOpcode::Known(KnownOpcode::CreateTimeLimitChallenge));
    assert_eq!(ops[0].operand_bytes(), &[0, 0, 0x80, 0x3f]);
    assert_eq!(*ops[1].opcode(), ScriptOpcode::Unknown(0x77));
    assert_eq!(*ops[2].opcode(), ScriptOpcode::Known(KnownOpcode::EndScript));
    assert_eq!(d.size(), 29);
    assert_eq!(d.to_bytes().unwrap(), bytes[..29].to_vec());
}

#[test]
fn script_errors() {
    assert!(ScriptDescriptor::from_bytes(&[8, 0, 0, 0]).is_err());
    assert!(ScriptDescriptor::from_bytes(&op(9, 0, &[0])).is_err());
    assert!(ScriptDescriptor::from_bytes(&op(4, 1, &[])).is_err());
    assert!(ScriptDescriptor::from_bytes(&op(20, 1, &[0; 4])).is_err());
    assert!(ScriptDescriptor::from_bytes(&op(12, 1, &[0; 4])).is_err());
}

#[test]
fn operation_size_follows_operands() {
    let mut bytes = op(12, 0x8d, &[1, 2, 3, 4]);
    bytes.extend(op(8, 0, &[]));
    let mut d = ScriptDescriptor::from_bytes(&bytes).unwrap();
    d.operations_mut()[0].operand_bytes_mut().push(5);
    let out = d.operations()[0].to_bytes();
    assert_eq!(out, op(13, 0x8d, &[1, 2, 3, 4, 5]));
    assert_eq!(d.operations()[0].size(), 12);
}

#[test]
fn opcode_codes_and_operand_sizes() {
    assert_eq!(ScriptOpcode::from_u32(0x2a), ScriptOpcode::Known(KnownOpcode::SpawnGhoulieWithBox));
    assert_eq!(ScriptOpcode::from_u32(0x2b), ScriptOpcode::Unknown(0x2b));
    assert_eq!(ScriptOpcode::Known(KnownOpcode::PlaySound).to_u32(), 0x8d);
    assert_eq!(KnownOpcode::SpawnGhoulieWithBox.operands_size(), 0x108);
    assert_eq!(KnownOpcode::CreateKillAllByTagChallenge.operands_size(), 0x44);
    assert_eq!(KnownOpcode::EndScript.operands_size(), 0);
}

#[test]
fn operand_shapes_in_order() {
    let shape = KnownOpcode::SetSceneName.get_shape();
    let names: Vec<&str> = shape.keys().map(|k| k.as_str()).collect();
    assert_eq!(names, vec!["scene_name", "unknown1", "unknown2", "unknown3"]);
    assert_eq!(*shape["scene_name"].param_type(), ScriptParamType::String(0x40));
    assert_eq!(shape["unknown1"].description(), "Unknown value of size 4 bytes. Suspected to be a u32.");
    assert!(KnownOpcode::EndScript.get_shape().is_empty());
    assert!(ScriptOpcode::Unknown(0x99).get_shape().is_empty());
    let spawn = ScriptOpcode::Known(KnownOpcode::SpawnGhoulieWithBox).get_shape();
    assert_eq!(spawn.len(), 3);
    assert_eq!(*spawn["spawn_count"].param_type(), ScriptParamType::U32);
}
