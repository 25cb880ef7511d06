//! Scripts: a descriptor made of a run of operations, each a size, an
//! opcode and operand bytes, ended by an end-of-script operation.
use vstd::prelude::*;

use crate::asset::{Asset, AssetDescriptor, AssetParseError};
use crate::bytes::{le_u32, push_u32_le, read_u32_le, u32_le_bytes};
use crate::game::AssetType;
use crate::resource::{append_bytes, VirtualResource};

pub mod ops;

use ops::{opcode_code, opcode_of, shape_entries, KnownOpcode, ScriptOpcode, ScriptOperationShape};

verus! {

/// The operations stored in `b` from `pos` on, up to and including the end
/// operation; `None` when they run past the end of `b`, an operation is
/// shorter than its own eight-byte header, or the end operation is not eight
/// bytes long.
pub open spec fn parse_operations(b: Seq<u8>, pos: int) -> Option<Seq<(u32, ScriptOpcode, Seq<u8>)>>
    decreases b.len() - pos,
{
    if pos < 0 || pos + 8 > b.len() {
        None
    } else {
        let size = le_u32(b, pos);
        let code = le_u32(b, pos + 4);
        if code == 0 {
            if size == 8 {
                Some(seq![(8u32, ScriptOpcode::Known(KnownOpcode::EndScript), Seq::<u8>::empty())])
            } else {
                None
            }
        } else if size < 8 || pos + size > b.len() {
            None
        } else {
            match parse_operations(b, pos + size) {
                Some(rest) => Some(
                    seq![(size, opcode_of(code), b.subrange(pos + 8, pos + size))] + rest,
                ),
                None => None,
            }
        }
    }
}

/// The bytes that store an operation: its length (kept to 32 bits), its
/// code, its operands.
pub open spec fn operation_bytes(opcode: ScriptOpcode, operands: Seq<u8>) -> Seq<u8> {
    u32_le_bytes(((operands.len() + 8) % 0x1_0000_0000) as u32) + u32_le_bytes(opcode_code(opcode))
        + operands
}

/// The stored sizes of `ops` added up.
pub open spec fn operations_size(ops: Seq<(u32, ScriptOpcode, Seq<u8>)>) -> int
    decreases ops.len(),
{
    if ops.len() == 0 {
        0
    } else {
        operations_size(ops.drop_last()) + ops.last().0
    }
}

/// The bytes that store `ops`, one after the other.
pub open spec fn operations_bytes(ops: Seq<(u32, ScriptOpcode, Seq<u8>)>) -> Seq<u8>
    decreases ops.len(),
{
    if ops.len() == 0 {
        Seq::empty()
    } else {
        operations_bytes(ops.drop_last()) + operation_bytes(ops.last().1, ops.last().2)
    }
}

/// Why a script could not be used.
#[derive(Debug, Clone, Copy, PartialEq, Eq, Structural)]
pub enum ScriptError {
    SizeMismatch,
    InvalidInput,
    UnsupportedOutputType,
}

/// One operation of a script.
#[derive(Debug, Clone)]
pub struct ScriptOperation {
    size: u32,
    opcode: ScriptOpcode,
    operand_bytes: Vec<u8>,
}

impl View for ScriptOperation {
    type V = (u32, ScriptOpcode, Seq<u8>);

    closed spec fn view(&self) -> (u32, ScriptOpcode, Seq<u8>) {
        (self.size, self.opcode, self.operand_bytes@)
    }
}

impl ScriptOperation {
    /// The operands of the operation's opcode, by name, in order.
    pub fn get_shape(&self) -> (r: ScriptOperationShape)
        ensures
            shape_entries(r) == match self@.1 {
                ScriptOpcode::Known(k) => ops::known_shape(k),
                ScriptOpcode::Unknown(_) => Seq::empty(),
            },
    {
        self.opcode.get_shape()
    }

    /// The size stored for the operation.
    pub fn size(&self) -> (r: u32)
        ensures
            r == self@.0,
    {
        self.size
    }

    pub fn opcode(&self) -> (r: &ScriptOpcode)
        ensures
            *r == self@.1,
    {
        &self.opcode
    }

    pub fn operand_bytes(&self) -> (r: &[u8])
        ensures
            r@ == self@.2,
    {
        self.operand_bytes.as_slice()
    }

    /// The operands, to be changed in place.
    pub fn operand_bytes_mut(&mut self) -> (r: &mut Vec<u8>)
        ensures
            (*r)@ == old(self)@.2,
            final(self)@ == (old(self)@.0, old(self)@.1, (*final(r))@),
    {
        &mut self.operand_bytes
    }

    /// The bytes that store the operation; its size is computed from its
    /// operands.
    pub fn to_bytes(&self) -> (r: Vec<u8>)
        ensures
            r@ == operation_bytes(self@.1, self@.2),
    {
        let len = self.operand_bytes.len() as u64;
        let size = ((len % 0x1_0000_0000 + 8) % 0x1_0000_0000) as u32;
        assert(size == (self@.2.len() + 8) % 0x1_0000_0000);
        let mut bytes: Vec<u8> = Vec::new();
        push_u32_le(&mut bytes, size);
        push_u32_le(&mut bytes, self.opcode.to_u32());
        append_bytes(&mut bytes, self.operand_bytes.as_slice());
        bytes
    }
}

/// The descriptor of a script: its operations, in order.
#[derive(Debug, Clone)]
pub struct ScriptDescriptor {
    operations: Vec<ScriptOperation>,
}

impl View for ScriptDescriptor {
    type V = Seq<(u32, ScriptOpcode, Seq<u8>)>;

    closed spec fn view(&self) -> Seq<(u32, ScriptOpcode, Seq<u8>)> {
        self.operations@.map_values(|o: ScriptOperation| o@)
    }
}

impl ScriptDescriptor {
    pub fn operations(&self) -> (r: &[ScriptOperation])
        ensures
            r@.map_values(|o: ScriptOperation| o@) == self@,
    {
        self.operations.as_slice()
    }

    /// The operations, to be changed in place.
    pub fn operations_mut(&mut self) -> (r: &mut Vec<ScriptOperation>)
        ensures
            (*r)@.map_values(|o: ScriptOperation| o@) == old(self)@,
            final(self)@ == (*final(r))@.map_values(|o: ScriptOperation| o@),
    {
        &mut self.operations
    }

    /// Reads the operations stored from the start of `data`.
    pub fn read(data: &[u8]) -> (r: Result<ScriptDescriptor, AssetParseError>)
        ensures
            data@.len() < 8 ==> r matches Err(AssetParseError::InputTooSmall),
            r is Ok <==> parse_operations(data@, 0) is Some,
            r matches Ok(d) ==> Some(d@) == parse_operations(data@, 0),
    {
        let n = data.len();
        if n < 8 {
            return Err(AssetParseError::InputTooSmall);
        }
        let mut operations: Vec<ScriptOperation> = Vec::new();
        let mut pos: usize = 0;
        loop
            invariant
                n == data@.len(),
                n >= 8,
                pos <= n,
                parse_operations(data@, 0) == match parse_operations(data@, pos as int) {
                    Some(rest) => Some(operations@.map_values(|o: ScriptOperation| o@) + rest),
                    None => None::<Seq<(u32, ScriptOpcode, Seq<u8>)>>,
                },
            decreases n - pos,
        {
            if n - pos < 8 {
                return Err(
                    AssetParseError::InvalidDataViews("The script ends inside an operation.".to_string()),
                );
            }
            let size = read_u32_le(data, pos);
            let code = read_u32_le(data, pos + 4);
            let ghost before = operations@.map_values(|o: ScriptOperation| o@);
            if code == 0 {
                if size == 8 {
                    let mut end: Vec<u8> = Vec::new();
                    operations.push(
                        ScriptOperation {
                            size: 8,
                            opcode: ScriptOpcode::Known(KnownOpcode::EndScript),
                            operand_bytes: end,
                        },
                    );
                    assert(operations@.map_values(|o: ScriptOperation| o@) =~= before + seq![
                        (8u32, ScriptOpcode::Known(KnownOpcode::EndScript), Seq::<u8>::empty()),
                    ]);
                    return Ok(ScriptDescriptor { operations });
                } else {
                    return Err(AssetParseError::ErrorParsingDescriptor);
                }
            }
            if size < 8 {
                return Err(AssetParseError::ErrorParsingDescriptor);
            }
            if n - pos < size as usize {
                return Err(
                    AssetParseError::InvalidDataViews("The script ends inside an operation.".to_string()),
                );
            }
            let mut operand_bytes: Vec<u8> = Vec::new();
            append_bytes(&mut operand_bytes, &data[pos + 8..pos + size as usize]);
            operations.push(ScriptOperation { size, opcode: ScriptOpcode::from_u32(code), operand_bytes });
            proof {
                let op = (size, opcode_of(code), data@.subrange(pos + 8, pos + size));
                assert(operations@.map_values(|o: ScriptOperation| o@) =~= before.push(op));
                match parse_operations(data@, pos + size) {
                    Some(rest) => {
                        assert(before + (seq![op] + rest) =~= before.push(op) + rest);
                    },
                    None => {},
                }
            }
            pos = pos + size as usize;
        }
    }

    /// The bytes that store the operations, one after the other.
    pub fn encode(&self) -> (r: Vec<u8>)
        ensures
            r@ == operations_bytes(self@),
    {
        let ghost ops = self@;
        let mut bytes: Vec<u8> = Vec::new();
        let n = self.operations.len();
        let mut i: usize = 0;
        while i < n
            invariant
                ops == self@,
                n == ops.len(),
                i <= n,
                bytes@ == operations_bytes(ops.take(i as int)),
            decreases n - i,
        {
            let b = self.operations[i].to_bytes();
            proof {
                assert(ops.take(i as int + 1).drop_last() =~= ops.take(i as int));
                assert(ops[i as int] == self.operations@[i as int]@);
            }
            append_bytes(&mut bytes, b.as_slice());
            i = i + 1;
        }
        assert(ops.take(n as int) =~= ops);
        bytes
    }

    /// The stored sizes of the operations added up, or `usize::MAX` when the
    /// sum is larger.
    pub fn total_size(&self) -> (r: usize)
        ensures
            r == if operations_size(self@) <= usize::MAX {
                operations_size(self@)
            } else {
                usize::MAX as int
            },
    {
        let ghost ops = self@;
        let n = self.operations.len();
        let mut total: usize = 0;
        let mut i: usize = 0;
        while i < n
            invariant
                ops == self@,
                n == ops.len(),
                i <= n,
                total == if operations_size(ops.take(i as int)) <= usize::MAX {
                    operations_size(ops.take(i as int))
                } else {
                    usize::MAX as int
                },
                operations_size(ops.take(i as int)) >= 0,
            decreases n - i,
        {
            proof {
                assert(ops.take(i as int + 1).drop_last() =~= ops.take(i as int));
                assert(ops[i as int] == self.operations@[i as int]@);
            }
            total = total.saturating_add(self.operations[i].size() as usize);
            i = i + 1;
        }
        assert(ops.take(n as int) =~= ops);
        total
    }
}

impl AssetDescriptor for ScriptDescriptor {
    open spec fn spec_asset_type() -> AssetType {
        AssetType::ResScript
    }

    fn from_bytes(data: &[u8]) -> (r: Result<Self, AssetParseError>) {
        ScriptDescriptor::read(data)
    }

    fn to_bytes(&self) -> (r: Result<Vec<u8>, AssetParseError>) {
        Ok(self.encode())
    }

    fn size(&self) -> (r: usize) {
        self.total_size()
    }

    fn asset_type() -> (r: AssetType) {
        AssetType::ResScript
    }
}

/// The type of one operand of a script operation.
#[derive(Debug, Clone, Copy, PartialEq, Eq, Structural)]
pub enum ScriptParamType {
    F32,
    F64,
    U8,
    I8,
    I16,
    U16,
    I32,
    U32,
    I64,
    U64,
    String(usize),
    WString(usize),
    Bytes(usize),
}

/// The type and meaning of one operand of a script operation.
#[derive(Debug)]
pub struct ScriptParamDetails {
    param_type: ScriptParamType,
    description: String,
}

impl View for ScriptParamDetails {
    type V = (ScriptParamType, Seq<char>);

    closed spec fn view(&self) -> (ScriptParamType, Seq<char>) {
        (self.param_type, self.description@)
    }
}

impl ScriptParamDetails {
    /// An operand of type `param_type`, described by `description`.
    pub fn new(param_type: ScriptParamType, description: &str) -> (r: ScriptParamDetails)
        ensures
            r@ == (param_type, description@),
    {
        ScriptParamDetails { param_type, description: description.to_owned() }
    }

    pub fn param_type(&self) -> (r: &ScriptParamType)
        ensures
            *r == self@.0,
    {
        &self.param_type
    }

    pub fn description(&self) -> (r: &str)
        ensures
            r@ == self@.1,
    {
        self.description.as_str()
    }
}

/// A script: its name, its descriptor and its bytecode resource.
#[derive(Debug)]
pub struct Script {
    name: String,
    descriptor: ScriptDescriptor,
    data: Vec<u8>,
}

impl Script {
    /// The script's bytecode.
    pub closed spec fn spec_data(&self) -> Seq<u8> {
        self.data@
    }

    /// The script called `name` with the whole of `virtual_res` as its
    /// bytecode.
    pub fn build(name: &str, descriptor: &ScriptDescriptor, virtual_res: &VirtualResource) -> (r:
        Script)
        requires
            virtual_res.wf(),
        ensures
            r.spec_data() == virtual_res.bytes(),
    {
        Script {
            name: name.to_owned(),
            descriptor: descriptor.clone(),
            data: virtual_res.get_all_bytes(),
        }
    }
}

impl Asset for Script {
    type Descriptor = ScriptDescriptor;

    fn descriptor(&self) -> (r: &ScriptDescriptor) {
        &self.descriptor
    }

    fn new(name: &str, descriptor: &ScriptDescriptor, virtual_res: &VirtualResource) -> (r: Result<
        Script,
        AssetParseError,
    >) {
        Ok(Script::build(name, descriptor, virtual_res))
    }

    fn resource_data(&self) -> (r: Vec<u8>) {
        let mut out: Vec<u8> = Vec::new();
        append_bytes(&mut out, self.data.as_slice());
        out
    }

    fn name(&self) -> (r: &str) {
        self.name.as_str()
    }
}

} // verus!
