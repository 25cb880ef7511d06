//! Asset records, the raw and typed assets they lead to, and the interface
//! that per-type codecs implement.
use vstd::prelude::*;
use vstd::string::StringSliceAdditionalSpecFns;
use vstd::utf8::encode_utf8;

use crate::bytes::{le_u32, lemma_le_u32_at, push_u32_le, read_u32_le, u32_le_bytes};
use crate::game::{asset_type_code, asset_type_of, lemma_asset_type_code, AssetType};
use crate::resource::VirtualResource;
use crate::text::{name_bytes, name_is, name_text};

verus! {

/// Bytes of one asset record.
pub const ASSET_DESCRIPTION_SIZE: usize = 0xa0;

/// Bytes of the name field of an asset record.
pub const ASSET_NAME_SIZE: usize = 0x80;

/// An asset as stored: its name, type, descriptor bytes and the bytes of each
/// range of its resource.
#[derive(Debug, Clone)]
pub struct RawAsset {
    pub name: String,
    pub asset_type: AssetType,
    pub descriptor_bytes: Vec<u8>,
    pub data_slices: Vec<Vec<u8>>,
}

/// Why a typed asset could not be built.
#[derive(Debug)]
pub enum AssetParseError {
    /// There is no codec for this kind of asset.
    ParserNotImplemented,
    /// The descriptor bytes are not a valid descriptor.
    ErrorParsingDescriptor,
    /// Fewer bytes than the structure needs.
    InputTooSmall,
    /// The asset's ranges or resource could not be used.
    InvalidDataViews(String),
}

/// Why an asset could not be read or updated.
#[derive(Debug)]
pub enum AssetError {
    /// The asset was found, but could not be built from the container's bytes.
    ParseError(AssetParseError),
    /// The asset was found, but is of another type than the one asked for.
    TypeMismatch,
    /// No asset has the name asked for.
    NotFound,
    /// The new descriptor is longer than the space the old one occupies.
    DescriptorGrowthUnsupported,
    /// The new resource bytes differ in length from the resource they replace.
    SizeMismatch,
}

/// The descriptor of one kind of asset: how to read its resource, and its
/// attributes. Implemented by each per-type codec.
pub trait AssetDescriptor: Sized + Clone {
    /// The kind of asset this descriptor belongs to.
    spec fn spec_asset_type() -> AssetType;

    /// Reads a descriptor from the start of `data`.
    fn from_bytes(data: &[u8]) -> (r: Result<Self, AssetParseError>);

    /// The bytes that store this descriptor.
    fn to_bytes(&self) -> (r: Result<Vec<u8>, AssetParseError>);

    /// The number of bytes that store this descriptor.
    fn size(&self) -> (r: usize);

    /// The kind of asset this descriptor belongs to.
    fn asset_type() -> (r: AssetType)
        ensures
            r == Self::spec_asset_type(),
    ;
}

/// A typed asset built from its descriptor and its resource.
pub trait Asset: Sized {
    type Descriptor: AssetDescriptor;

    /// The asset's descriptor.
    fn descriptor(&self) -> (r: &Self::Descriptor);

    /// Builds the asset called `name` from its descriptor and resource.
    fn new(name: &str, descriptor: &Self::Descriptor, virtual_res: &VirtualResource) -> (r: Result<
        Self,
        AssetParseError,
    >)
        requires
            virtual_res.wf(),
    ;

    /// The asset's resource bytes, as they would be written back.
    fn resource_data(&self) -> (r: Vec<u8>);

    /// The asset's name.
    fn name(&self) -> (r: &str);

    /// The kind of asset this is: that of its descriptor.
    fn asset_type() -> (r: AssetType)
        ensures
            r == Self::Descriptor::spec_asset_type(),
    {
        Self::Descriptor::asset_type()
    }
}

/// The fields of an asset record, with its row in the table.
pub struct AssetDescriptionView {
    pub name: Seq<u8>,
    pub asset_type: AssetType,
    pub unk_1: u32,
    pub unk_2: u32,
    pub chunk_count: u32,
    pub descriptor_ptr: u32,
    pub descriptor_size: u32,
    pub dataview_list_ptr: u32,
    pub resource_size: u32,
    pub index: usize,
}

/// The record stored in the first 160 bytes of `b`, placed at row `index`;
/// `None` when `b` is shorter or its type code is unknown.
pub open spec fn parse_asset_description(b: Seq<u8>, index: usize) -> Option<AssetDescriptionView> {
    if b.len() < ASSET_DESCRIPTION_SIZE {
        None
    } else {
        match asset_type_of(le_u32(b, 128)) {
            None => None,
            Some(t) => Some(
                AssetDescriptionView {
                    name: b.take(ASSET_NAME_SIZE as int),
                    asset_type: t,
                    unk_1: le_u32(b, 132),
                    unk_2: le_u32(b, 136),
                    chunk_count: le_u32(b, 140),
                    descriptor_ptr: le_u32(b, 144),
                    descriptor_size: le_u32(b, 148),
                    dataview_list_ptr: le_u32(b, 152),
                    resource_size: le_u32(b, 156),
                    index,
                },
            ),
        }
    }
}

/// The 160 bytes that store `d`.
pub open spec fn asset_description_bytes(d: AssetDescriptionView) -> Seq<u8> {
    d.name + u32_le_bytes(asset_type_code(d.asset_type)) + u32_le_bytes(d.unk_1) + u32_le_bytes(
        d.unk_2,
    ) + u32_le_bytes(d.chunk_count) + u32_le_bytes(d.descriptor_ptr) + u32_le_bytes(
        d.descriptor_size,
    ) + u32_le_bytes(d.dataview_list_ptr) + u32_le_bytes(d.resource_size)
}

/// Reading back a stored record gives the record.
pub proof fn lemma_asset_description_round_trip(d: AssetDescriptionView)
    requires
        d.name.len() == ASSET_NAME_SIZE,
    ensures
        asset_description_bytes(d).len() == ASSET_DESCRIPTION_SIZE,
        parse_asset_description(asset_description_bytes(d), d.index) == Some(d),
{
    let b = asset_description_bytes(d);
    assert(b.len() == 160);
    assert(b.subrange(128, 132) =~= u32_le_bytes(asset_type_code(d.asset_type)));
    assert(b.subrange(132, 136) =~= u32_le_bytes(d.unk_1));
    assert(b.subrange(136, 140) =~= u32_le_bytes(d.unk_2));
    assert(b.subrange(140, 144) =~= u32_le_bytes(d.chunk_count));
    assert(b.subrange(144, 148) =~= u32_le_bytes(d.descriptor_ptr));
    assert(b.subrange(148, 152) =~= u32_le_bytes(d.descriptor_size));
    assert(b.subrange(152, 156) =~= u32_le_bytes(d.dataview_list_ptr));
    assert(b.subrange(156, 160) =~= u32_le_bytes(d.resource_size));
    lemma_le_u32_at(b, 128, asset_type_code(d.asset_type));
    lemma_le_u32_at(b, 132, d.unk_1);
    lemma_le_u32_at(b, 136, d.unk_2);
    lemma_le_u32_at(b, 140, d.chunk_count);
    lemma_le_u32_at(b, 144, d.descriptor_ptr);
    lemma_le_u32_at(b, 148, d.descriptor_size);
    lemma_le_u32_at(b, 152, d.dataview_list_ptr);
    lemma_le_u32_at(b, 156, d.resource_size);
    lemma_asset_type_code(d.asset_type);
    assert(b.take(128) =~= d.name);
}

/// One row of the asset table: a named, typed asset with the place of its
/// descriptor and of its list of resource ranges.
#[derive(Debug, Clone)]
pub struct AssetDescription {
    name: Vec<u8>,
    asset_type: AssetType,
    unk_1: u32,
    unk_2: u32,
    chunk_count: u32,
    descriptor_ptr: u32,
    descriptor_size: u32,
    dataview_list_ptr: u32,
    resource_size: u32,
    asset_desc_index: usize,
}

impl View for AssetDescription {
    type V = AssetDescriptionView;

    closed spec fn view(&self) -> AssetDescriptionView {
        AssetDescriptionView {
            name: self.name@,
            asset_type: self.asset_type,
            unk_1: self.unk_1,
            unk_2: self.unk_2,
            chunk_count: self.chunk_count,
            descriptor_ptr: self.descriptor_ptr,
            descriptor_size: self.descriptor_size,
            dataview_list_ptr: self.dataview_list_ptr,
            resource_size: self.resource_size,
            index: self.asset_desc_index,
        }
    }
}

impl AssetDescription {
    /// The name field holds exactly 128 bytes.
    pub open spec fn wf(&self) -> bool {
        self@.name.len() == ASSET_NAME_SIZE
    }

    /// Reads a record from the first 160 bytes of `bytes`; its row is not
    /// known yet and is set to `usize::MAX`.
    pub fn from_bytes(bytes: &[u8]) -> (r: Result<AssetDescription, AssetParseError>)
        ensures
            bytes@.len() < ASSET_DESCRIPTION_SIZE ==> r matches Err(AssetParseError::InputTooSmall),
            bytes@.len() >= ASSET_DESCRIPTION_SIZE && asset_type_of(le_u32(bytes@, 128)) is None
                ==> r matches Err(AssetParseError::ErrorParsingDescriptor),
            r matches Ok(d) ==> Some(d@) == parse_asset_description(bytes@, usize::MAX) && d.wf(),
            parse_asset_description(bytes@, usize::MAX) is Some ==> r is Ok,
    {
        Self::from_row(bytes, usize::MAX)
    }

    /// Reads the record of row `index` from the first 160 bytes of `bytes`.
    pub fn from_row(bytes: &[u8], index: usize) -> (r: Result<AssetDescription, AssetParseError>)
        ensures
            bytes@.len() < ASSET_DESCRIPTION_SIZE ==> r matches Err(AssetParseError::InputTooSmall),
            bytes@.len() >= ASSET_DESCRIPTION_SIZE && asset_type_of(le_u32(bytes@, 128)) is None
                ==> r matches Err(AssetParseError::ErrorParsingDescriptor),
            r matches Ok(d) ==> Some(d@) == parse_asset_description(bytes@, index) && d.wf(),
            parse_asset_description(bytes@, index) is Some ==> r is Ok,
    {
        if bytes.len() < ASSET_DESCRIPTION_SIZE {
            return Err(AssetParseError::InputTooSmall);
        }
        let asset_type = match AssetType::from_u32(read_u32_le(bytes, 128)) {
            Some(t) => t,
            None => return Err(AssetParseError::ErrorParsingDescriptor),
        };
        let mut name: Vec<u8> = Vec::new();
        let mut i: usize = 0;
        while i < ASSET_NAME_SIZE
            invariant
                i <= ASSET_NAME_SIZE,
                bytes@.len() >= ASSET_DESCRIPTION_SIZE,
                name@ == bytes@.take(i as int),
            decreases ASSET_NAME_SIZE - i,
        {
            name.push(bytes[i]);
            i = i + 1;
            assert(name@ =~= bytes@.take(i as int));
        }
        Ok(AssetDescription {
            name,
            asset_type,
            unk_1: read_u32_le(bytes, 132),
            unk_2: read_u32_le(bytes, 136),
            chunk_count: read_u32_le(bytes, 140),
            descriptor_ptr: read_u32_le(bytes, 144),
            descriptor_size: read_u32_le(bytes, 148),
            dataview_list_ptr: read_u32_le(bytes, 152),
            resource_size: read_u32_le(bytes, 156),
            asset_desc_index: index,
        })
    }

    /// The 160 bytes that store this record.
    pub fn to_bytes(&self) -> (r: Vec<u8>)
        ensures
            r@ == asset_description_bytes(self@),
    {
        let mut bytes: Vec<u8> = Vec::new();
        crate::resource::append_bytes(&mut bytes, self.name.as_slice());
        push_u32_le(&mut bytes, self.asset_type.to_u32());
        push_u32_le(&mut bytes, self.unk_1);
        push_u32_le(&mut bytes, self.unk_2);
        push_u32_le(&mut bytes, self.chunk_count);
        push_u32_le(&mut bytes, self.descriptor_ptr);
        push_u32_le(&mut bytes, self.descriptor_size);
        push_u32_le(&mut bytes, self.dataview_list_ptr);
        push_u32_le(&mut bytes, self.resource_size);
        bytes
    }

    /// A record equal to this one.
    pub fn duplicate(&self) -> (r: AssetDescription)
        ensures
            r@ == self@,
    {
        let mut name: Vec<u8> = Vec::new();
        crate::resource::append_bytes(&mut name, self.name.as_slice());
        AssetDescription {
            name,
            asset_type: self.asset_type,
            unk_1: self.unk_1,
            unk_2: self.unk_2,
            chunk_count: self.chunk_count,
            descriptor_ptr: self.descriptor_ptr,
            descriptor_size: self.descriptor_size,
            dataview_list_ptr: self.dataview_list_ptr,
            resource_size: self.resource_size,
            asset_desc_index: self.asset_desc_index,
        }
    }

    /// This record with its descriptor size set to `size`.
    pub fn with_descriptor_size(&self, size: u32) -> (r: AssetDescription)
        ensures
            r@ == (AssetDescriptionView { descriptor_size: size, ..self@ }),
    {
        let mut r = self.duplicate();
        r.descriptor_size = size;
        r
    }

    /// The asset's name: the name field up to its first NUL, or empty when
    /// the field is not valid UTF-8.
    pub fn name(&self) -> (r: String)
        ensures
            encode_utf8(r@) == name_bytes(self@.name),
    {
        name_text(self.name.as_slice())
    }

    /// Whether the asset's name is `name`.
    pub fn has_name(&self, name: &str) -> (r: bool)
        ensures
            r == (name_bytes(self@.name) == name.spec_bytes()),
    {
        name_is(self.name.as_slice(), name)
    }

    /// Whether the asset has resource bytes besides its descriptor.
    pub fn has_raw_data(&self) -> (r: bool)
        ensures
            r == (self@.resource_size > 0),
    {
        self.resource_size > 0
    }

    pub fn asset_type(&self) -> (r: AssetType)
        ensures
            r == self@.asset_type,
    {
        self.asset_type
    }

    pub fn unk_1(&self) -> (r: u32)
        ensures
            r == self@.unk_1,
    {
        self.unk_1
    }

    /// Where the asset's list of resource ranges starts in the view-list section.
    pub fn bufferview_list_ptr(&self) -> (r: u32)
        ensures
            r == self@.dataview_list_ptr,
    {
        self.dataview_list_ptr
    }

    pub fn resource_size(&self) -> (r: u32)
        ensures
            r == self@.resource_size,
    {
        self.resource_size
    }

    /// Where the asset's descriptor starts in the descriptor section.
    pub fn descriptor_ptr(&self) -> (r: u32)
        ensures
            r == self@.descriptor_ptr,
    {
        self.descriptor_ptr
    }

    pub fn descriptor_size(&self) -> (r: u32)
        ensures
            r == self@.descriptor_size,
    {
        self.descriptor_size
    }

    /// The row of the record in the asset table.
    pub fn index(&self) -> (r: usize)
        ensures
            r == self@.index,
    {
        self.asset_desc_index
    }
}

} // verus!

pub mod texture;
pub mod script;
pub mod model;
