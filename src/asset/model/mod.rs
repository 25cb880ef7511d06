//! Models: a descriptor with a table of typed subresources, some of which
//! list the textures the model carries.
use vstd::prelude::*;

use crate::asset::texture::{parse_texture_descriptor, Texture, TextureDescriptor};
use crate::asset::{Asset, AssetDescriptor, AssetParseError};
use crate::bytes::{le_u32, read_u32_le};
use crate::game::AssetType;
use crate::resource::VirtualResource;

pub mod subresources;

verus! {

/// The kind of a model subresource.
#[derive(Debug, Clone, Copy, PartialEq, Eq, Structural)]
pub enum ModelSubresType {
    Model,
    Unknown1,
    Unknown2,
    Unknown3,
    Unknown4,
    Unknown5,
    Unknown6,
    Texture,
    Unknown8,
    Unknown9,
    Unknown10,
    Unknown11,
    Unknown12,
    Unknown13,
    Unknown14,
    Unknown15,
    Unknown16,
    Unknown17,
    Unknown18,
    Unknown19,
    Unknown20,
    Unknown21,
}

/// The code of a subresource kind.
pub open spec fn subres_type_code(t: ModelSubresType) -> u32 {
    match t {
            ModelSubresType::Model => 0,
            ModelSubresType::Unknown1 => 1,
            ModelSubresType::Unknown2 => 2,
            ModelSubresType::Unknown3 => 3,
            ModelSubresType::Unknown4 => 4,
            ModelSubresType::Unknown5 => 5,
            ModelSubresType::Unknown6 => 6,
            ModelSubresType::Texture => 7,
            ModelSubresType::Unknown8 => 8,
            ModelSubresType::Unknown9 => 9,
            ModelSubresType::Unknown10 => 10,
            ModelSubresType::Unknown11 => 11,
            ModelSubresType::Unknown12 => 12,
            ModelSubresType::Unknown13 => 13,
            ModelSubresType::Unknown14 => 14,
            ModelSubresType::Unknown15 => 15,
            ModelSubresType::Unknown16 => 16,
            ModelSubresType::Unknown17 => 17,
            ModelSubresType::Unknown18 => 18,
            ModelSubresType::Unknown19 => 19,
            ModelSubresType::Unknown20 => 20,
            ModelSubresType::Unknown21 => 21,
    }
}

/// The subresource kind with code `v`, if any.
pub open spec fn subres_type_of(v: u32) -> Option<ModelSubresType> {
    if v == 0 {
        Some(ModelSubresType::Model)
    } else if v == 1 {
        Some(ModelSubresType::Unknown1)
    } else if v == 2 {
        Some(ModelSubresType::Unknown2)
    } else if v == 3 {
        Some(ModelSubresType::Unknown3)
    } else if v == 4 {
        Some(ModelSubresType::Unknown4)
    } else if v == 5 {
        Some(ModelSubresType::Unknown5)
    } else if v == 6 {
        Some(ModelSubresType::Unknown6)
    } else if v == 7 {
        Some(ModelSubresType::Texture)
    } else if v == 8 {
        Some(ModelSubresType::Unknown8)
    } else if v == 9 {
        Some(ModelSubresType::Unknown9)
    } else if v == 10 {
        Some(ModelSubresType::Unknown10)
    } else if v == 11 {
        Some(ModelSubresType::Unknown11)
    } else if v == 12 {
        Some(ModelSubresType::Unknown12)
    } else if v == 13 {
        Some(ModelSubresType::Unknown13)
    } else if v == 14 {
        Some(ModelSubresType::Unknown14)
    } else if v == 15 {
        Some(ModelSubresType::Unknown15)
    } else if v == 16 {
        Some(ModelSubresType::Unknown16)
    } else if v == 17 {
        Some(ModelSubresType::Unknown17)
    } else if v == 18 {
        Some(ModelSubresType::Unknown18)
    } else if v == 19 {
        Some(ModelSubresType::Unknown19)
    } else if v == 20 {
        Some(ModelSubresType::Unknown20)
    } else if v == 21 {
        Some(ModelSubresType::Unknown21)
    } else {
        None
    }
}

impl ModelSubresType {
    /// The subresource kind with code `v`, if any.
    pub fn from_u32(v: u32) -> (r: Option<ModelSubresType>)
        ensures
            r == subres_type_of(v),
    {
        match v {
            0 => Some(ModelSubresType::Model),
            1 => Some(ModelSubresType::Unknown1),
            2 => Some(ModelSubresType::Unknown2),
            3 => Some(ModelSubresType::Unknown3),
            4 => Some(ModelSubresType::Unknown4),
            5 => Some(ModelSubresType::Unknown5),
            6 => Some(ModelSubresType::Unknown6),
            7 => Some(ModelSubresType::Texture),
            8 => Some(ModelSubresType::Unknown8),
            9 => Some(ModelSubresType::Unknown9),
            10 => Some(ModelSubresType::Unknown10),
            11 => Some(ModelSubresType::Unknown11),
            12 => Some(ModelSubresType::Unknown12),
            13 => Some(ModelSubresType::Unknown13),
            14 => Some(ModelSubresType::Unknown14),
            15 => Some(ModelSubresType::Unknown15),
            16 => Some(ModelSubresType::Unknown16),
            17 => Some(ModelSubresType::Unknown17),
            18 => Some(ModelSubresType::Unknown18),
            19 => Some(ModelSubresType::Unknown19),
            20 => Some(ModelSubresType::Unknown20),
            21 => Some(ModelSubresType::Unknown21),
            _ => None,
        }
    }

    /// The code of this kind.
    pub fn to_u32(&self) -> (r: u32)
        ensures
            r == subres_type_code(*self),
    {
        match self {
            ModelSubresType::Model => 0,
            ModelSubresType::Unknown1 => 1,
            ModelSubresType::Unknown2 => 2,
            ModelSubresType::Unknown3 => 3,
            ModelSubresType::Unknown4 => 4,
            ModelSubresType::Unknown5 => 5,
            ModelSubresType::Unknown6 => 6,
            ModelSubresType::Texture => 7,
            ModelSubresType::Unknown8 => 8,
            ModelSubresType::Unknown9 => 9,
            ModelSubresType::Unknown10 => 10,
            ModelSubresType::Unknown11 => 11,
            ModelSubresType::Unknown12 => 12,
            ModelSubresType::Unknown13 => 13,
            ModelSubresType::Unknown14 => 14,
            ModelSubresType::Unknown15 => 15,
            ModelSubresType::Unknown16 => 16,
            ModelSubresType::Unknown17 => 17,
            ModelSubresType::Unknown18 => 18,
            ModelSubresType::Unknown19 => 19,
            ModelSubresType::Unknown20 => 20,
            ModelSubresType::Unknown21 => 21,
        }
    }
}

/// The texture descriptor stored at `ptr` in `b`, if it can be read there.
pub open spec fn texture_descriptor_at(b: Seq<u8>, ptr: int) -> Option<TextureDescriptor> {
    if ptr < 0 || ptr > b.len() {
        None
    } else {
        match parse_texture_descriptor(b.subrange(ptr, b.len() as int)) {
            Some(f) => Some(
                TextureDescriptor {
                    format: f.0,
                    header_size: f.1,
                    width: f.2,
                    height: f.3,
                    flags: f.4,
                    unknown_3a: f.5,
                    texture_offset: f.6,
                    texture_size: f.7,
                },
            ),
            None => None,
        }
    }
}

/// The first `count` texture descriptors of the pointer list at `list`.
pub open spec fn parse_texture_list(b: Seq<u8>, list: int, count: int) -> Option<Seq<TextureDescriptor>>
    decreases count,
{
    if count <= 0 {
        Some(Seq::empty())
    } else {
        match parse_texture_list(b, list, count - 1) {
            None => None,
            Some(prev) => {
                let at = list + 4 * (count - 1);
                if at + 4 > b.len() {
                    None
                } else {
                    match texture_descriptor_at(b, le_u32(b, at) as int) {
                        Some(t) => Some(prev.push(t)),
                        None => None,
                    }
                }
            },
        }
    }
}

/// The textures listed by a texture subresource whose parameter is `param`:
/// a count and the place of a list of pointers to texture descriptors.
pub open spec fn texture_list_at(b: Seq<u8>, param: int) -> Option<Seq<TextureDescriptor>> {
    if param + 8 > b.len() {
        None
    } else {
        parse_texture_list(b, le_u32(b, param + 4) as int, le_u32(b, param) as int)
    }
}

/// The first `k` subresources of the table at `offset`, with the textures
/// that they list, in order.
pub open spec fn parse_subresources(b: Seq<u8>, offset: int, k: int) -> Option<
    (Seq<(ModelSubresType, u32)>, Seq<TextureDescriptor>),
>
    decreases k,
{
    if k <= 0 {
        Some((Seq::empty(), Seq::empty()))
    } else {
        match parse_subresources(b, offset, k - 1) {
            None => None,
            Some(prev) => {
                let at = offset + 8 * (k - 1);
                match subres_type_of(le_u32(b, at)) {
                    None => None,
                    Some(t) => {
                        let param = le_u32(b, at + 4);
                        if t == ModelSubresType::Texture {
                            match texture_list_at(b, param as int) {
                                Some(ts) => Some((prev.0.push((t, param)), prev.1 + ts)),
                                None => None,
                            }
                        } else {
                            Some((prev.0.push((t, param)), prev.1))
                        }
                    },
                }
            },
        }
    }
}

/// The subresource table of a model descriptor lies inside `b`.
pub open spec fn model_table_fits(b: Seq<u8>) -> bool {
    b.len() >= 8 && le_u32(b, 0) <= b.len() && 8 * le_u32(b, 4) <= b.len() - le_u32(b, 0)
}

/// The model descriptor stored in `b`: the place and size of its
/// subresource table, the subresources, and the textures they list.
pub open spec fn parse_model_descriptor(b: Seq<u8>) -> Option<
    (u32, u32, Seq<(ModelSubresType, u32)>, Seq<TextureDescriptor>),
> {
    if !model_table_fits(b) {
        None
    } else {
        match parse_subresources(b, le_u32(b, 0) as int, le_u32(b, 4) as int) {
            Some(p) => Some((le_u32(b, 0), le_u32(b, 4), p.0, p.1)),
            None => None,
        }
    }
}

/// A subresource as listed: its kind and its parameter.
#[derive(Debug, Clone, Copy, PartialEq, Eq, Structural)]
pub struct RawModelSubresource {
    pub subres_type: ModelSubresType,
    pub subres_param: u32,
}

/// The descriptor of a model.
#[derive(Debug, Clone)]
pub struct ModelDescriptor {
    subresources_offset: u32,
    subresource_count: u32,
    raw_subresources: Vec<RawModelSubresource>,
    texture_descriptors: Vec<TextureDescriptor>,
}

impl View for ModelDescriptor {
    type V = (u32, u32, Seq<(ModelSubresType, u32)>, Seq<TextureDescriptor>);

    closed spec fn view(&self) -> (u32, u32, Seq<(ModelSubresType, u32)>, Seq<TextureDescriptor>) {
        (
            self.subresources_offset,
            self.subresource_count,
            self.raw_subresources@.map_values(
                |s: RawModelSubresource| (s.subres_type, s.subres_param),
            ),
            self.texture_descriptors@,
        )
    }
}

/// Reads the texture descriptors listed by a texture subresource with
/// parameter `param`, and appends them to `out`.
fn read_texture_list(data: &[u8], param: u32, out: &mut Vec<TextureDescriptor>) -> (r: Result<
    (),
    AssetParseError,
>)
    ensures
        r is Ok <==> texture_list_at(data@, param as int) is Some,
        r is Ok ==> final(out)@ == old(out)@ + texture_list_at(data@, param as int)->Some_0,
{
    let n = data.len();
    let p = param as usize;
    if p > n || n - p < 8 {
        return Err(AssetParseError::InvalidDataViews("The texture list lies outside the descriptor.".to_string()));
    }
    let count = read_u32_le(data, p);
    let list = read_u32_le(data, p + 4);
    let ghost start = out@;
    let mut t: u32 = 0;
    while t < count
        invariant
            n == data@.len(),
            p == param,
            p + 8 <= n,
            count == le_u32(data@, p as int),
            list == le_u32(data@, p + 4),
            t <= count,
            parse_texture_list(data@, list as int, t as int) is Some,
            out@ == start + parse_texture_list(data@, list as int, t as int)->Some_0,
        decreases count - t,
    {
        let at = list as u64 + 4 * t as u64;
        if at > n as u64 || (n as u64) - at < 4 {
            proof {
                lemma_texture_list_prefix(data@, list as int, t as int + 1, count as int);
            }
            return Err(AssetParseError::InvalidDataViews("The texture list lies outside the descriptor.".to_string()));
        }
        let ptr = read_u32_le(data, at as usize) as usize;
        if ptr > n {
            proof {
                lemma_texture_list_prefix(data@, list as int, t as int + 1, count as int);
            }
            return Err(AssetParseError::InvalidDataViews("A texture lies outside the descriptor.".to_string()));
        }
        match TextureDescriptor::read(&data[ptr..n]) {
            Ok(d) => {
                out.push(d);
                proof {
                    assert(out@ =~= start + parse_texture_list(data@, list as int, t as int + 1)->Some_0);
                }
            },
            Err(e) => {
                proof {
                    lemma_texture_list_prefix(data@, list as int, t as int + 1, count as int);
                }
                return Err(e);
            },
        }
        t = t + 1;
    }
    Ok(())
}

/// A list that cannot be read up to `k` cannot be read up to any `m >= k`.
proof fn lemma_texture_list_prefix(b: Seq<u8>, list: int, k: int, m: int)
    requires
        parse_texture_list(b, list, k) is None,
        k <= m,
    ensures
        parse_texture_list(b, list, m) is None,
    decreases m - k,
{
    if k < m {
        lemma_texture_list_prefix(b, list, k, m - 1);
    }
}

/// A table that cannot be read up to `k` cannot be read up to any `m >= k`.
proof fn lemma_subresources_prefix(b: Seq<u8>, offset: int, k: int, m: int)
    requires
        parse_subresources(b, offset, k) is None,
        k <= m,
    ensures
        parse_subresources(b, offset, m) is None,
    decreases m - k,
{
    if k < m {
        lemma_subresources_prefix(b, offset, k, m - 1);
    }
}

impl ModelDescriptor {
    /// Reads a model descriptor: the subresource table, and the texture
    /// descriptors that its texture subresources list.
    pub fn read(data: &[u8]) -> (r: Result<ModelDescriptor, AssetParseError>)
        ensures
            !model_table_fits(data@) ==> r matches Err(AssetParseError::InputTooSmall),
            r is Ok <==> parse_model_descriptor(data@) is Some,
            r matches Ok(d) ==> Some(d@) == parse_model_descriptor(data@),
    {
        let n = data.len();
        if n < 8 {
            return Err(AssetParseError::InputTooSmall);
        }
        let subresources_offset = read_u32_le(data, 0);
        let subresource_count = read_u32_le(data, 4);
        if subresources_offset as usize > n || (n - subresources_offset as usize) / 8
            < subresource_count as usize {
            return Err(AssetParseError::InputTooSmall);
        }
        let ghost off = subresources_offset as int;
        let mut raw_subresources: Vec<RawModelSubresource> = Vec::new();
        let mut texture_descriptors: Vec<TextureDescriptor> = Vec::new();
        let mut k: u32 = 0;
        while k < subresource_count
            invariant
                n == data@.len(),
                off == subresources_offset,
                model_table_fits(data@),
                off == le_u32(data@, 0),
                subresource_count == le_u32(data@, 4),
                k <= subresource_count,
                parse_subresources(data@, off, k as int) is Some,
                raw_subresources@.map_values(|s: RawModelSubresource| (s.subres_type, s.subres_param))
                    == parse_subresources(data@, off, k as int)->Some_0.0,
                texture_descriptors@ == parse_subresources(data@, off, k as int)->Some_0.1,
            decreases subresource_count - k,
        {
            let at = subresources_offset as usize + 8 * (k as usize);
            let code = read_u32_le(data, at);
            let subres_param = read_u32_le(data, at + 4);
            let subres_type = match ModelSubresType::from_u32(code) {
                Some(t) => t,
                None => {
                    proof {
                        lemma_subresources_prefix(data@, off, k as int + 1, subresource_count as int);
                    }
                    return Err(AssetParseError::ErrorParsingDescriptor);
                },
            };
            let ghost before = raw_subresources@.map_values(
                |s: RawModelSubresource| (s.subres_type, s.subres_param),
            );
            raw_subresources.push(RawModelSubresource { subres_type, subres_param });
            assert(raw_subresources@.map_values(
                |s: RawModelSubresource| (s.subres_type, s.subres_param),
            ) =~= before.push((subres_type, subres_param)));
            if subres_type == ModelSubresType::Texture {
                match read_texture_list(data, subres_param, &mut texture_descriptors) {
                    Ok(()) => {},
                    Err(e) => {
                        proof {
                            lemma_subresources_prefix(data@, off, k as int + 1, subresource_count as int);
                        }
                        return Err(e);
                    },
                }
            }
            k = k + 1;
        }
        Ok(ModelDescriptor { subresources_offset, subresource_count, raw_subresources, texture_descriptors })
    }

    /// The texture descriptors that the model's texture subresources list.
    pub fn texture_descriptors(&self) -> (r: &[TextureDescriptor])
        ensures
            r@ == self@.3,
    {
        self.texture_descriptors.as_slice()
    }

    /// The bytes from the start of the descriptor to the end of its
    /// subresource table.
    pub fn table_end(&self) -> (r: usize)
        ensures
            r == if self@.0 + 8 * self@.1 <= usize::MAX {
                self@.0 + 8 * self@.1
            } else {
                usize::MAX as int
            },
    {
        let end = self.subresources_offset as u64 + 8 * (self.subresource_count as u64);
        if end > usize::MAX as u64 {
            usize::MAX
        } else {
            end as usize
        }
    }
}

impl AssetDescriptor for ModelDescriptor {
    open spec fn spec_asset_type() -> AssetType {
        AssetType::ResModel
    }

    fn from_bytes(data: &[u8]) -> (r: Result<Self, AssetParseError>) {
        ModelDescriptor::read(data)
    }

    /// Models cannot be written back yet.
    fn to_bytes(&self) -> (r: Result<Vec<u8>, AssetParseError>) {
        Err(AssetParseError::ParserNotImplemented)
    }

    fn size(&self) -> (r: usize) {
        self.table_end()
    }

    fn asset_type() -> (r: AssetType) {
        AssetType::ResModel
    }
}

/// A model: its name, its descriptor, and the textures it carries.
#[derive(Debug)]
pub struct Model {
    name: String,
    descriptor: ModelDescriptor,
    textures: Vec<Texture>,
}

impl Model {
    /// How many textures the model carries.
    pub closed spec fn spec_texture_count(&self) -> nat {
        self.textures@.len()
    }

    /// The model called `name`: a texture for each texture descriptor, each
    /// read from `virtual_res`.
    pub fn build(name: &str, descriptor: &ModelDescriptor, virtual_res: &VirtualResource) -> (r:
        Result<Model, AssetParseError>)
        requires
            virtual_res.wf(),
        ensures
            virtual_res.bytes().len() == 0 ==> r is Err,
            r matches Ok(m) ==> m.spec_texture_count() == descriptor@.3.len(),
    {
        if virtual_res.is_empty() {
            return Err(AssetParseError::InvalidDataViews("Unable to create a Model using 0 data views".to_string()));
        }
        let mut textures: Vec<Texture> = Vec::new();
        let n = descriptor.texture_descriptors.len();
        let mut i: usize = 0;
        while i < n
            invariant
                virtual_res.wf(),
                n == descriptor.texture_descriptors@.len(),
                i <= n,
                textures@.len() == i,
            decreases n - i,
        {
            let t = match Texture::build("", &descriptor.texture_descriptors[i], virtual_res) {
                Ok(t) => t,
                Err(e) => return Err(e),
            };
            textures.push(t);
            i = i + 1;
        }
        Ok(Model { name: name.to_owned(), descriptor: descriptor.clone(), textures })
    }

    /// The textures of the model.
    pub fn textures(&self) -> (r: Option<&Vec<Texture>>)
        ensures
            r matches Some(v) && v@.len() == self.spec_texture_count(),
    {
        Some(&self.textures)
    }
}

impl Asset for Model {
    type Descriptor = ModelDescriptor;

    fn descriptor(&self) -> (r: &ModelDescriptor) {
        &self.descriptor
    }

    fn new(name: &str, descriptor: &ModelDescriptor, virtual_res: &VirtualResource) -> (r: Result<
        Model,
        AssetParseError,
    >) {
        Model::build(name, descriptor, virtual_res)
    }

    /// A model keeps no resource bytes of its own: its textures are read
    /// from the resource, not held as it.
    fn resource_data(&self) -> (r: Vec<u8>) {
        Vec::new()
    }

    fn name(&self) -> (r: &str) {
        self.name.as_str()
    }
}

/// Marks types that stand for a model subresource.
pub trait Subresource {}

} // verus!
