//! The container: a 40-byte header followed by a zlib stream that holds four
//! sections (asset records, view lists, raw resources, descriptors).
use vstd::prelude::*;

use crate::asset::{
    asset_description_bytes, lemma_asset_description_round_trip, parse_asset_description,
    AssetDescription, AssetDescriptionView, ASSET_DESCRIPTION_SIZE,
};
use crate::bytes::{
    le_u16, lemma_le_u16_round_trip, lemma_le_u32_at, push_u16_le, push_u32_le,
    read_u16_le, u16_le_bytes, u32_le_bytes,
};
use crate::asset::{Asset, AssetDescriptor, AssetError, AssetParseError, RawAsset};
use crate::game::AssetType;
use crate::resource::{concat_parts, VirtualResource};
use crate::dataview::{
    overwrite_bytes, parse_view_list, resolve_views, scatter, total_size, view_at, view_bytes,
    view_in_bounds, views_in_bounds, write_at, DataView, DataViewList, ViewListError,
};
use crate::text::name_bytes;
use vstd::string::StringSliceAdditionalSpecFns;
use vstd::utf8::encode_utf8;
use crate::resource::append_bytes;

verus! {

#[verifier::external_type_specification]
#[verifier::external_body]
pub struct ExDecompressError(miniz_oxide::inflate::DecompressError);

/// What inflating the zlib stream `data` gives, or `None` when it is not a
/// valid stream.
pub uninterp spec fn zlib_inflated(data: Seq<u8>) -> Option<Seq<u8>>;

/// The zlib stream that deflating `data` at `level` gives.
pub uninterp spec fn zlib_deflated(data: Seq<u8>, level: u8) -> Seq<u8>;

/// Relies on `miniz_oxide::inflate::decompress_to_vec_zlib`: the whole of a
/// zlib stream, inflated without a size limit, or an error when the stream is
/// not valid.
#[verifier::external_body]
fn decompress_zlib(input: &[u8]) -> (r: Result<Vec<u8>, miniz_oxide::inflate::DecompressError>)
    ensures
        r matches Ok(v) ==> zlib_inflated(input@) == Some(v@),
        r is Err ==> zlib_inflated(input@) is None,
{
    miniz_oxide::inflate::decompress_to_vec_zlib(input)
}

/// Relies on `miniz_oxide::deflate::compress_to_vec_zlib`: a zlib stream
/// that inflates back to the input (deflate is lossless).
#[verifier::external_body]
fn compress_zlib(input: &[u8], level: u8) -> (r: Vec<u8>)
    requires
        level <= 10,
    ensures
        r@ == zlib_deflated(input@, level),
        zlib_inflated(r@) == Some(input@),
{
    miniz_oxide::deflate::compress_to_vec_zlib(input, level)
}

/// Bytes of the uncompressed header.
pub const HEADER_SIZE: usize = 40;

/// The compression level used when a container is written.
pub const COMPRESSION_LEVEL: u8 = 1;

/// Why a container could not be read.
#[derive(Debug, Clone, Copy, PartialEq, Eq, Structural)]
pub enum BNLError {
    /// The input is shorter than the 40-byte header.
    HeaderTooShort,
    /// The zlib stream after the header could not be inflated.
    DecompressionFailure,
    /// A section reaches past the end of the inflated data.
    SectionOutOfBounds,
    /// A row of the asset table has an unknown type code.
    InvalidAssetDescription,
}

/// The fields of the header.
pub struct HeaderView {
    pub file_count: u16,
    pub flags: u8,
    pub reserved: Seq<u8>,
    pub asset_desc_loc: DataView,
    pub buffer_views_loc: DataView,
    pub buffer_loc: DataView,
    pub descriptor_loc: DataView,
}

/// The uncompressed header: counts, flags, and where each of the four
/// sections lies in the header followed by the inflated data.
#[derive(Debug, Clone, Copy)]
pub struct BNLHeader {
    pub file_count: u16,
    pub flags: u8,
    pub unknown_2: [u8; 5],
    pub asset_desc_loc: DataView,
    pub buffer_views_loc: DataView,
    pub buffer_loc: DataView,
    pub descriptor_loc: DataView,
}

impl View for BNLHeader {
    type V = HeaderView;

    open spec fn view(&self) -> HeaderView {
        HeaderView {
            file_count: self.file_count,
            flags: self.flags,
            reserved: self.unknown_2@,
            asset_desc_loc: self.asset_desc_loc,
            buffer_views_loc: self.buffer_views_loc,
            buffer_loc: self.buffer_loc,
            descriptor_loc: self.descriptor_loc,
        }
    }
}

/// The header stored in the first 40 bytes of `b`.
pub open spec fn parse_header(b: Seq<u8>) -> HeaderView {
    HeaderView {
        file_count: le_u16(b, 0),
        flags: b[2],
        reserved: b.subrange(3, 8),
        asset_desc_loc: view_at(b, 8),
        buffer_views_loc: view_at(b, 16),
        buffer_loc: view_at(b, 24),
        descriptor_loc: view_at(b, 32),
    }
}

/// The eight bytes that store a view.
pub open spec fn view_le_bytes(v: DataView) -> Seq<u8> {
    u32_le_bytes(v.offset) + u32_le_bytes(v.size)
}

/// The 40 bytes that store `h`.
pub open spec fn header_bytes(h: HeaderView) -> Seq<u8> {
    u16_le_bytes(h.file_count) + seq![h.flags] + h.reserved + view_le_bytes(h.asset_desc_loc)
        + view_le_bytes(h.buffer_views_loc) + view_le_bytes(h.buffer_loc) + view_le_bytes(
        h.descriptor_loc,
    )
}

/// Reading back a stored header gives the header.
pub proof fn lemma_header_round_trip(h: HeaderView)
    requires
        h.reserved.len() == 5,
    ensures
        header_bytes(h).len() == HEADER_SIZE,
        parse_header(header_bytes(h)) == h,
{
    let b = header_bytes(h);
    assert(b.len() == 40);
    lemma_le_u16_round_trip(h.file_count);
    let w = b.subrange(0, 2);
    assert(w =~= u16_le_bytes(h.file_count));
    assert(w[0] == b[0] && w[1] == b[1]);
    assert(b.subrange(3, 8) =~= h.reserved);
    assert(b.subrange(8, 12) =~= u32_le_bytes(h.asset_desc_loc.offset));
    assert(b.subrange(12, 16) =~= u32_le_bytes(h.asset_desc_loc.size));
    assert(b.subrange(16, 20) =~= u32_le_bytes(h.buffer_views_loc.offset));
    assert(b.subrange(20, 24) =~= u32_le_bytes(h.buffer_views_loc.size));
    assert(b.subrange(24, 28) =~= u32_le_bytes(h.buffer_loc.offset));
    assert(b.subrange(28, 32) =~= u32_le_bytes(h.buffer_loc.size));
    assert(b.subrange(32, 36) =~= u32_le_bytes(h.descriptor_loc.offset));
    assert(b.subrange(36, 40) =~= u32_le_bytes(h.descriptor_loc.size));
    lemma_le_u32_at(b, 8, h.asset_desc_loc.offset);
    lemma_le_u32_at(b, 12, h.asset_desc_loc.size);
    lemma_le_u32_at(b, 16, h.buffer_views_loc.offset);
    lemma_le_u32_at(b, 20, h.buffer_views_loc.size);
    lemma_le_u32_at(b, 24, h.buffer_loc.offset);
    lemma_le_u32_at(b, 28, h.buffer_loc.size);
    lemma_le_u32_at(b, 32, h.descriptor_loc.offset);
    lemma_le_u32_at(b, 36, h.descriptor_loc.size);
    assert(parse_header(b) =~= h);
}

impl BNLHeader {
    /// Reads the header from the first 40 bytes of `b`.
    pub fn from_bytes(b: &[u8]) -> (r: BNLHeader)
        requires
            b@.len() >= HEADER_SIZE,
        ensures
            r@ == parse_header(b@),
    {
        let mut pos: usize = 8;
        let asset_desc_loc = DataView::from_cursor(b, &mut pos).unwrap();
        let buffer_views_loc = DataView::from_cursor(b, &mut pos).unwrap();
        let buffer_loc = DataView::from_cursor(b, &mut pos).unwrap();
        let descriptor_loc = DataView::from_cursor(b, &mut pos).unwrap();
        let r = BNLHeader {
            file_count: read_u16_le(b, 0),
            flags: b[2],
            unknown_2: [b[3], b[4], b[5], b[6], b[7]],
            asset_desc_loc,
            buffer_views_loc,
            buffer_loc,
            descriptor_loc,
        };
        assert(r.unknown_2@ =~= b@.subrange(3, 8));
        r
    }

    /// The 40 bytes that store the header.
    pub fn to_bytes(&self) -> (r: Vec<u8>)
        ensures
            r@ == header_bytes(self@),
    {
        let mut bytes: Vec<u8> = Vec::new();
        push_u16_le(&mut bytes, self.file_count);
        bytes.push(self.flags);
        append_bytes(&mut bytes, self.unknown_2.as_slice());
        push_u32_le(&mut bytes, self.asset_desc_loc.offset);
        push_u32_le(&mut bytes, self.asset_desc_loc.size);
        push_u32_le(&mut bytes, self.buffer_views_loc.offset);
        push_u32_le(&mut bytes, self.buffer_views_loc.size);
        push_u32_le(&mut bytes, self.buffer_loc.offset);
        push_u32_le(&mut bytes, self.buffer_loc.size);
        push_u32_le(&mut bytes, self.descriptor_loc.offset);
        push_u32_le(&mut bytes, self.descriptor_loc.size);
        assert(bytes@ =~= header_bytes(self@));
        bytes
    }
}

/// How many whole rows the asset table `b` holds.
pub open spec fn table_rows(b: Seq<u8>) -> int {
    b.len() as int / ASSET_DESCRIPTION_SIZE as int
}

/// The bytes of row `i` of the asset table `b`.
pub open spec fn table_row(b: Seq<u8>, i: int) -> Seq<u8> {
    b.subrange(i * ASSET_DESCRIPTION_SIZE, i * ASSET_DESCRIPTION_SIZE + ASSET_DESCRIPTION_SIZE)
}

/// Every row of the asset table `b` holds a record with a known type.
pub open spec fn table_ok(b: Seq<u8>) -> bool {
    forall|i: int|
        0 <= i < table_rows(b) ==> (#[trigger] parse_asset_description(table_row(b, i), i as usize)) is Some
}

/// The records of the asset table `b`, in order, each with its row.
pub open spec fn table(b: Seq<u8>) -> Seq<AssetDescriptionView> {
    Seq::new(
        table_rows(b) as nat,
        |i: int| parse_asset_description(table_row(b, i), i as usize)->Some_0,
    )
}

/// The bytes of `buf` that `v` covers, or `None` when it reaches past the end.
pub open spec fn section(buf: Seq<u8>, v: DataView) -> Option<Seq<u8>> {
    if view_in_bounds(v, buf.len()) {
        Some(view_bytes(buf, v))
    } else {
        None
    }
}

/// A container: its header, its four sections and its parsed asset table.
pub struct ContainerView {
    pub header: HeaderView,
    pub asset_desc: Seq<u8>,
    pub buffer_views: Seq<u8>,
    pub buffer: Seq<u8>,
    pub descriptors: Seq<u8>,
    pub records: Seq<AssetDescriptionView>,
}

/// The container held by `buf`, the header followed by the inflated
/// sections, or why there is none.
pub open spec fn parse_decompressed(buf: Seq<u8>) -> Result<ContainerView, BNLError> {
    if buf.len() < HEADER_SIZE {
        Err(BNLError::HeaderTooShort)
    } else {
        let h = parse_header(buf);
        match (
            section(buf, h.asset_desc_loc),
            section(buf, h.buffer_views_loc),
            section(buf, h.buffer_loc),
            section(buf, h.descriptor_loc),
        ) {
            (Some(ad), Some(bv), Some(b), Some(d)) => {
                if table_ok(ad) {
                    Ok(
                        ContainerView {
                            header: h,
                            asset_desc: ad,
                            buffer_views: bv,
                            buffer: b,
                            descriptors: d,
                            records: table(ad),
                        },
                    )
                } else {
                    Err(BNLError::InvalidAssetDescription)
                }
            },
            _ => Err(BNLError::SectionOutOfBounds),
        }
    }
}

/// The container stored in `bytes`, or why there is none: the 40-byte
/// header, then a zlib stream whose inflated bytes follow the header in the
/// buffer that the header's sections address.
pub open spec fn parse_container(bytes: Seq<u8>) -> Result<ContainerView, BNLError> {
    if bytes.len() < HEADER_SIZE {
        Err(BNLError::HeaderTooShort)
    } else {
        match zlib_inflated(bytes.subrange(HEADER_SIZE as int, bytes.len() as int)) {
            None => Err(BNLError::DecompressionFailure),
            Some(inflated) => parse_decompressed(bytes.take(HEADER_SIZE as int) + inflated),
        }
    }
}

/// The four sections one after the other, as they are compressed.
pub open spec fn sections_bytes(c: ContainerView) -> Seq<u8> {
    c.asset_desc + c.buffer_views + c.buffer + c.descriptors
}

/// The bytes that store `c`: its header, then its sections compressed.
pub open spec fn container_bytes(c: ContainerView) -> Seq<u8> {
    header_bytes(c.header) + zlib_deflated(sections_bytes(c), COMPRESSION_LEVEL)
}

/// The header places the sections one after the other, in order, right
/// after itself.
pub open spec fn sections_packed(c: ContainerView) -> bool {
    let h = c.header;
    &&& h.asset_desc_loc.offset == HEADER_SIZE
    &&& h.buffer_views_loc.offset == h.asset_desc_loc.offset + h.asset_desc_loc.size
    &&& h.buffer_loc.offset == h.buffer_views_loc.offset + h.buffer_views_loc.size
    &&& h.descriptor_loc.offset == h.buffer_loc.offset + h.buffer_loc.size
}

/// The header is read from the first 40 bytes alone.
proof fn lemma_parse_header_prefix(r: Seq<u8>, head: Seq<u8>)
    requires
        head.len() == HEADER_SIZE,
        r.len() >= HEADER_SIZE,
        r.take(HEADER_SIZE as int) == head,
    ensures
        parse_header(r) == parse_header(head),
{
    assert forall|k: int| 0 <= k < 40 implies r[k] == head[k] by {
        assert(r.take(HEADER_SIZE as int)[k] == r[k]);
    }
    assert(r.subrange(3, 8) =~= head.subrange(3, 8));
}

/// With the sections packed after the header, each section is found again
/// in the header followed by the sections.
proof fn lemma_packed_sections(c: ContainerView, head: Seq<u8>)
    requires
        sections_packed(c),
        head.len() == HEADER_SIZE,
        c.asset_desc.len() == c.header.asset_desc_loc.size,
        c.buffer_views.len() == c.header.buffer_views_loc.size,
        c.buffer.len() == c.header.buffer_loc.size,
        c.descriptors.len() == c.header.descriptor_loc.size,
    ensures
        section(head + sections_bytes(c), c.header.asset_desc_loc) == Some(c.asset_desc),
        section(head + sections_bytes(c), c.header.buffer_views_loc) == Some(c.buffer_views),
        section(head + sections_bytes(c), c.header.buffer_loc) == Some(c.buffer),
        section(head + sections_bytes(c), c.header.descriptor_loc) == Some(c.descriptors),
{
    let buf = head + sections_bytes(c);
    let h = c.header;
    assert(view_bytes(buf, h.asset_desc_loc) =~= c.asset_desc);
    assert(view_bytes(buf, h.buffer_views_loc) =~= c.buffer_views);
    assert(view_bytes(buf, h.buffer_loc) =~= c.buffer);
    assert(view_bytes(buf, h.descriptor_loc) =~= c.descriptors);
}

/// A packed container whose stream inflates back to its sections is read
/// back from its bytes unchanged.
proof fn lemma_reparse(c: ContainerView)
    requires
        sections_packed(c),
        c.header.reserved.len() == 5,
        c.asset_desc.len() == c.header.asset_desc_loc.size,
        c.buffer_views.len() == c.header.buffer_views_loc.size,
        c.buffer.len() == c.header.buffer_loc.size,
        c.descriptors.len() == c.header.descriptor_loc.size,
        table_ok(c.asset_desc),
        c.records == table(c.asset_desc),
        zlib_inflated(zlib_deflated(sections_bytes(c), COMPRESSION_LEVEL)) == Some(sections_bytes(c)),
    ensures
        parse_container(container_bytes(c)) == Ok::<ContainerView, BNLError>(c),
{
    let r = container_bytes(c);
    let head = header_bytes(c.header);
    let secs = sections_bytes(c);
    lemma_header_round_trip(c.header);
    assert(r.subrange(HEADER_SIZE as int, r.len() as int) =~= zlib_deflated(secs, COMPRESSION_LEVEL));
    assert(r.take(HEADER_SIZE as int) =~= head);
    let buf = head + secs;
    assert(buf.take(HEADER_SIZE as int) =~= head);
    lemma_parse_header_prefix(buf, head);
    lemma_packed_sections(c, head);
}

/// `d` is named `name` (see [`name_bytes`]).
pub open spec fn record_named(d: AssetDescriptionView, name: Seq<u8>) -> bool {
    name_bytes(d.name) == name
}

/// Row `i` is the first of `records` named `name`.
pub open spec fn is_first_named(records: Seq<AssetDescriptionView>, name: Seq<u8>, i: int) -> bool {
    &&& 0 <= i < records.len()
    &&& record_named(records[i], name)
    &&& forall|j: int| 0 <= j < i ==> !record_named(#[trigger] records[j], name)
}

/// The first row of `records` named `name`, if any.
pub open spec fn find_named(records: Seq<AssetDescriptionView>, name: Seq<u8>) -> Option<int> {
    if exists|i: int| is_first_named(records, name, i) {
        Some(choose|i: int| is_first_named(records, name, i))
    } else {
        None
    }
}

/// Only one row is the first with a given name.
pub proof fn lemma_first_named_unique(records: Seq<AssetDescriptionView>, name: Seq<u8>, i: int)
    requires
        is_first_named(records, name, i),
    ensures
        find_named(records, name) == Some(i),
{
    let c = choose|k: int| is_first_named(records, name, k);
    assert(is_first_named(records, name, c));
    if c < i {
        assert(!record_named(records[c], name));
    } else if i < c {
        assert(!record_named(records[i], name));
    }
}

/// The list of views stored at `offset` in the view-list section `b`.
pub open spec fn view_list_at(b: Seq<u8>, offset: int) -> Result<Seq<DataView>, ViewListError> {
    if offset <= b.len() {
        parse_view_list(b.subrange(offset, b.len() as int))
    } else {
        Err(ViewListError::TooSmall)
    }
}

/// The descriptor bytes of `d`: `descriptor_size` bytes from `descriptor_ptr`
/// in the descriptor section.
pub open spec fn descriptor_of(c: ContainerView, d: AssetDescriptionView) -> Option<Seq<u8>> {
    section(c.descriptors, DataView { offset: d.descriptor_ptr, size: d.descriptor_size })
}

/// The ranges of the raw-buffer section that hold the resource of `d`.
pub open spec fn resource_parts(c: ContainerView, d: AssetDescriptionView) -> Option<Seq<Seq<u8>>> {
    match view_list_at(c.buffer_views, d.dataview_list_ptr as int) {
        Ok(views) => resolve_views(views, c.buffer),
        Err(_) => None,
    }
}

/// Both the descriptor and the resource of `d` can be read.
pub open spec fn raw_ok(c: ContainerView, d: AssetDescriptionView) -> bool {
    descriptor_of(c, d) is Some && resource_parts(c, d) is Some
}

/// `a` is the raw asset of `d` in `c`.
pub open spec fn is_raw_asset_of(a: RawAsset, c: ContainerView, d: AssetDescriptionView) -> bool {
    &&& encode_utf8(a.name@) == name_bytes(d.name)
    &&& a.asset_type == d.asset_type
    &&& Some(a.descriptor_bytes@) == descriptor_of(c, d)
    &&& Some(a.data_slices@.map_values(|v: Vec<u8>| v@)) == resource_parts(c, d)
}

/// The rows among the first `n` whose raw asset can be read, in order.
pub open spec fn raw_rows(c: ContainerView, n: int) -> Seq<int>
    decreases n,
{
    if n <= 0 {
        Seq::empty()
    } else if raw_ok(c, c.records[n - 1]) {
        raw_rows(c, n - 1).push(n - 1)
    } else {
        raw_rows(c, n - 1)
    }
}

/// The descriptor of `d` overlaps the half-open range `[start, end)`.
pub open spec fn descriptor_overlaps(d: AssetDescriptionView, start: int, end: int) -> bool {
    start < d.descriptor_ptr + d.descriptor_size && d.descriptor_ptr < end
}

/// The records whose descriptors overlap `[start, end)`, in order.
pub open spec fn overlapping(records: Seq<AssetDescriptionView>, start: int, end: int) -> Seq<
    AssetDescriptionView,
>
    decreases records.len(),
{
    if records.len() == 0 {
        Seq::empty()
    } else if descriptor_overlaps(records.last(), start, end) {
        overlapping(records.drop_last(), start, end).push(records.last())
    } else {
        overlapping(records.drop_last(), start, end)
    }
}

/// Appending one element adds exactly that element to what a sequence holds.
proof fn lemma_push_contains<A>(s: Seq<A>, x: A, d: A)
    ensures
        s.push(x).contains(d) <==> (s.contains(d) || x == d),
{
    if s.push(x).contains(d) {
        let i = choose|i: int| 0 <= i < s.push(x).len() && s.push(x)[i] == d;
        if i < s.len() {
            assert(s[i] == d);
        }
    }
    if s.contains(d) {
        let i = choose|i: int| 0 <= i < s.len() && s[i] == d;
        assert(s.push(x)[i] == d);
    }
    if x == d {
        assert(s.push(x)[s.len() as int] == d);
    }
}

/// A record is returned for the range `[start, end)` exactly when it is in
/// the table and its descriptor interval `[descriptor_ptr, descriptor_ptr +
/// descriptor_size)` overlaps the range; intervals that only touch the range
/// at one end are not returned.
pub proof fn lemma_overlapping_iff(
    records: Seq<AssetDescriptionView>,
    start: int,
    end: int,
    d: AssetDescriptionView,
)
    ensures
        overlapping(records, start, end).contains(d) <==> (records.contains(d) && start
            < d.descriptor_ptr + d.descriptor_size && d.descriptor_ptr < end),
    decreases records.len(),
{
    if records.len() == 0 {
        assert(!records.contains(d));
    } else {
        let before = records.drop_last();
        lemma_overlapping_iff(before, start, end, d);
        assert(records =~= before.push(records.last()));
        lemma_push_contains(before, records.last(), d);
        lemma_push_contains(overlapping(before, start, end), records.last(), d);
    }
}

/// The rows among the first `n` of `records` whose type is `ty`, in order.
pub open spec fn rows_of_type(records: Seq<AssetDescriptionView>, ty: AssetType, n: int) -> Seq<int>
    decreases n,
{
    if n <= 0 {
        Seq::empty()
    } else if records[n - 1].asset_type == ty {
        rows_of_type(records, ty, n - 1).push(n - 1)
    } else {
        rows_of_type(records, ty, n - 1)
    }
}

/// The values of the successes among `results`, in order.
pub open spec fn ok_values<A>(results: Seq<Result<A, AssetError>>) -> Seq<A>
    decreases results.len(),
{
    if results.len() == 0 {
        Seq::empty()
    } else {
        match results.last() {
            Ok(a) => ok_values(results.drop_last()).push(a),
            Err(_) => ok_values(results.drop_last()),
        }
    }
}

/// `results` holds one build outcome for each record of type `ty` of `c`, in
/// table order: an outcome is a success only when the record's descriptor
/// and resource can be read, and a parse error when they cannot.
pub open spec fn builds_of_type<A>(c: ContainerView, ty: AssetType, results: Seq<Result<A, AssetError>>) -> bool {
    let rows = rows_of_type(c.records, ty, c.records.len() as int);
    &&& results.len() == rows.len()
    &&& forall|k: int|
        0 <= k < results.len() ==> (#[trigger] results[k] is Ok ==> typed_inputs_ok(
            c,
            c.records[rows[k]],
        )) && (!typed_inputs_ok(c, c.records[rows[k]]) ==> results[k] matches Err(
            AssetError::ParseError(_),
        ))
}

/// Keeps the successes among `results`, in order.
pub fn keep_built<A>(results: Vec<Result<A, AssetError>>) -> (r: Vec<A>)
    ensures
        r@ == ok_values(results@),
{
    let ghost all = results@;
    let mut results = results;
    let mut out: Vec<A> = Vec::new();
    let ghost k: int = 0;
    while results.len() > 0
        invariant
            0 <= k <= all.len(),
            results@ == all.skip(k),
            out@ == ok_values(all.take(k)),
        decreases results@.len(),
    {
        let item = results.remove(0);
        proof {
            assert(all.take(k + 1).drop_last() =~= all.take(k));
            assert(all.take(k + 1).last() == item);
            k = k + 1;
        }
        match item {
            Ok(a) => {
                out.push(a);
            },
            Err(_) => {},
        }
        assert(results@ =~= all.skip(k));
    }
    assert(all.take(k) =~= all);
    out
}

/// The descriptor section from the descriptor of `d` to its end, or `None`
/// when `descriptor_ptr` lies past the end.
pub open spec fn descriptor_tail_of(c: ContainerView, d: AssetDescriptionView) -> Option<Seq<u8>> {
    if d.descriptor_ptr <= c.descriptors.len() {
        Some(c.descriptors.subrange(d.descriptor_ptr as int, c.descriptors.len() as int))
    } else {
        None
    }
}

/// Everything a typed asset of row `i` is built from can be read: its
/// descriptor bytes and a resource whose length a `usize` holds.
pub open spec fn typed_inputs_ok(c: ContainerView, d: AssetDescriptionView) -> bool {
    &&& descriptor_tail_of(c, d) is Some
    &&& resource_parts(c, d) is Some
    &&& concat_parts(resource_parts(c, d)->Some_0).len() <= usize::MAX
}

/// The list of views of the resource of `d`.
pub open spec fn views_of(c: ContainerView, d: AssetDescriptionView) -> Result<Seq<DataView>, ViewListError> {
    view_list_at(c.buffer_views, d.dataview_list_ptr as int)
}

/// `data` can be written as the resource of `d`: its list of views can be
/// read, holds exactly as many bytes, and lies inside the raw-buffer section.
pub open spec fn resource_write_ok(c: ContainerView, d: AssetDescriptionView, data: Seq<u8>) -> bool {
    match views_of(c, d) {
        Ok(views) => data.len() == total_size(views) && views_in_bounds(views, c.buffer.len()),
        Err(_) => false,
    }
}

/// `c` with `data` written over the resource of `d`.
pub open spec fn with_resource(c: ContainerView, d: AssetDescriptionView, data: Seq<u8>) -> ContainerView {
    ContainerView { buffer: scatter(c.buffer, views_of(c, d)->Ok_0, data), ..c }
}

/// `c` with record `d` stored at row `i`, in the table and in its bytes.
pub open spec fn with_row(c: ContainerView, i: int, d: AssetDescriptionView) -> ContainerView {
    ContainerView {
        asset_desc: write_at(c.asset_desc, i * ASSET_DESCRIPTION_SIZE, asset_description_bytes(d)),
        records: c.records.update(i, d),
        ..c
    }
}

/// `c` with record `d` stored at the row its index names.
pub open spec fn with_record(c: ContainerView, d: AssetDescriptionView) -> ContainerView {
    with_row(c, d.index as int, d)
}

/// `c` with the descriptor of row `i` replaced by `desc`, which is no longer
/// than the old one, and the record's descriptor size set to its length.
pub open spec fn with_descriptor(c: ContainerView, i: int, desc: Seq<u8>) -> ContainerView {
    let d = c.records[i];
    let c2 = ContainerView {
        descriptors: write_at(c.descriptors, d.descriptor_ptr as int, desc),
        ..c
    };
    with_row(c2, i, AssetDescriptionView { descriptor_size: desc.len() as u32, ..d })
}

/// The header, the sections and the table of `c` agree: each section is as
/// long as the header says, and the table holds the records parsed from the
/// asset-record section, each at its row.
pub open spec fn coherent(c: ContainerView) -> bool {
    &&& c.header.reserved.len() == 5
    &&& c.asset_desc.len() == c.header.asset_desc_loc.size
    &&& c.buffer_views.len() == c.header.buffer_views_loc.size
    &&& c.buffer.len() == c.header.buffer_loc.size
    &&& c.descriptors.len() == c.header.descriptor_loc.size
    &&& table_ok(c.asset_desc)
    &&& c.records == table(c.asset_desc)
}

/// The records of a readable table: one per whole row, each knowing its row
/// and holding a 128-byte name.
pub proof fn lemma_table_rows(b: Seq<u8>)
    requires
        table_ok(b),
        b.len() <= u32::MAX,
    ensures
        table(b).len() == table_rows(b),
        forall|i: int|
            0 <= i < table(b).len() ==> (#[trigger] table(b)[i]).index == i && table(b)[i].name.len()
                == 128,
{
    assert forall|i: int| 0 <= i < table(b).len() implies (#[trigger] table(b)[i]).index == i
        && table(b)[i].name.len() == 128 by {
        assert(parse_asset_description(table_row(b, i), i as usize) is Some);
        assert(i * 160 + 160 <= b.len()) by (nonlinear_arith)
            requires
                0 <= i < b.len() as int / 160,
        ;
    }
}

/// Storing a record at its row keeps the table coherent with its bytes.
pub proof fn lemma_table_update(b: Seq<u8>, d: AssetDescriptionView)
    requires
        table_ok(b),
        d.index < table_rows(b),
        d.name.len() == 128,
    ensures
        ({
            let b2 = write_at(b, d.index * ASSET_DESCRIPTION_SIZE, asset_description_bytes(d));
            &&& b2.len() == b.len()
            &&& table_ok(b2)
            &&& table(b2) == table(b).update(d.index as int, d)
        }),
{
    let at = d.index * ASSET_DESCRIPTION_SIZE;
    let bytes = asset_description_bytes(d);
    lemma_asset_description_round_trip(d);
    let b2 = write_at(b, at, bytes);
    assert(d.index * 160 + 160 <= b.len()) by (nonlinear_arith)
        requires
            d.index < b.len() as int / 160,
    ;
    assert forall|j: int| 0 <= j < table_rows(b2) implies table_row(b2, j) == if j == d.index {
        bytes
    } else {
        table_row(b, j)
    } by {
        if j == d.index {
            assert(table_row(b2, j) =~= bytes);
        } else {
            assert(table_row(b2, j) =~= table_row(b, j));
        }
    }
    assert forall|j: int| 0 <= j < table_rows(b2) implies (#[trigger] parse_asset_description(
        table_row(b2, j),
        j as usize,
    )) is Some by {
        if j != d.index {
            assert(parse_asset_description(table_row(b, j), j as usize) is Some);
        }
    }
    assert(table(b2) =~= table(b).update(d.index as int, d));
}

/// An asset container held in memory: the header, the four sections, and
/// the asset table parsed from the first section.
#[derive(Debug)]
pub struct BNLFile {
    header: BNLHeader,
    asset_desc_bytes: Vec<u8>,
    buffer_views_bytes: Vec<u8>,
    buffer_bytes: Vec<u8>,
    descriptor_bytes: Vec<u8>,
    asset_descriptions: Vec<AssetDescription>,
}

impl View for BNLFile {
    type V = ContainerView;

    closed spec fn view(&self) -> ContainerView {
        ContainerView {
            header: self.header@,
            asset_desc: self.asset_desc_bytes@,
            buffer_views: self.buffer_views_bytes@,
            buffer: self.buffer_bytes@,
            descriptors: self.descriptor_bytes@,
            records: self.asset_descriptions@.map_values(|d: AssetDescription| d@),
        }
    }
}

/// Reads the bytes of `buf` that `v` covers.
fn read_section(buf: &[u8], v: DataView) -> (r: Option<Vec<u8>>)
    ensures
        match section(buf@, v) {
            Some(s) => r matches Some(x) && x@ == s,
            None => r is None,
        },
{
    let start = v.offset as usize;
    if start > buf.len() || buf.len() - start < v.size as usize {
        return None;
    }
    let mut out: Vec<u8> = Vec::new();
    append_bytes(&mut out, &buf[start..start + v.size as usize]);
    Some(out)
}

/// Reads every row of the asset table `b`.
fn parse_table(b: &[u8]) -> (r: Result<Vec<AssetDescription>, BNLError>)
    ensures
        table_ok(b@) ==> (r matches Ok(v) && v@.map_values(|d: AssetDescription| d@) == table(b@)
            && forall|i: int| 0 <= i < v@.len() ==> (#[trigger] v@[i]).wf()),
        !table_ok(b@) ==> r == Err::<Vec<AssetDescription>, BNLError>(
            BNLError::InvalidAssetDescription,
        ),
{
    let n = b.len();
    let mut out: Vec<AssetDescription> = Vec::new();
    let mut at: usize = 0;
    let mut i: usize = 0;
    while at <= n && n - at >= ASSET_DESCRIPTION_SIZE
        invariant
            n == b@.len(),
            at == i * ASSET_DESCRIPTION_SIZE,
            at <= n,
            i <= table_rows(b@),
            out@.len() == i,
            forall|j: int|
                0 <= j < i ==> (#[trigger] parse_asset_description(table_row(b@, j), j as usize))
                    == Some(out@[j]@),
            forall|j: int| 0 <= j < i ==> (#[trigger] out@[j]).wf(),
        decreases n - at,
    {
        let row = &b[at..at + ASSET_DESCRIPTION_SIZE];
        assert(row@ == table_row(b@, i as int));
        match AssetDescription::from_row(row, i) {
            Ok(d) => {
                out.push(d);
            },
            Err(_) => {
                assert(!table_ok(b@)) by {
                    let ni = i as int;
                    let nn = n as int;
                    assert(ni < nn / 160) by (nonlinear_arith)
                        requires
                            ni * 160 + 160 <= nn,
                    ;
                    assert(parse_asset_description(table_row(b@, i as int), (i as int) as usize) is None);
                }
                return Err(BNLError::InvalidAssetDescription);
            },
        }
        at = at + ASSET_DESCRIPTION_SIZE;
        i = i + 1;
    }
    assert(i == table_rows(b@));
    assert(out@.map_values(|d: AssetDescription| d@) =~= table(b@));
    Ok(out)
}

impl BNLFile {
    /// The sections match the header's sizes, and the asset table is the
    /// one parsed from the first section.
    pub closed spec fn wf(&self) -> bool {
        &&& coherent(self@)
        &&& forall|i: int|
            0 <= i < self.asset_descriptions@.len() ==> (#[trigger] self.asset_descriptions@[i]).wf()
    }

    /// A well-formed container is coherent (see [`coherent`]).
    pub proof fn lemma_coherent(&self)
        requires
            self.wf(),
        ensures
            coherent(self@),
    {
    }

    /// Reads a container: the header, the inflated sections and the asset
    /// table.
    pub fn from_bytes(bnl_bytes: &[u8]) -> (r: Result<BNLFile, BNLError>)
        ensures
            match parse_container(bnl_bytes@) {
                Ok(c) => r matches Ok(f) && f.wf() && f@ == c,
                Err(e) => r == Err::<BNLFile, BNLError>(e),
            },
    {
        if bnl_bytes.len() < HEADER_SIZE {
            return Err(BNLError::HeaderTooShort);
        }
        let inflated = match decompress_zlib(&bnl_bytes[HEADER_SIZE..bnl_bytes.len()]) {
            Ok(v) => v,
            Err(_) => return Err(BNLError::DecompressionFailure),
        };
        let mut bytes: Vec<u8> = Vec::new();
        append_bytes(&mut bytes, &bnl_bytes[0..HEADER_SIZE]);
        append_bytes(&mut bytes, inflated.as_slice());
        assert(bytes@ =~= bnl_bytes@.take(HEADER_SIZE as int) + inflated@);
        Self::from_cursor(bytes.as_slice())
    }

    /// Reads a container from its header followed by its inflated sections:
    /// the header, each section at the place the header gives, and the asset
    /// table.
    pub fn from_cursor(buf: &[u8]) -> (r: Result<BNLFile, BNLError>)
        ensures
            match parse_decompressed(buf@) {
                Ok(c) => r matches Ok(f) && f.wf() && f@ == c,
                Err(e) => r == Err::<BNLFile, BNLError>(e),
            },
    {
        if buf.len() < HEADER_SIZE {
            return Err(BNLError::HeaderTooShort);
        }
        let header = BNLHeader::from_bytes(buf);
        let ad = read_section(buf, header.asset_desc_loc);
        let bv = read_section(buf, header.buffer_views_loc);
        let b = read_section(buf, header.buffer_loc);
        let d = read_section(buf, header.descriptor_loc);
        match (ad, bv, b, d) {
            (Some(ad), Some(bv), Some(b), Some(d)) => {
                let records = match parse_table(ad.as_slice()) {
                    Ok(v) => v,
                    Err(e) => return Err(e),
                };
                let f = BNLFile {
                    header,
                    asset_desc_bytes: ad,
                    buffer_views_bytes: bv,
                    buffer_bytes: b,
                    descriptor_bytes: d,
                    asset_descriptions: records,
                };
                assert(f@ =~= parse_decompressed(buf@)->Ok_0);
                Ok(f)
            },
            _ => Err(BNLError::SectionOutOfBounds),
        }
    }

    /// Writes the container back: the header, then the four sections
    /// concatenated and compressed. When the header places the sections one
    /// after the other right after itself, reading the result gives this
    /// container back.
    pub fn to_bytes(&self) -> (r: Vec<u8>)
        requires
            self.wf(),
        ensures
            r@ == container_bytes(self@),
            r@.len() >= HEADER_SIZE,
            r@.subrange(0, HEADER_SIZE as int) == header_bytes(self@.header),
            zlib_inflated(r@.subrange(HEADER_SIZE as int, r@.len() as int)) == Some(
                sections_bytes(self@),
            ),
            sections_packed(self@) ==> parse_container(r@) == Ok::<ContainerView, BNLError>(
                self@,
            ),
    {
        let mut decompressed: Vec<u8> = Vec::new();
        append_bytes(&mut decompressed, self.asset_desc_bytes.as_slice());
        append_bytes(&mut decompressed, self.buffer_views_bytes.as_slice());
        append_bytes(&mut decompressed, self.buffer_bytes.as_slice());
        append_bytes(&mut decompressed, self.descriptor_bytes.as_slice());
        let compressed = compress_zlib(decompressed.as_slice(), COMPRESSION_LEVEL);
        let mut bytes = self.header.to_bytes();
        proof {
            lemma_header_round_trip(self.header@);
        }
        let ghost head = bytes@;
        assert(decompressed@ =~= sections_bytes(self@));
        append_bytes(&mut bytes, compressed.as_slice());
        proof {
            assert(bytes@ =~= container_bytes(self@));
            assert(bytes@.subrange(0, HEADER_SIZE as int) =~= head);
            assert(bytes@.subrange(HEADER_SIZE as int, bytes@.len() as int) =~= compressed@);
            if sections_packed(self@) {
                lemma_reparse(self@);
            }
        }
        bytes
    }

    /// The first row named `name`.
    fn find_index(&self, name: &str) -> (r: Option<usize>)
        requires
            self.wf(),
        ensures
            match find_named(self@.records, name.spec_bytes()) {
                Some(i) => r == Some(i as usize),
                None => r is None,
            },
    {
        let ghost records = self@.records;
        let ghost q = name.spec_bytes();
        let n = self.asset_descriptions.len();
        let mut i: usize = 0;
        while i < n
            invariant
                records == self@.records,
                q == name.spec_bytes(),
                n == records.len(),
                i <= n,
                forall|j: int| 0 <= j < i ==> !record_named(#[trigger] records[j], q),
            decreases n - i,
        {
            assert(self.asset_descriptions@[i as int]@ == records[i as int]);
            if self.asset_descriptions[i].has_name(name) {
                proof {
                    lemma_first_named_unique(records, q, i as int);
                }
                return Some(i);
            }
            i = i + 1;
        }
        proof {
            if exists|k: int| is_first_named(records, q, k) {
                let k = choose|k: int| is_first_named(records, q, k);
                assert(!record_named(records[k], q));
            }
        }
        None
    }

    /// The record of the first asset named `name`.
    pub fn get_asset_description(&self, name: &str) -> (r: Option<&AssetDescription>)
        requires
            self.wf(),
        ensures
            match find_named(self@.records, name.spec_bytes()) {
                Some(i) => r matches Some(d) && d@ == self@.records[i],
                None => r is None,
            },
    {
        match self.find_index(name) {
            Some(i) => Some(&self.asset_descriptions[i]),
            None => None,
        }
    }

    /// The records of the asset table, in order.
    pub fn asset_descriptions(&self) -> (r: &[AssetDescription])
        ensures
            r@.map_values(|d: AssetDescription| d@) == self@.records,
    {
        self.asset_descriptions.as_slice()
    }

    /// The list of views stored at `offset` in the view-list section.
    pub fn get_dataview_list(&self, offset: usize) -> (r: Result<DataViewList, ViewListError>)
        ensures
            match view_list_at(self@.buffer_views, offset as int) {
                Ok(views) => r matches Ok(l) && l.wf() && l@ == views,
                Err(e) => r == Err::<DataViewList, ViewListError>(e),
            },
    {
        let b = self.buffer_views_bytes.as_slice();
        if offset > b.len() {
            return Err(ViewListError::TooSmall);
        }
        DataViewList::from_bytes(&b[offset..b.len()])
    }

    /// The raw asset of row `i`.
    fn raw_asset_at(&self, i: usize) -> (r: Result<RawAsset, AssetError>)
        requires
            self.wf(),
            i < self@.records.len(),
        ensures
            raw_ok(self@, self@.records[i as int]) ==> (r matches Ok(a) && is_raw_asset_of(
                a,
                self@,
                self@.records[i as int],
            )),
            !raw_ok(self@, self@.records[i as int]) ==> r matches Err(AssetError::ParseError(_)),
    {
        let d = &self.asset_descriptions[i];
        let ptr = d.descriptor_ptr() as usize;
        let size = d.descriptor_size() as usize;
        let ghost rec = self@.records[i as int];
        assert(d@ == rec);
        let desc = self.descriptor_bytes.as_slice();
        if ptr > desc.len() || desc.len() - ptr < size {
            return Err(AssetError::ParseError(AssetParseError::ErrorParsingDescriptor));
        }
        let mut desc_bytes: Vec<u8> = Vec::new();
        append_bytes(&mut desc_bytes, &desc[ptr..ptr + size]);
        let dvl = match self.get_dataview_list(d.bufferview_list_ptr() as usize) {
            Ok(l) => l,
            Err(_) => {
                return Err(
                    AssetError::ParseError(
                        AssetParseError::InvalidDataViews(
                            "Unable to get data view list from BNL data.".to_string(),
                        ),
                    ),
                )
            },
        };
        let slices = match dvl.slices(self.buffer_bytes.as_slice()) {
            Ok(s) => s,
            Err(_) => {
                return Err(
                    AssetError::ParseError(
                        AssetParseError::InvalidDataViews(
                            "Unable to get data from data slices.".to_string(),
                        ),
                    ),
                )
            },
        };
        let ghost parts = slices@.map_values(|s: &[u8]| s@);
        let mut data_slices: Vec<Vec<u8>> = Vec::new();
        let n = slices.len();
        let mut k: usize = 0;
        while k < n
            invariant
                n == slices@.len(),
                parts == slices@.map_values(|s: &[u8]| s@),
                k <= n,
                data_slices@.map_values(|v: Vec<u8>| v@) =~= parts.take(k as int),
            decreases n - k,
        {
            let mut part: Vec<u8> = Vec::new();
            append_bytes(&mut part, slices[k]);
            let ghost before = data_slices@;
            data_slices.push(part);
            assert(data_slices@.map_values(|v: Vec<u8>| v@) =~= before.map_values(|v: Vec<u8>| v@).push(
                slices@[k as int]@,
            ));
            k = k + 1;
        }
        assert(parts.take(n as int) =~= parts);
        let a = RawAsset {
            name: d.name(),
            asset_type: d.asset_type(),
            descriptor_bytes: desc_bytes,
            data_slices,
        };
        Ok(a)
    }

    /// The raw asset named `name`: its descriptor bytes and the bytes of each
    /// range of its resource.
    pub fn get_raw_asset(&self, name: &str) -> (r: Result<RawAsset, AssetError>)
        requires
            self.wf(),
        ensures
            match find_named(self@.records, name.spec_bytes()) {
                None => r matches Err(AssetError::NotFound),
                Some(i) => if raw_ok(self@, self@.records[i]) {
                    r matches Ok(a) && is_raw_asset_of(a, self@, self@.records[i])
                } else {
                    r matches Err(AssetError::ParseError(_))
                },
            },
    {
        match self.find_index(name) {
            Some(i) => self.raw_asset_at(i),
            None => Err(AssetError::NotFound),
        }
    }

    /// The raw asset of every record, in table order; a record whose
    /// descriptor or resource cannot be read is skipped.
    pub fn get_raw_assets(&self) -> (r: Vec<RawAsset>)
        requires
            self.wf(),
        ensures
            r@.len() == raw_rows(self@, self@.records.len() as int).len(),
            forall|k: int|
                0 <= k < r@.len() ==> is_raw_asset_of(
                    #[trigger] r@[k],
                    self@,
                    self@.records[raw_rows(self@, self@.records.len() as int)[k]],
                ),
    {
        let ghost c = self@;
        let n = self.asset_descriptions.len();
        let mut assets: Vec<RawAsset> = Vec::new();
        let mut i: usize = 0;
        while i < n
            invariant
                self.wf(),
                c == self@,
                n == c.records.len(),
                i <= n,
                assets@.len() == raw_rows(c, i as int).len(),
                forall|k: int|
                    0 <= k < assets@.len() ==> is_raw_asset_of(
                        #[trigger] assets@[k],
                        c,
                        c.records[raw_rows(c, i as int)[k]],
                    ),
                forall|k: int| 0 <= k < raw_rows(c, i as int).len() ==> 0 <= #[trigger] raw_rows(c, i as int)[k] < i,
            decreases n - i,
        {
            match self.raw_asset_at(i) {
                Ok(a) => {
                    assets.push(a);
                },
                Err(_) => {},
            }
            i = i + 1;
        }
        assets
    }

    /// The records whose descriptor overlaps the half-open byte range
    /// `range` of the descriptor section, in table order.
    pub fn get_assets_occupying_descriptor_range(&self, range: std::ops::Range<usize>) -> (r: Vec<
        &AssetDescription,
    >)
        ensures
            r@.map_values(|d: &AssetDescription| d@) == overlapping(
                self@.records,
                range.start as int,
                range.end as int,
            ),
    {
        let ghost records = self@.records;
        let n = self.asset_descriptions.len();
        let mut out: Vec<&AssetDescription> = Vec::new();
        let mut i: usize = 0;
        while i < n
            invariant
                records == self@.records,
                n == records.len(),
                i <= n,
                out@.map_values(|d: &AssetDescription| d@) == overlapping(
                    records.take(i as int),
                    range.start as int,
                    range.end as int,
                ),
            decreases n - i,
        {
            let d = &self.asset_descriptions[i];
            let start2 = d.descriptor_ptr() as u64;
            let end2 = start2 + d.descriptor_size() as u64;
            proof {
                assert(records.take(i as int + 1).drop_last() =~= records.take(i as int));
                assert(records.take(i as int + 1).last() == d@);
            }
            if (range.start as u64) < end2 && start2 < (range.end as u64) {
                let ghost before = out@;
                out.push(d);
                assert(out@.map_values(|d: &AssetDescription| d@) =~= before.map_values(
                    |d: &AssetDescription| d@,
                ).push(d@));
            }
            i = i + 1;
        }
        assert(records.take(n as int) =~= records);
        out
    }

    /// The row of the first asset named `name`, when its type is `ty`.
    fn typed_row(&self, name: &str, ty: AssetType) -> (r: Result<usize, AssetError>)
        requires
            self.wf(),
        ensures
            match find_named(self@.records, name.spec_bytes()) {
                None => r matches Err(AssetError::NotFound),
                Some(i) => if self@.records[i].asset_type == ty {
                    r == Ok::<usize, AssetError>(i as usize)
                } else {
                    r matches Err(AssetError::TypeMismatch)
                },
            },
    {
        match self.find_index(name) {
            None => Err(AssetError::NotFound),
            Some(i) => {
                assert(self.asset_descriptions@[i as int]@ == self@.records[i as int]);
                if self.asset_descriptions[i].asset_type() == ty {
                    Ok(i)
                } else {
                    Err(AssetError::TypeMismatch)
                }
            },
        }
    }

    /// The descriptor section from the descriptor of row `i` to its end: the
    /// bytes a codec reads a typed asset's descriptor from.
    pub fn descriptor_tail(&self, i: usize) -> (r: Result<&[u8], AssetError>)
        requires
            self.wf(),
            i < self@.records.len(),
        ensures
            match descriptor_tail_of(self@, self@.records[i as int]) {
                Some(t) => r matches Ok(s) && s@ == t,
                None => r matches Err(AssetError::ParseError(AssetParseError::InputTooSmall)),
            },
    {
        assert(self.asset_descriptions@[i as int]@ == self@.records[i as int]);
        let ptr = self.asset_descriptions[i].descriptor_ptr() as usize;
        let desc = self.descriptor_bytes.as_slice();
        if ptr > desc.len() {
            return Err(AssetError::ParseError(AssetParseError::InputTooSmall));
        }
        Ok(&desc[ptr..desc.len()])
    }

    /// The resource of row `i`, read as one logical run of bytes: what a
    /// codec builds a typed asset from.
    pub fn resource_at(&self, i: usize) -> (r: Result<VirtualResource<'_>, AssetError>)
        requires
            self.wf(),
            i < self@.records.len(),
        ensures
            resource_parts(self@, self@.records[i as int]) is Some && concat_parts(
                resource_parts(self@, self@.records[i as int])->Some_0,
            ).len() <= usize::MAX ==> (r matches Ok(v) && v.wf() && v@ == resource_parts(
                self@,
                self@.records[i as int],
            )->Some_0),
            !(resource_parts(self@, self@.records[i as int]) is Some && concat_parts(
                resource_parts(self@, self@.records[i as int])->Some_0,
            ).len() <= usize::MAX) ==> r matches Err(AssetError::ParseError(_)),
    {
        assert(self.asset_descriptions@[i as int]@ == self@.records[i as int]);
        let ptr = self.asset_descriptions[i].bufferview_list_ptr() as usize;
        let dvl = match self.get_dataview_list(ptr) {
            Ok(l) => l,
            Err(_) => {
                return Err(
                    AssetError::ParseError(
                        AssetParseError::InvalidDataViews(
                            "Unable to get data view list from BNL data.".to_string(),
                        ),
                    ),
                )
            },
        };
        proof {
            if crate::dataview::views_in_bounds(dvl@, self@.buffer.len()) {
                crate::resource::lemma_resolved_len(dvl@, self@.buffer);
            }
        }
        match VirtualResource::from_dvl(&dvl, self.buffer_bytes.as_slice()) {
            Ok(v) => Ok(v),
            Err(_) => Err(
                AssetError::ParseError(
                    AssetParseError::InvalidDataViews(
                        "Unable to get data from data slices.".to_string(),
                    ),
                ),
            ),
        }
    }

    /// The typed asset of row `i`, built by the codec of `A`.
    fn typed_asset_at<A: Asset>(&self, i: usize) -> (r: Result<A, AssetError>)
        requires
            self.wf(),
            i < self@.records.len(),
        ensures
            r is Ok ==> typed_inputs_ok(self@, self@.records[i as int]),
            !typed_inputs_ok(self@, self@.records[i as int]) ==> r matches Err(
                AssetError::ParseError(_),
            ),
    {
        let tail = match self.descriptor_tail(i) {
            Ok(t) => t,
            Err(e) => return Err(e),
        };
        let descriptor = match A::Descriptor::from_bytes(tail) {
            Ok(d) => d,
            Err(e) => return Err(AssetError::ParseError(e)),
        };
        let res = match self.resource_at(i) {
            Ok(v) => v,
            Err(e) => return Err(e),
        };
        let name = self.asset_descriptions[i].name();
        match A::new(name.as_str(), &descriptor, &res) {
            Ok(a) => Ok(a),
            Err(e) => Err(AssetError::ParseError(e)),
        }
    }

    /// The asset named `name`, built by the codec of `A` from its descriptor
    /// bytes and its resource.
    pub fn get_asset<A: Asset>(&self, name: &str) -> (r: Result<A, AssetError>)
        requires
            self.wf(),
        ensures
            match find_named(self@.records, name.spec_bytes()) {
                None => r matches Err(AssetError::NotFound),
                Some(i) => {
                    &&& self@.records[i].asset_type != A::Descriptor::spec_asset_type() ==> (r matches Err(
                        AssetError::TypeMismatch,
                    ))
                    &&& self@.records[i].asset_type == A::Descriptor::spec_asset_type() && !typed_inputs_ok(
                        self@,
                        self@.records[i],
                    ) ==> (r matches Err(AssetError::ParseError(_)))
                    &&& r is Ok ==> self@.records[i].asset_type == A::Descriptor::spec_asset_type()
                        && typed_inputs_ok(self@, self@.records[i])
                },
            },
    {
        let ty = A::asset_type();
        let i = match self.typed_row(name, ty) {
            Ok(i) => i,
            Err(e) => return Err(e),
        };
        self.typed_asset_at::<A>(i)
    }

    /// The outcome of building each asset of the type of `A` with its codec,
    /// in table order (see [`builds_of_type`]).
    pub fn build_assets<A: Asset>(&self) -> (r: Vec<Result<A, AssetError>>)
        requires
            self.wf(),
        ensures
            builds_of_type(self@, A::Descriptor::spec_asset_type(), r@),
    {
        let ghost c = self@;
        let ghost records = self@.records;
        let ty = A::asset_type();
        let n = self.asset_descriptions.len();
        let mut results: Vec<Result<A, AssetError>> = Vec::new();
        let mut i: usize = 0;
        while i < n
            invariant
                self.wf(),
                c == self@,
                records == c.records,
                ty == A::Descriptor::spec_asset_type(),
                n == records.len(),
                i <= n,
                results@.len() == rows_of_type(records, ty, i as int).len(),
                forall|k: int|
                    0 <= k < rows_of_type(records, ty, i as int).len() ==> 0
                        <= #[trigger] rows_of_type(records, ty, i as int)[k] < i,
                forall|k: int|
                    0 <= k < results@.len() ==> (#[trigger] results@[k] is Ok ==> typed_inputs_ok(
                        c,
                        records[rows_of_type(records, ty, i as int)[k]],
                    )) && (!typed_inputs_ok(c, records[rows_of_type(records, ty, i as int)[k]])
                        ==> results@[k] matches Err(AssetError::ParseError(_))),
            decreases n - i,
        {
            assert(self.asset_descriptions@[i as int]@ == records[i as int]);
            if self.asset_descriptions[i].asset_type() == ty {
                let built = self.typed_asset_at::<A>(i);
                results.push(built);
            }
            i = i + 1;
        }
        results
    }

    /// Every asset of the type of `A` that its codec can build, in table
    /// order; the others are skipped.
    pub fn get_assets<A: Asset>(&self) -> (r: Vec<A>)
        requires
            self.wf(),
        ensures
            exists|results: Seq<Result<A, AssetError>>|
                builds_of_type(self@, A::Descriptor::spec_asset_type(), results) && r@ == ok_values(
                    results,
                ),
    {
        let results = self.build_assets::<A>();
        let ghost built = results@;
        let r = keep_built(results);
        assert(builds_of_type(self@, A::Descriptor::spec_asset_type(), built) && r@ == ok_values(
            built,
        ));
        r
    }

    /// The descriptor of the asset named `name`, read by the codec of `AD`.
    pub fn get_descriptor<AD: AssetDescriptor>(&self, name: &str) -> (r: Result<AD, AssetError>)
        requires
            self.wf(),
        ensures
            match find_named(self@.records, name.spec_bytes()) {
                None => r matches Err(AssetError::NotFound),
                Some(i) => {
                    &&& self@.records[i].asset_type != AD::spec_asset_type() ==> (r matches Err(
                        AssetError::TypeMismatch,
                    ))
                    &&& self@.records[i].asset_type == AD::spec_asset_type() && descriptor_tail_of(
                        self@,
                        self@.records[i],
                    ) is None ==> (r matches Err(AssetError::ParseError(_)))
                },
            },
    {
        let i = match self.typed_row(name, AD::asset_type()) {
            Ok(i) => i,
            Err(e) => return Err(e),
        };
        let tail = match self.descriptor_tail(i) {
            Ok(t) => t,
            Err(e) => return Err(e),
        };
        match AD::from_bytes(tail) {
            Ok(d) => Ok(d),
            Err(e) => Err(AssetError::ParseError(e)),
        }
    }

    /// Stores `d` at its row, in the table and in the asset-record section.
    fn store_record(&mut self, d: AssetDescription)
        requires
            old(self).wf(),
            d.wf(),
            d@.index < old(self)@.records.len(),
        ensures
            final(self).wf(),
            final(self)@ == with_record(old(self)@, d@),
    {
        let ghost c = self@;
        let i = d.index();
        proof {
            lemma_table_update(self.asset_desc_bytes@, d@);
        }
        let bytes = d.to_bytes();
        overwrite_bytes(&mut self.asset_desc_bytes, i * ASSET_DESCRIPTION_SIZE, bytes.as_slice());
        self.asset_descriptions.set(i, d);
        proof {
            assert(self.asset_descriptions@.map_values(|e: AssetDescription| e@) =~= c.records.update(
                i as int,
                d@,
            ));
            assert(self@ =~= with_record(c, d@));
        }
    }

    /// Stores `asset_desc` at its row, in the table and in the asset-record
    /// section.
    pub fn update_asset_description(&mut self, asset_desc: &AssetDescription) -> (r: Result<
        (),
        AssetError,
    >)
        requires
            old(self).wf(),
            asset_desc.wf(),
        ensures
            final(self).wf(),
            asset_desc@.index < old(self)@.records.len() ==> r is Ok && final(self)@ == with_record(
                old(self)@,
                asset_desc@,
            ),
            asset_desc@.index >= old(self)@.records.len() ==> (r matches Err(AssetError::NotFound))
                && final(self)@ == old(self)@,
            old(self)@.records.len() == table_rows(old(self)@.asset_desc),
    {
        if asset_desc.index() >= self.asset_descriptions.len() {
            return Err(AssetError::NotFound);
        }
        self.store_record(asset_desc.duplicate());
        Ok(())
    }

    /// Writes `data` over the resource of the asset named `name`, which must
    /// have type `ty`. The resource keeps its ranges: `data` must hold
    /// exactly as many bytes. Nothing is written on failure.
    pub fn update_resource(&mut self, name: &str, ty: AssetType, data: &[u8]) -> (r: Result<
        (),
        AssetError,
    >)
        requires
            old(self).wf(),
        ensures
            final(self).wf(),
            r is Err ==> final(self)@ == old(self)@,
            match find_named(old(self)@.records, name.spec_bytes()) {
                None => r matches Err(AssetError::NotFound),
                Some(i) => {
                    let d = old(self)@.records[i];
                    &&& d.asset_type != ty ==> (r matches Err(AssetError::TypeMismatch))
                    &&& d.asset_type == ty && views_of(old(self)@, d) is Err ==> (r matches Err(
                        AssetError::ParseError(_),
                    ))
                    &&& d.asset_type == ty && views_of(old(self)@, d) is Ok && data@.len()
                        != total_size(views_of(old(self)@, d)->Ok_0) ==> (r matches Err(
                        AssetError::SizeMismatch,
                    ))
                    &&& d.asset_type == ty && views_of(old(self)@, d) is Ok && data@.len()
                        == total_size(views_of(old(self)@, d)->Ok_0) && !resource_write_ok(
                        old(self)@,
                        d,
                        data@,
                    ) ==> (r matches Err(AssetError::ParseError(_)))
                    &&& d.asset_type == ty && resource_write_ok(old(self)@, d, data@) ==> r is Ok
                    &&& r is Ok ==> final(self)@ == with_resource(old(self)@, d, data@)
                },
            },
    {
        let i = match self.typed_row(name, ty) {
            Ok(i) => i,
            Err(e) => return Err(e),
        };
        let dvl = match self.checked_resource_views(i, data) {
            Ok(l) => l,
            Err(e) => return Err(e),
        };
        let ghost c = self@;
        let res = dvl.write_bytes(data, &mut self.buffer_bytes);
        assert(res is Ok);
        assert(self@ =~= with_resource(c, c.records[i as int], data@));
        Ok(())
    }

    /// The list of views of row `i`, when `data` can be written over it.
    fn checked_resource_views(&self, i: usize, data: &[u8]) -> (r: Result<DataViewList, AssetError>)
        requires
            self.wf(),
            i < self@.records.len(),
        ensures
            ({
                let d = self@.records[i as int];
                &&& views_of(self@, d) is Err ==> (r matches Err(AssetError::ParseError(_)))
                &&& views_of(self@, d) is Ok && data@.len() != total_size(views_of(self@, d)->Ok_0)
                    ==> (r matches Err(AssetError::SizeMismatch))
                &&& views_of(self@, d) is Ok && data@.len() == total_size(views_of(self@, d)->Ok_0)
                    && !resource_write_ok(self@, d, data@) ==> (r matches Err(
                    AssetError::ParseError(_),
                ))
                &&& resource_write_ok(self@, d, data@) ==> (r matches Ok(l) && l.wf() && l@
                    == views_of(self@, d)->Ok_0)
                &&& r is Ok ==> resource_write_ok(self@, d, data@)
            }),
    {
        assert(self.asset_descriptions@[i as int]@ == self@.records[i as int]);
        let ptr = self.asset_descriptions[i].bufferview_list_ptr() as usize;
        let dvl = match self.get_dataview_list(ptr) {
            Ok(l) => l,
            Err(_) => {
                return Err(
                    AssetError::ParseError(
                        AssetParseError::InvalidDataViews(
                            "Unable to get data view list from BNL data.".to_string(),
                        ),
                    ),
                )
            },
        };
        if dvl.logical_size() != data.len() as u64 {
            return Err(AssetError::SizeMismatch);
        }
        if !dvl.fits(self.buffer_bytes.len()) {
            return Err(
                AssetError::ParseError(
                    AssetParseError::InvalidDataViews(
                        "A data view lies outside the resource buffer.".to_string(),
                    ),
                ),
            );
        }
        Ok(dvl)
    }

    /// Writes the resource data of `asset` over the resource of the asset
    /// named `name`, which must have the type of `A`.
    pub fn update_asset<A: Asset>(&mut self, name: &str, asset: &A) -> (r: Result<(), AssetError>)
        requires
            old(self).wf(),
        ensures
            final(self).wf(),
            r is Err ==> final(self)@ == old(self)@,
            match find_named(old(self)@.records, name.spec_bytes()) {
                None => r matches Err(AssetError::NotFound),
                Some(i) => {
                    let d = old(self)@.records[i];
                    &&& d.asset_type != A::Descriptor::spec_asset_type() ==> (r matches Err(
                        AssetError::TypeMismatch,
                    ))
                    &&& r is Ok ==> exists|data: Seq<u8>|
                        resource_write_ok(old(self)@, d, data) && final(self)@ == with_resource(
                            old(self)@,
                            d,
                            data,
                        )
                },
            },
    {
        let data = asset.resource_data();
        let r = self.update_resource(name, A::asset_type(), data.as_slice());
        proof {
            if r is Ok {
                let i = find_named(old(self)@.records, name.spec_bytes())->Some_0;
                let d = old(self)@.records[i];
                assert(resource_write_ok(old(self)@, d, data@) && self@ == with_resource(
                    old(self)@,
                    d,
                    data@,
                ));
            }
        }
        r
    }

    /// Replaces the descriptor of the asset named `name`, which must have type
    /// `ty`, by `new_descriptor`, and, when `data` is given, writes it over
    /// the asset's resource. A descriptor cannot grow past the space the old
    /// one occupies. Every check is made before any byte is written.
    pub fn update_descriptor(
        &mut self,
        name: &str,
        ty: AssetType,
        new_descriptor: &[u8],
        data: Option<&[u8]>,
    ) -> (r: Result<(), AssetError>)
        requires
            old(self).wf(),
        ensures
            final(self).wf(),
            r is Err ==> final(self)@ == old(self)@,
            match find_named(old(self)@.records, name.spec_bytes()) {
                None => r matches Err(AssetError::NotFound),
                Some(i) => {
                    let c = old(self)@;
                    let d = c.records[i];
                    let fits = d.descriptor_ptr + new_descriptor@.len() <= c.descriptors.len();
                    &&& d.asset_type != ty ==> (r matches Err(AssetError::TypeMismatch))
                    &&& d.asset_type == ty && new_descriptor@.len() > d.descriptor_size ==> (
                    r matches Err(AssetError::DescriptorGrowthUnsupported))
                    &&& d.asset_type == ty && new_descriptor@.len() <= d.descriptor_size && !fits
                        ==> (r matches Err(AssetError::ParseError(_)))
                    &&& d.asset_type == ty && new_descriptor@.len() <= d.descriptor_size && fits
                        && data is Some && views_of(c, d) is Err ==> (r matches Err(
                        AssetError::ParseError(_),
                    ))
                    &&& d.asset_type == ty && new_descriptor@.len() <= d.descriptor_size && fits
                        && data is Some && views_of(c, d) is Ok && data->Some_0@.len() != total_size(
                        views_of(c, d)->Ok_0,
                    ) ==> (r matches Err(AssetError::SizeMismatch))
                    &&& d.asset_type == ty && new_descriptor@.len() <= d.descriptor_size && fits
                        && data is Some && views_of(c, d) is Ok && data->Some_0@.len() == total_size(
                        views_of(c, d)->Ok_0,
                    ) && !resource_write_ok(c, d, data->Some_0@) ==> (r matches Err(
                        AssetError::ParseError(_),
                    ))
                    &&& d.asset_type == ty && new_descriptor@.len() <= d.descriptor_size && fits
                        && (data is None || resource_write_ok(c, d, data->Some_0@)) ==> r is Ok
                    &&& r is Ok ==> final(self)@ == match data {
                        Some(x) => with_descriptor(with_resource(c, d, x@), i, new_descriptor@),
                        None => with_descriptor(c, i, new_descriptor@),
                    }
                },
            },
    {
        let i = match self.typed_row(name, ty) {
            Ok(i) => i,
            Err(e) => return Err(e),
        };
        assert(self.asset_descriptions@[i as int]@ == self@.records[i as int]);
        let ptr = self.asset_descriptions[i].descriptor_ptr() as usize;
        let current = self.asset_descriptions[i].descriptor_size() as usize;
        if new_descriptor.len() > current {
            return Err(AssetError::DescriptorGrowthUnsupported);
        }
        if ptr > self.descriptor_bytes.len() || self.descriptor_bytes.len() - ptr
            < new_descriptor.len() {
            return Err(
                AssetError::ParseError(
                    AssetParseError::InvalidDataViews(
                        "The descriptor lies outside the descriptor section.".to_string(),
                    ),
                ),
            );
        }
        let views = match data {
            Some(x) => match self.checked_resource_views(i, x) {
                Ok(l) => Some(l),
                Err(e) => return Err(e),
            },
            None => None,
        };
        let ghost c0 = self@;
        match (data, views) {
            (Some(x), Some(l)) => {
                let res = l.write_bytes(x, &mut self.buffer_bytes);
                assert(res is Ok);
                assert(self@ =~= with_resource(c0, c0.records[i as int], x@));
            },
            _ => {},
        }
        let ghost c1 = self@;
        overwrite_bytes(&mut self.descriptor_bytes, ptr, new_descriptor);
        let ghost c2 = self@;
        assert(c2 =~= ContainerView {
            descriptors: write_at(c1.descriptors, ptr as int, new_descriptor@),
            ..c1
        });
        assert(self.asset_descriptions@[i as int].wf());
        proof {
            lemma_table_rows(self.asset_desc_bytes@);
        }
        let record = self.asset_descriptions[i].with_descriptor_size(new_descriptor.len() as u32);
        assert(record@.index == i);
        self.store_record(record);
        Ok(())
    }

    /// Replaces the descriptor of the asset named `name` by the bytes the
    /// codec of `AD` writes for `descriptor`, and, when `data` is given,
    /// writes it over the asset's resource (see [`BNLFile::update_descriptor`]).
    pub fn update_asset_from_descriptor<AD: AssetDescriptor>(
        &mut self,
        name: &str,
        descriptor: &AD,
        data: Option<&Vec<u8>>,
    ) -> (r: Result<(), AssetError>)
        requires
            old(self).wf(),
        ensures
            final(self).wf(),
            r is Err ==> final(self)@ == old(self)@,
            match find_named(old(self)@.records, name.spec_bytes()) {
                None => r matches Err(AssetError::NotFound),
                Some(i) => {
                    let c = old(self)@;
                    let d = c.records[i];
                    &&& d.asset_type != AD::spec_asset_type() ==> (r matches Err(
                        AssetError::TypeMismatch,
                    ))
                    &&& d.asset_type == AD::spec_asset_type() && data is Some && views_of(c, d) is Ok
                        && data->Some_0@.len() != total_size(views_of(c, d)->Ok_0) ==> (r matches Err(
                        AssetError::SizeMismatch,
                    ) || r matches Err(AssetError::DescriptorGrowthUnsupported) || r matches Err(
                        AssetError::ParseError(_),
                    ))
                    &&& r is Ok ==> exists|desc: Seq<u8>|
                        desc.len() <= d.descriptor_size && final(self)@ == match data {
                            Some(x) => with_descriptor(with_resource(c, d, x@), i, desc),
                            None => with_descriptor(c, i, desc),
                        }
                },
            },
    {
        let ty = AD::asset_type();
        match self.typed_row(name, ty) {
            Ok(_) => {},
            Err(e) => return Err(e),
        }
        let bytes = match descriptor.to_bytes() {
            Ok(b) => b,
            Err(e) => return Err(AssetError::ParseError(e)),
        };
        let resource: Option<&[u8]> = match data {
            Some(v) => Some(v.as_slice()),
            None => None,
        };
        let r = self.update_descriptor(name, ty, bytes.as_slice(), resource);
        proof {
            if r is Ok {
                let i = find_named(old(self)@.records, name.spec_bytes())->Some_0;
                let d = old(self)@.records[i];
                assert(bytes@.len() <= d.descriptor_size);
            }
        }
        r
    }
}

} // verus!
