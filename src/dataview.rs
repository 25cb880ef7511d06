//! Byte ranges and the lists of byte ranges that make up one resource.
use vstd::prelude::*;

use crate::bytes::{le_u32, read_u32_le};

verus! {

/// A byte range: `size` bytes starting at `offset`.
#[derive(Debug, Clone, Copy, Default, PartialEq, Eq, Structural)]
pub struct DataView {
    pub offset: u32,
    pub size: u32,
}

/// The view stored in the eight bytes of `b` from `at` on.
pub open spec fn view_at(b: Seq<u8>, at: int) -> DataView {
    DataView { offset: le_u32(b, at), size: le_u32(b, at + 4) }
}

impl DataView {
    /// Reads a view at `*pos` and moves `*pos` past it; `None`, with `*pos`
    /// unchanged, when fewer than eight bytes remain.
    pub fn from_cursor(b: &[u8], pos: &mut usize) -> (r: Option<DataView>)
        ensures
            *old(pos) + 8 <= b@.len() ==> r == Some(view_at(b@, *old(pos) as int)) && *final(pos)
                == *old(pos) + 8,
            *old(pos) + 8 > b@.len() ==> r is None && *final(pos) == *old(pos),
    {
        if *pos > b.len() || b.len() - *pos < 8 {
            return None;
        }
        let offset = read_u32_le(b, *pos);
        let size = read_u32_le(b, *pos + 4);
        *pos = *pos + 8;
        Some(DataView { offset, size })
    }
}

} // verus!

verus! {

/// Why a list of views could not be read or used.
#[derive(Debug, Clone, Copy, PartialEq, Eq, Structural)]
pub enum ViewListError {
    /// Fewer than the eight bytes of the list's own header.
    TooSmall,
    /// The view count is zero, or the declared size is not `8 * count + 8`.
    Malformed,
    /// The input ends before the last declared view.
    Truncated,
    /// A view reaches past the end of the buffer it is resolved against.
    OutOfBounds,
    /// The bytes to write differ in length from the list's logical length.
    SizeMismatch,
}

/// The sum of the sizes of `views`.
pub open spec fn total_size(views: Seq<DataView>) -> int
    decreases views.len(),
{
    if views.len() == 0 {
        0
    } else {
        total_size(views.drop_last()) + views.last().size
    }
}

/// What a list of views stored in `b` holds, or why it cannot be read.
pub open spec fn parse_view_list(b: Seq<u8>) -> Result<Seq<DataView>, ViewListError> {
    if b.len() < 8 {
        Err(ViewListError::TooSmall)
    } else {
        let declared = le_u32(b, 0) as int;
        let count = le_u32(b, 4) as int;
        if count == 0 || declared != 8 * count + 8 {
            Err(ViewListError::Malformed)
        } else if b.len() < 8 * count + 8 {
            Err(ViewListError::Truncated)
        } else {
            Ok(Seq::new(count as nat, |i: int| view_at(b, 8 + 8 * i)))
        }
    }
}

/// `v` lies inside a buffer of `len` bytes.
pub open spec fn view_in_bounds(v: DataView, len: nat) -> bool {
    v.offset + v.size <= len
}

/// The bytes of `data` that `v` covers.
pub open spec fn view_bytes(data: Seq<u8>, v: DataView) -> Seq<u8> {
    data.subrange(v.offset as int, v.offset + v.size)
}

/// Every view of `views` lies inside a buffer of `len` bytes.
pub open spec fn views_in_bounds(views: Seq<DataView>, len: nat) -> bool {
    forall|i: int| 0 <= i < views.len() ==> view_in_bounds(#[trigger] views[i], len)
}

/// The ranges of `data` that `views` cover, in order; `None` when one of
/// them reaches past the end of `data`.
pub open spec fn resolve_views(views: Seq<DataView>, data: Seq<u8>) -> Option<Seq<Seq<u8>>> {
    if views_in_bounds(views, data.len()) {
        Some(Seq::new(views.len(), |i: int| view_bytes(data, views[i])))
    } else {
        None
    }
}

/// `buf` with the bytes from `at` on replaced by `src`.
pub open spec fn write_at(buf: Seq<u8>, at: int, src: Seq<u8>) -> Seq<u8> {
    Seq::new(buf.len(), |i: int| if at <= i < at + src.len() { src[i - at] } else { buf[i] })
}

/// `buf` after `data` has been written, left to right, over the ranges of
/// `views` in order.
pub open spec fn scatter(buf: Seq<u8>, views: Seq<DataView>, data: Seq<u8>) -> Seq<u8>
    decreases views.len(),
{
    if views.len() == 0 {
        buf
    } else {
        let before = views.drop_last();
        let start = total_size(before);
        write_at(
            scatter(buf, before, data),
            views.last().offset as int,
            data.subrange(start, start + views.last().size),
        )
    }
}

/// Overwrites the bytes of `buf` from `at` on with `src`.
pub fn overwrite_bytes(buf: &mut Vec<u8>, at: usize, src: &[u8])
    requires
        at + src@.len() <= old(buf)@.len(),
    ensures
        final(buf)@ == write_at(old(buf)@, at as int, src@),
{
    let ghost start = buf@;
    let n = src.len();
    let blen = buf.len();
    let mut j: usize = 0;
    while j < n
        invariant
            n == src@.len(),
            blen == buf@.len(),
            j <= n,
            at + n <= buf@.len(),
            buf@.len() == start.len(),
            buf@ == write_at(start, at as int, src@.take(j as int)),
        decreases n - j,
    {
        buf[at + j] = src[j];
        j = j + 1;
        assert(buf@ =~= write_at(start, at as int, src@.take(j as int)));
    }
    assert(src@.take(n as int) =~= src@);
}

/// Sizes add up along a prefix.
pub proof fn lemma_total_size_take(views: Seq<DataView>, k: int)
    requires
        0 <= k < views.len(),
    ensures
        total_size(views.take(k + 1)) == total_size(views.take(k)) + views[k].size,
{
    assert(views.take(k + 1).drop_last() =~= views.take(k));
}

/// A prefix never holds more bytes than the whole list.
pub proof fn lemma_total_size_prefix(views: Seq<DataView>, k: int)
    requires
        0 <= k <= views.len(),
    ensures
        0 <= total_size(views.take(k)) <= total_size(views),
    decreases views.len() - k,
{
    if k == views.len() {
        assert(views.take(k) =~= views);
        lemma_total_size_nonneg(views);
    } else {
        lemma_total_size_take(views, k);
        lemma_total_size_prefix(views, k + 1);
        lemma_total_size_nonneg(views.take(k));
    }
}

/// Sizes are never negative.
pub proof fn lemma_total_size_nonneg(views: Seq<DataView>)
    ensures
        total_size(views) >= 0,
    decreases views.len(),
{
    if views.len() > 0 {
        lemma_total_size_nonneg(views.drop_last());
    }
}

/// Every view holds at most `u32::MAX` bytes.
pub proof fn lemma_total_size_bound(views: Seq<DataView>)
    ensures
        total_size(views) <= views.len() * 0xffff_ffff,
    decreases views.len(),
{
    if views.len() > 0 {
        lemma_total_size_bound(views.drop_last());
    }
}

/// An ordered list of views that together hold one logical resource.
#[derive(Debug, Clone)]
pub struct DataViewList {
    size: u32,
    num_views: u32,
    views: Vec<DataView>,
}

impl View for DataViewList {
    type V = Seq<DataView>;

    closed spec fn view(&self) -> Seq<DataView> {
        self.views@
    }
}

impl DataViewList {
    /// The list holds at least one view, as many as its count says, and its
    /// declared size is `8 * count + 8`.
    pub closed spec fn wf(&self) -> bool {
        &&& self.views@.len() == self.num_views as int
        &&& self.size as int == 8 * self.num_views as int + 8
        &&& self.num_views >= 1
    }

    /// Reads a list: its declared size, its view count, then that many
    /// (offset, size) pairs, all little-endian `u32`s.
    pub fn from_bytes(view_bytes: &[u8]) -> (r: Result<DataViewList, ViewListError>)
        ensures
            match r {
                Ok(l) => l.wf() && parse_view_list(view_bytes@) == Ok::<Seq<DataView>, ViewListError>(l@),
                Err(e) => parse_view_list(view_bytes@) == Err::<Seq<DataView>, ViewListError>(e),
            },
    {
        if view_bytes.len() < 8 {
            return Err(ViewListError::TooSmall);
        }
        let size = read_u32_le(view_bytes, 0);
        let num_views = read_u32_le(view_bytes, 4);
        if num_views == 0 || size as u64 != 8 * (num_views as u64) + 8 {
            return Err(ViewListError::Malformed);
        }
        if ((view_bytes.len() - 8) / 8) < num_views as usize {
            return Err(ViewListError::Truncated);
        }
        let n = view_bytes.len();
        let mut views: Vec<DataView> = Vec::new();
        let mut i: u32 = 0;
        while i < num_views
            invariant
                n == view_bytes@.len(),
                i <= num_views,
                8 * num_views as int + 8 <= view_bytes@.len(),
                views@ =~= Seq::new(i as nat, |j: int| view_at(view_bytes@, 8 + 8 * j)),
            decreases num_views - i,
        {
            assert(8 + 8 * (i as int) + 8 <= view_bytes@.len());
            let at = 8 + 8 * (i as usize);
            let offset = read_u32_le(view_bytes, at);
            let vsize = read_u32_le(view_bytes, at + 4);
            views.push(DataView { offset, size: vsize });
            i = i + 1;
        }
        Ok(DataViewList { size, num_views, views })
    }

    /// The bytes of `data` that each view covers, in order.
    pub fn slices<'a>(&self, data: &'a [u8]) -> (r: Result<Vec<&'a [u8]>, ViewListError>)
        requires
            self.wf(),
        ensures
            match resolve_views(self@, data@) {
                Some(parts) => r is Ok && r->Ok_0@.map_values(|s: &[u8]| s@) == parts,
                None => r == Err::<Vec<&'a [u8]>, ViewListError>(ViewListError::OutOfBounds),
            },
    {
        let mut out: Vec<&'a [u8]> = Vec::new();
        let mut i: usize = 0;
        while i < self.views.len()
            invariant
                i <= self.views@.len(),
                forall|j: int| 0 <= j < i ==> view_in_bounds(#[trigger] self.views@[j], data@.len()),
                out@.map_values(|s: &[u8]| s@) =~= Seq::new(
                    i as nat,
                    |j: int| view_bytes(data@, self.views@[j]),
                ),
            decreases self.views@.len() - i,
        {
            let view = self.views[i];
            let start = view.offset as usize;
            if start > data.len() || data.len() - start < view.size as usize {
                assert(!view_in_bounds(self@[i as int], data@.len()));
                return Err(ViewListError::OutOfBounds);
            }
            let part = &data[start..start + view.size as usize];
            let ghost before = out@;
            out.push(part);
            assert(out@ == before.push(part));
            assert(out@.map_values(|s: &[u8]| s@) =~= before.map_values(|s: &[u8]| s@).push(part@));
            i = i + 1;
        }
        Ok(out)
    }

    /// The sum of the view sizes, which a `u64` always holds.
    pub fn logical_size(&self) -> (r: u64)
        requires
            self.wf(),
        ensures
            r == total_size(self@),
    {
        let mut total: u64 = 0;
        let mut i: usize = 0;
        while i < self.views.len()
            invariant
                self.wf(),
                i <= self.views@.len(),
                total == total_size(self.views@.take(i as int)),
            decreases self.views@.len() - i,
        {
            proof {
                lemma_total_size_take(self.views@, i as int);
                lemma_total_size_bound(self.views@.take(i as int + 1));
            }
            total = total + self.views[i].size as u64;
            i = i + 1;
        }
        assert(self.views@.take(i as int) =~= self.views@);
        total
    }

    /// The logical length of the resource: the sum of the view sizes.
    pub fn len(&self) -> (r: usize)
        requires
            self.wf(),
            total_size(self@) <= usize::MAX,
        ensures
            r == total_size(self@),
    {
        self.logical_size() as usize
    }

    /// Writes `bytes` over the views' ranges of `resource`, in order and
    /// left to right. Nothing is written when the lengths differ or a view
    /// reaches past the end of `resource`.
    pub fn write_bytes(&self, bytes: &[u8], resource: &mut Vec<u8>) -> (r: Result<(), ViewListError>)
        requires
            self.wf(),
        ensures
            bytes@.len() != total_size(self@) ==> r == Err::<(), ViewListError>(ViewListError::SizeMismatch),
            bytes@.len() == total_size(self@) && !views_in_bounds(self@, old(resource)@.len())
                ==> r == Err::<(), ViewListError>(ViewListError::OutOfBounds),
            bytes@.len() == total_size(self@) && views_in_bounds(self@, old(resource)@.len()) ==> r is Ok,
            r is Err ==> final(resource)@ == old(resource)@,
            r is Ok ==> final(resource)@ == scatter(old(resource)@, self@, bytes@),
            final(resource)@.len() == old(resource)@.len(),
    {
        let total = self.logical_size();
        if total != bytes.len() as u64 {
            return Err(ViewListError::SizeMismatch);
        }
        let n = self.views.len();
        let blen = bytes.len();
        let mut i: usize = 0;
        while i < n
            invariant
                n == self.views@.len(),
                i <= n,
                blen == bytes@.len(),
                bytes@.len() == total_size(self.views@),
                forall|j: int| 0 <= j < i ==> view_in_bounds(#[trigger] self.views@[j], resource@.len()),
            decreases n - i,
        {
            let view = self.views[i];
            if view.offset as usize > resource.len() || resource.len() - (view.offset as usize) < view.size as usize {
                assert(!view_in_bounds(self@[i as int], resource@.len()));
                return Err(ViewListError::OutOfBounds);
            }
            i = i + 1;
        }
        let ghost start = resource@;
        let mut written: usize = 0;
        i = 0;
        while i < n
            invariant
                self.wf(),
                n == self.views@.len(),
                i <= n,
                blen == bytes@.len(),
                bytes@.len() == total_size(self.views@),
                views_in_bounds(self.views@, start.len()),
                resource@.len() == start.len(),
                written == total_size(self.views@.take(i as int)),
                resource@ == scatter(start, self.views@.take(i as int), bytes@),
            decreases n - i,
        {
            let view = self.views[i];
            proof {
                lemma_total_size_take(self.views@, i as int);
                lemma_total_size_prefix(self.views@, i as int + 1);
                assert(view_in_bounds(self.views@[i as int], start.len()));
            }
            let ghost base = resource@;
            let at = view.offset as usize;
            let size = view.size as usize;
            let rlen = resource.len();
            let mut j: usize = 0;
            while j < size
                invariant
                    rlen == resource@.len(),
                    blen == bytes@.len(),
                    j <= size,
                    at + size <= resource@.len(),
                    base.len() == resource@.len(),
                    written + size <= bytes@.len(),
                    resource@ == write_at(base, at as int, bytes@.subrange(written as int, written + j)),
                decreases size - j,
            {
                resource[at + j] = bytes[written + j];
                j = j + 1;
                assert(resource@ =~= write_at(base, at as int, bytes@.subrange(written as int, written + j)));
            }
            proof {
                let taken = self.views@.take(i as int + 1);
                assert(taken.drop_last() =~= self.views@.take(i as int));
                assert(taken.last() == view);
            }
            written = written + size;
            i = i + 1;
        }
        assert(self.views@.take(n as int) =~= self.views@);
        Ok(())
    }

    /// Whether every view lies inside a buffer of `len` bytes.
    pub fn fits(&self, len: usize) -> (r: bool)
        ensures
            r == views_in_bounds(self@, len as nat),
    {
        let n = self.views.len();
        let mut i: usize = 0;
        while i < n
            invariant
                n == self.views@.len(),
                i <= n,
                forall|j: int| 0 <= j < i ==> view_in_bounds(#[trigger] self.views@[j], len as nat),
            decreases n - i,
        {
            let view = self.views[i];
            if view.offset as usize > len || len - (view.offset as usize) < view.size as usize {
                assert(!view_in_bounds(self@[i as int], len as nat));
                return false;
            }
            i = i + 1;
        }
        true
    }

    /// The views, in order.
    pub fn views(&self) -> (r: &[DataView])
        ensures
            r@ == self@,
    {
        self.views.as_slice()
    }

    /// How many views the list holds.
    pub fn num_views(&self) -> (r: u32)
        requires
            self.wf(),
        ensures
            r == self@.len(),
    {
        self.num_views
    }

    /// The declared size of the list as stored: eight bytes per view and
    /// eight for the header.
    pub fn size(&self) -> (r: u32)
        requires
            self.wf(),
        ensures
            r == 8 * self@.len() + 8,
    {
        self.size
    }
}

} // verus!
