//! A resource split over several byte ranges, read as if it were contiguous.
use vstd::prelude::*;

use crate::bytes::le_u32;
use crate::dataview::{
    parse_view_list, resolve_views, total_size, views_in_bounds, DataView, DataViewList,
};

verus! {

/// Why bytes could not be read from a [`VirtualResource`].
#[derive(Debug, Clone, Copy, PartialEq, Eq, Structural)]
pub enum VirtualResourceError {
    /// The start lies past the end of the resource, or a range lies outside
    /// its backing buffer.
    OffsetOutOfBounds,
    /// The range reaches past the end of the resource, or the resource is
    /// longer than memory can address.
    SizeOutOfBounds,
}

/// The parts one after the other.
pub open spec fn concat_parts(parts: Seq<Seq<u8>>) -> Seq<u8>
    decreases parts.len(),
{
    if parts.len() == 0 {
        Seq::empty()
    } else {
        concat_parts(parts.drop_last()) + parts.last()
    }
}

/// Concatenating one more part appends it.
pub proof fn lemma_concat_take(parts: Seq<Seq<u8>>, k: int)
    requires
        0 <= k < parts.len(),
    ensures
        concat_parts(parts.take(k + 1)) == concat_parts(parts.take(k)) + parts[k],
{
    assert(parts.take(k + 1).drop_last() =~= parts.take(k));
}

/// A prefix of the parts is never longer than all of them.
pub proof fn lemma_concat_prefix_len(parts: Seq<Seq<u8>>, k: int)
    requires
        0 <= k <= parts.len(),
    ensures
        concat_parts(parts.take(k)).len() <= concat_parts(parts).len(),
    decreases parts.len() - k,
{
    if k == parts.len() {
        assert(parts.take(k) =~= parts);
    } else {
        lemma_concat_take(parts, k);
        lemma_concat_prefix_len(parts, k + 1);
    }
}

/// The resolved ranges of a list hold as many bytes as the list's sizes add
/// up to.
pub proof fn lemma_resolved_len(views: Seq<DataView>, data: Seq<u8>)
    requires
        views_in_bounds(views, data.len()),
    ensures
        concat_parts(resolve_views(views, data)->Some_0).len() == total_size(views),
    decreases views.len(),
{
    let parts = resolve_views(views, data)->Some_0;
    if views.len() > 0 {
        let before = views.drop_last();
        assert(views_in_bounds(before, data.len())) by {
            assert forall|i: int| 0 <= i < before.len() implies crate::dataview::view_in_bounds(
                #[trigger] before[i],
                data.len(),
            ) by {
                assert(before[i] == views[i]);
            }
        }
        lemma_resolved_len(before, data);
        assert(parts.drop_last() =~= resolve_views(before, data)->Some_0);
        assert(crate::dataview::view_in_bounds(views[views.len() - 1], data.len()));
    }
}

/// A list of views read from `b` and resolved against `backing` makes a
/// resource that holds exactly as many bytes as the view sizes add up to,
/// and the list's declared size gives back its view count.
pub proof fn lemma_view_list_resource_length(b: Seq<u8>, backing: Seq<u8>)
    requires
        parse_view_list(b) is Ok,
        resolve_views(parse_view_list(b)->Ok_0, backing) is Some,
    ensures
        concat_parts(resolve_views(parse_view_list(b)->Ok_0, backing)->Some_0).len() == total_size(
            parse_view_list(b)->Ok_0,
        ),
        parse_view_list(b)->Ok_0.len() == (le_u32(b, 0) - 8) / 8,
{
    lemma_resolved_len(parse_view_list(b)->Ok_0, backing);
}

/// The window `[start, end)` of `a + s`, both ends cut at its length, is the
/// window of `a` followed by the part of `s` that the window covers.
proof fn lemma_window_step(a: Seq<u8>, s: Seq<u8>, start: int, end: int)
    requires
        0 <= start <= end,
    ensures
        ({
            let p = a.len() as int;
            let q = p + s.len();
            let lo = if start > p { start } else { p };
            let hi = if end < q { end } else { q };
            (a + s).subrange(
                if start < q { start } else { q },
                if end < q { end } else { q },
            ) == a.subrange(
                if start < p { start } else { p },
                if end < p { end } else { p },
            ) + (if lo < hi { s.subrange(lo - p, hi - p) } else { Seq::empty() })
        }),
{
    let p = a.len() as int;
    let q = p + s.len();
    let lo = if start > p { start } else { p };
    let hi = if end < q { end } else { q };
    let left = (a + s).subrange(if start < q { start } else { q }, if end < q { end } else { q });
    let right = a.subrange(if start < p { start } else { p }, if end < p { end } else { p }) + (
    if lo < hi {
        s.subrange(lo - p, hi - p)
    } else {
        Seq::empty()
    });
    assert(left =~= right);
}

/// Appends `src` to `out`.
pub fn append_bytes(out: &mut Vec<u8>, src: &[u8])
    ensures
        final(out)@ == old(out)@ + src@,
{
    let ghost start = out@;
    let n = src.len();
    let mut i: usize = 0;
    while i < n
        invariant
            n == src@.len(),
            i <= n,
            out@ == start + src@.take(i as int),
        decreases n - i,
    {
        out.push(src[i]);
        i = i + 1;
        assert(out@ =~= start + src@.take(i as int));
    }
    assert(src@.take(n as int) =~= src@);
}

/// The error for the first view of `views` that does not lie inside a
/// buffer of `len` bytes: `OffsetOutOfBounds` when it starts past the end,
/// `SizeOutOfBounds` when it starts inside but ends past the end; `None`
/// when every view lies inside.
pub open spec fn view_error(views: Seq<DataView>, len: nat) -> Option<VirtualResourceError>
    decreases views.len(),
{
    if views.len() == 0 {
        None
    } else {
        match view_error(views.drop_last(), len) {
            Some(e) => Some(e),
            None => {
                let v = views.last();
                if v.offset > len {
                    Some(VirtualResourceError::OffsetOutOfBounds)
                } else if v.offset + v.size > len {
                    Some(VirtualResourceError::SizeOutOfBounds)
                } else {
                    None
                }
            },
        }
    }
}

/// No view is reported exactly when every view lies inside.
pub proof fn lemma_view_error_none(views: Seq<DataView>, len: nat)
    ensures
        view_error(views, len) is None <==> views_in_bounds(views, len),
    decreases views.len(),
{
    if views.len() > 0 {
        let before = views.drop_last();
        lemma_view_error_none(before, len);
        if views_in_bounds(views, len) {
            assert forall|i: int| 0 <= i < before.len() implies crate::dataview::view_in_bounds(
                #[trigger] before[i],
                len,
            ) by {
                assert(before[i] == views[i]);
            }
            assert(crate::dataview::view_in_bounds(views[views.len() - 1], len));
        }
        if view_error(views, len) is None {
            assert forall|i: int| 0 <= i < views.len() implies crate::dataview::view_in_bounds(
                #[trigger] views[i],
                len,
            ) by {
                if i < views.len() - 1 {
                    assert(before[i] == views[i]);
                }
            }
        }
    }
}

/// Once a prefix reports a view, every longer prefix reports the same one.
proof fn lemma_view_error_prefix(views: Seq<DataView>, len: nat, k: int, m: int)
    requires
        0 <= k <= m <= views.len(),
        view_error(views.take(k), len) is Some,
    ensures
        view_error(views.take(m), len) == view_error(views.take(k), len),
    decreases m - k,
{
    if k < m {
        lemma_view_error_prefix(views, len, k, m - 1);
        assert(views.take(m).drop_last() =~= views.take(m - 1));
    }
}

/// The error for the first view that does not lie inside `len` bytes.
pub fn first_view_error(views: &[DataView], len: usize) -> (r: Option<VirtualResourceError>)
    ensures
        r == view_error(views@, len as nat),
{
    let n = views.len();
    let mut i: usize = 0;
    while i < n
        invariant
            n == views@.len(),
            i <= n,
            view_error(views@.take(i as int), len as nat) is None,
        decreases n - i,
    {
        let v = views[i];
        assert(views@.take(i as int + 1).drop_last() =~= views@.take(i as int));
        let e = if v.offset as usize > len {
            Some(VirtualResourceError::OffsetOutOfBounds)
        } else if len - (v.offset as usize) < v.size as usize {
            Some(VirtualResourceError::SizeOutOfBounds)
        } else {
            None
        };
        if e.is_some() {
            proof {
                lemma_view_error_prefix(views@, len as nat, i as int + 1, n as int);
                assert(views@.take(n as int) =~= views@);
            }
            return e;
        }
        i = i + 1;
    }
    assert(views@.take(n as int) =~= views@);
    None
}

/// One logical resource made of byte slices, addressed as a single run of
/// bytes: logical offset zero is the first byte of the first slice.
#[derive(Debug)]
pub struct VirtualResource<'a> {
    slices: Vec<&'a [u8]>,
}

impl<'a> View for VirtualResource<'a> {
    type V = Seq<Seq<u8>>;

    closed spec fn view(&self) -> Seq<Seq<u8>> {
        self.slices@.map_values(|s: &[u8]| s@)
    }
}

impl<'a> VirtualResource<'a> {
    /// The logical length fits in a `usize`.
    pub closed spec fn wf(&self) -> bool {
        concat_parts(self@).len() <= usize::MAX
    }

    /// The resource's bytes, in logical order.
    pub open spec fn bytes(&self) -> Seq<u8> {
        concat_parts(self@)
    }

    /// The ranges of `bytes` that `dataview_list` names, in order.
    pub fn from_dvl(dataview_list: &DataViewList, bytes: &'a [u8]) -> (r: Result<
        VirtualResource<'a>,
        VirtualResourceError,
    >)
        requires
            dataview_list.wf(),
        ensures
            view_error(dataview_list@, bytes@.len()) matches Some(e) ==> r == Err::<
                VirtualResource<'a>,
                VirtualResourceError,
            >(e),
            views_in_bounds(dataview_list@, bytes@.len()) && total_size(dataview_list@)
                > usize::MAX ==> r == Err::<VirtualResource<'a>, VirtualResourceError>(
                VirtualResourceError::SizeOutOfBounds,
            ),
            views_in_bounds(dataview_list@, bytes@.len()) && total_size(dataview_list@)
                <= usize::MAX ==> r is Ok && r->Ok_0.wf() && r->Ok_0@ == resolve_views(
                dataview_list@,
                bytes@,
            )->Some_0,
            r is Ok ==> views_in_bounds(dataview_list@, bytes@.len()),
    {
        proof {
            lemma_view_error_none(dataview_list@, bytes@.len());
        }
        match first_view_error(dataview_list.views(), bytes.len()) {
            Some(e) => return Err(e),
            None => {},
        }
        match dataview_list.slices(bytes) {
            Err(_) => Err(VirtualResourceError::OffsetOutOfBounds),
            Ok(slices) => {
                proof {
                    lemma_resolved_len(dataview_list@, bytes@);
                }
                if dataview_list.logical_size() > usize::MAX as u64 {
                    Err(VirtualResourceError::SizeOutOfBounds)
                } else {
                    Ok(VirtualResource { slices })
                }
            },
        }
    }

    /// A resource made of the given slices, in order.
    pub fn from_slices(slices: &[&'a [u8]]) -> (r: VirtualResource<'a>)
        requires
            concat_parts(slices@.map_values(|s: &[u8]| s@)).len() <= usize::MAX,
        ensures
            r.wf(),
            r@ == slices@.map_values(|s: &[u8]| s@),
    {
        let mut v: Vec<&'a [u8]> = Vec::new();
        let n = slices.len();
        let mut i: usize = 0;
        while i < n
            invariant
                n == slices@.len(),
                i <= n,
                v@ == slices@.take(i as int),
            decreases n - i,
        {
            v.push(slices[i]);
            i = i + 1;
            assert(v@ =~= slices@.take(i as int));
        }
        assert(slices@.take(n as int) =~= slices@);
        VirtualResource { slices: v }
    }

    /// The logical length: the lengths of the slices added up.
    pub fn len(&self) -> (r: usize)
        requires
            self.wf(),
        ensures
            r == self.bytes().len(),
    {
        let ghost parts = self@;
        let n = self.slices.len();
        let mut total: usize = 0;
        let mut i: usize = 0;
        while i < n
            invariant
                self.wf(),
                parts == self@,
                n == parts.len(),
                i <= n,
                total == concat_parts(parts.take(i as int)).len(),
            decreases n - i,
        {
            proof {
                lemma_concat_take(parts, i as int);
                lemma_concat_prefix_len(parts, i as int + 1);
            }
            total = total + self.slices[i].len();
            i = i + 1;
        }
        assert(parts.take(n as int) =~= parts);
        total
    }

    /// Whether the resource holds no byte.
    pub fn is_empty(&self) -> (r: bool)
        requires
            self.wf(),
        ensures
            r == (self.bytes().len() == 0),
    {
        self.len() == 0
    }

    /// The `get_size` bytes from logical offset `start_offset` on, gathered
    /// from however many slices they span.
    pub fn get_bytes(&self, start_offset: usize, get_size: usize) -> (r: Result<
        Vec<u8>,
        VirtualResourceError,
    >)
        requires
            self.wf(),
        ensures
            start_offset > self.bytes().len() ==> r == Err::<Vec<u8>, VirtualResourceError>(
                VirtualResourceError::OffsetOutOfBounds,
            ),
            start_offset <= self.bytes().len() && start_offset + get_size > self.bytes().len()
                ==> r == Err::<Vec<u8>, VirtualResourceError>(
                VirtualResourceError::SizeOutOfBounds,
            ),
            start_offset + get_size <= self.bytes().len() ==> r is Ok && r->Ok_0@
                == self.bytes().subrange(start_offset as int, start_offset + get_size),
    {
        let end = self.len();
        if end < start_offset {
            return Err(VirtualResourceError::OffsetOutOfBounds);
        } else if end - start_offset < get_size {
            return Err(VirtualResourceError::SizeOutOfBounds);
        }
        let stop = start_offset + get_size;
        let ghost parts = self@;
        let mut v: Vec<u8> = Vec::new();
        let n = self.slices.len();
        let mut slice_start: usize = 0;
        let mut i: usize = 0;
        while i < n
            invariant
                self.wf(),
                parts == self@,
                n == parts.len(),
                i <= n,
                end == concat_parts(parts).len(),
                start_offset <= stop <= end,
                stop == start_offset + get_size,
                slice_start == concat_parts(parts.take(i as int)).len(),
                v@ == concat_parts(parts.take(i as int)).subrange(
                    if start_offset < slice_start { start_offset as int } else { slice_start as int },
                    if stop < slice_start { stop as int } else { slice_start as int },
                ),
            decreases n - i,
        {
            let slice = self.slices[i];
            proof {
                lemma_concat_take(parts, i as int);
                lemma_concat_prefix_len(parts, i as int + 1);
                assert(parts[i as int] == slice@);
                lemma_window_step(
                    concat_parts(parts.take(i as int)),
                    slice@,
                    start_offset as int,
                    stop as int,
                );
            }
            let slice_end = slice_start + slice.len();
            let lo = if start_offset > slice_start { start_offset } else { slice_start };
            let hi = if stop < slice_end { stop } else { slice_end };
            if lo < hi {
                append_bytes(&mut v, &slice[lo - slice_start..hi - slice_start]);
            }
            slice_start = slice_end;
            i = i + 1;
        }
        assert(parts.take(n as int) =~= parts);
        assert(v@ =~= self.bytes().subrange(start_offset as int, stop as int));
        Ok(v)
    }

    /// The whole resource as one contiguous run of bytes.
    pub fn get_all_bytes(&self) -> (r: Vec<u8>)
        requires
            self.wf(),
        ensures
            r@ == self.bytes(),
    {
        let ghost parts = self@;
        let mut bytes: Vec<u8> = Vec::new();
        let n = self.slices.len();
        let mut i: usize = 0;
        while i < n
            invariant
                parts == self@,
                n == parts.len(),
                i <= n,
                bytes@ == concat_parts(parts.take(i as int)),
            decreases n - i,
        {
            proof {
                lemma_concat_take(parts, i as int);
                assert(parts[i as int] == self.slices@[i as int]@);
            }
            append_bytes(&mut bytes, self.slices[i]);
            i = i + 1;
        }
        assert(parts.take(n as int) =~= parts);
        bytes
    }
}

} // verus!
