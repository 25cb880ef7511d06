//! NUL-padded names stored in fixed-size byte fields.
use vstd::prelude::*;
use vstd::string::StringSliceAdditionalSpecFns;
use vstd::utf8::*;

verus! {

/// `k` is the position of the first NUL of `s`, or its length when it has none.
pub open spec fn is_nul_index(s: Seq<u8>, k: int) -> bool {
    &&& 0 <= k <= s.len()
    &&& forall|j: int| 0 <= j < k ==> s[j] != 0
    &&& k < s.len() ==> s[k] == 0
}

/// The position of the first NUL of `s`, or its length when it has none.
pub open spec fn nul_index(s: Seq<u8>) -> int {
    choose|k: int| is_nul_index(s, k)
}

/// The text a name field holds: its bytes before the first NUL, when the
/// whole field is valid UTF-8, and nothing otherwise.
pub open spec fn name_bytes(field: Seq<u8>) -> Seq<u8> {
    if valid_utf8(field) {
        field.take(nul_index(field))
    } else {
        Seq::empty()
    }
}

/// Only one position is the first NUL.
pub proof fn lemma_nul_index_unique(s: Seq<u8>, k: int)
    requires
        is_nul_index(s, k),
    ensures
        nul_index(s) == k,
{
    let c = nul_index(s);
    assert(is_nul_index(s, c));
    if c < k {
        assert(s[c] == 0);
    } else if k < c {
        assert(s[k] == 0);
    }
}

/// Cutting valid UTF-8 just before a NUL byte leaves valid UTF-8.
pub proof fn lemma_utf8_prefix_at_nul(b: Seq<u8>, k: int)
    requires
        valid_utf8(b),
        0 <= k <= b.len(),
        k < b.len() ==> b[k] == 0,
    ensures
        valid_utf8(b.take(k)),
    decreases b.len(),
{
    if k == b.len() {
        assert(b.take(k) =~= b);
    } else if k == 0 {
        assert(b.take(k).len() == 0);
    } else {
        let p = b.take(k);
        let len = length_of_first_scalar(b);
        assert(len <= k) by {
            if len > k {
                assert(is_continuation_byte(b[k]));
            }
        }
        assert(p[0] == b[0]);
        assert(1 < len ==> p[1] == b[1]);
        assert(2 < len ==> p[2] == b[2]);
        assert(3 < len ==> p[3] == b[3]);
        assert(valid_first_scalar(p));
        assert(length_of_first_scalar(p) == len);
        let rest = pop_first_scalar(b);
        assert(pop_first_scalar(p) =~= rest.take(k - len));
        lemma_utf8_prefix_at_nul(rest, k - len);
    }
}

/// Relies on `std::str::from_utf8`: it succeeds exactly on valid UTF-8, and
/// the text it gives back is made of the same bytes.
#[verifier::external_body]
pub(crate) fn utf8_text(bytes: &[u8]) -> (r: Option<&str>)
    ensures
        r is Some <==> valid_utf8(bytes@),
        r matches Some(s) ==> s.spec_bytes() == bytes@,
{
    std::str::from_utf8(bytes).ok()
}

/// The position of the first NUL of `s`, or its length when it has none.
pub fn find_nul(s: &[u8]) -> (k: usize)
    ensures
        is_nul_index(s@, k as int),
        nul_index(s@) == k,
{
    let n = s.len();
    let mut i: usize = 0;
    while i < n
        invariant
            n == s@.len(),
            i <= n,
            forall|j: int| 0 <= j < i ==> s@[j] != 0,
        decreases n - i,
    {
        if s[i] == 0 {
            proof {
                lemma_nul_index_unique(s@, i as int);
            }
            return i;
        }
        i = i + 1;
    }
    proof {
        lemma_nul_index_unique(s@, i as int);
    }
    i
}

/// The text of a name field (see [`name_bytes`]).
pub fn name_text(field: &[u8]) -> (r: String)
    ensures
        encode_utf8(r@) == name_bytes(field@),
{
    let k = find_nul(field);
    match utf8_text(field) {
        None => String::new(),
        Some(_) => {
            proof {
                lemma_utf8_prefix_at_nul(field@, k as int);
            }
            match utf8_text(&field[0..k]) {
                Some(s) => {
                    assert(field@.subrange(0, k as int) =~= field@.take(k as int));
                    s.to_owned()
                },
                None => String::new(),
            }
        },
    }
}

/// Whether the text of a name field (see [`name_bytes`]) is `name`.
pub fn name_is(field: &[u8], name: &str) -> (r: bool)
    ensures
        r == (name_bytes(field@) == name.spec_bytes()),
{
    let q = name.as_bytes();
    let k = find_nul(field);
    let valid = utf8_text(field).is_some();
    let m: usize = if valid { k } else { 0 };
    assert(name_bytes(field@) =~= field@.take(m as int));
    if q.len() != m {
        assert(name_bytes(field@).len() == m);
        return false;
    }
    let mut i: usize = 0;
    while i < m
        invariant
            m <= field@.len(),
            name_bytes(field@) == field@.take(m as int),
            q@ == name.spec_bytes(),
            q@.len() == m,
            i <= m,
            forall|j: int| 0 <= j < i ==> field@[j] == q@[j],
        decreases m - i,
    {
        if field[i] != q[i] {
            assert(field@.take(m as int)[i as int] != q@[i as int]);
            return false;
        }
        i = i + 1;
    }
    assert(field@.take(m as int) =~= q@);
    true
}

} // verus!
