//! Wide (UTF-16) strings as the Windows API takes them: the encoding of a
//! string, its NUL-terminated form, and the part of a NUL-terminated
//! buffer that such an API reads.
use vstd::prelude::*;

verus! {

/// The UTF-16 code units of one character.
pub open spec fn utf16_units(c: char) -> Seq<u16> {
    let v = c as int;
    if v < 0x10000 {
        seq![v as u16]
    } else {
        let w = v - 0x10000;
        seq![(0xD800 + w / 0x400) as u16, (0xDC00 + w % 0x400) as u16]
    }
}

/// The UTF-16 encoding of a character sequence.
pub open spec fn utf16(s: Seq<char>) -> Seq<u16>
    decreases s.len(),
{
    if s.len() == 0 {
        Seq::empty()
    } else {
        utf16(s.drop_last()) + utf16_units(s.last())
    }
}

/// The UTF-16 encoding followed by a terminating NUL unit.
pub open spec fn utf16_nul(s: Seq<char>) -> Seq<u16> {
    utf16(s).push(0u16)
}

/// The units of `w` before its first NUL (all of `w` when it has none):
/// what an API that reads a NUL-terminated wide string sees.
pub open spec fn until_nul(w: Seq<u16>) -> Seq<u16>
    decreases w.len(),
{
    if w.len() == 0 {
        w
    } else if w[0] == 0 {
        Seq::empty()
    } else {
        seq![w[0]] + until_nul(w.drop_first())
    }
}

/// The number of bytes that `n` UTF-16 units take.
pub open spec fn wide_byte_len(n: nat) -> nat {
    n * 2
}

proof fn lemma_units_nonzero(c: char)
    requires
        c != '\0',
    ensures
        forall|i: int| 0 <= i < utf16_units(c).len() ==> #[trigger] utf16_units(c)[i] != 0,
        1 <= utf16_units(c).len() <= 2,
{
    let v = c as int;
    assert(0 < v <= 0x10FFFF);
    if v >= 0x10000 {
        let w = v - 0x10000;
        assert(0 <= w / 0x400 < 0x400);
        assert(0 <= w % 0x400 < 0x400);
    }
}

/// A string's encoding takes at least one and at most two units per
/// character.
pub proof fn lemma_utf16_len_bound(s: Seq<char>)
    ensures
        s.len() <= utf16(s).len() <= 2 * s.len(),
    decreases s.len(),
{
    if s.len() > 0 {
        lemma_utf16_len_bound(s.drop_last());
    }
}

/// A character sequence with no NUL character.
pub open spec fn no_nul(s: Seq<char>) -> bool {
    forall|i: int| 0 <= i < s.len() ==> s[i] != '\0'
}

/// The encoding of a string without NUL characters holds no NUL unit, and
/// its length lies between the number of characters and twice that.
pub proof fn lemma_utf16_no_nul(s: Seq<char>)
    requires
        no_nul(s),
    ensures
        forall|i: int| 0 <= i < utf16(s).len() ==> #[trigger] utf16(s)[i] != 0,
        s.len() <= utf16(s).len() <= 2 * s.len(),
    decreases s.len(),
{
    if s.len() > 0 {
        lemma_utf16_no_nul(s.drop_last());
        lemma_units_nonzero(s.last());
        let a = utf16(s.drop_last());
        let b = utf16_units(s.last());
        assert forall|i: int| 0 <= i < utf16(s).len() implies #[trigger] utf16(s)[i] != 0 by {
            if i < a.len() {
                assert(utf16(s)[i] == a[i]);
            } else {
                assert(utf16(s)[i] == b[i - a.len()]);
            }
        }
    }
}

proof fn lemma_until_nul_of_nonzero(w: Seq<u16>)
    requires
        forall|i: int| 0 <= i < w.len() ==> #[trigger] w[i] != 0,
    ensures
        until_nul(w) == w,
        until_nul(w.push(0u16)) == w,
    decreases w.len(),
{
    if w.len() > 0 {
        lemma_until_nul_of_nonzero(w.drop_first());
        assert(w.push(0u16).drop_first() =~= w.drop_first().push(0u16));
        assert(seq![w[0]] + w.drop_first() =~= w);
    } else {
        assert(w.push(0u16)[0] == 0);
    }
}

/// Reading a NUL-terminated encoding back up to its NUL gives the encoding
/// itself, for every string without NUL characters.
pub proof fn lemma_until_nul_of_utf16_nul(s: Seq<char>)
    requires
        no_nul(s),
    ensures
        until_nul(utf16_nul(s)) == utf16(s),
{
    lemma_utf16_no_nul(s);
    lemma_until_nul_of_nonzero(utf16(s));
}

fn push_units(out: &mut Vec<u16>, c: char)
    ensures
        final(out)@ == old(out)@ + utf16_units(c),
{
    let v: u32 = c as u32;
    if v < 0x10000 {
        out.push(v as u16);
    } else {
        let w: u32 = v - 0x10000;
        let hi: u32 = 0xD800 + w / 0x400;
        let lo: u32 = 0xDC00 + w % 0x400;
        out.push(hi as u16);
        out.push(lo as u16);
    }
    proof {
        assert(final(out)@ =~= old(out)@ + utf16_units(c));
    }
}

/// The UTF-16 encoding of `s`.
pub fn encode_wide(s: &str) -> (w: Vec<u16>)
    ensures
        w@ == utf16(s@),
{
    let n = s.unicode_len();
    let mut w: Vec<u16> = Vec::new();
    let mut i: usize = 0;
    while i < n
        invariant
            n == s@.len(),
            i <= n,
            w@ == utf16(s@.subrange(0, i as int)),
        decreases n - i,
    {
        let c = s.get_char(i);
        push_units(&mut w, c);
        proof {
            let next = s@.subrange(0, i + 1);
            assert(next.drop_last() =~= s@.subrange(0, i as int));
            assert(next.last() == c);
        }
        i = i + 1;
    }
    assert(s@.subrange(0, n as int) =~= s@);
    w
}

/// The UTF-16 encoding of `s` followed by a terminating NUL unit.
pub fn encode_wide_nul(s: &str) -> (w: Vec<u16>)
    ensures
        w@ == utf16_nul(s@),
{
    let mut w = encode_wide(s);
    w.push(0u16);
    w
}

/// Whether two wide strings hold the same units.
pub fn wide_eq(a: &[u16], b: &[u16]) -> (r: bool)
    ensures
        r == (a@ == b@),
{
    if a.len() != b.len() {
        return false;
    }
    let mut i: usize = 0;
    while i < a.len()
        invariant
            a.len() == b.len(),
            i <= a.len(),
            forall|j: int| 0 <= j < i ==> a@[j] == b@[j],
        decreases a.len() - i,
    {
        if a[i] != b[i] {
            return false;
        }
        i = i + 1;
    }
    assert(a@ =~= b@);
    true
}

/// The part of `w` before its first NUL unit.
pub fn wide_until_nul(w: &[u16]) -> (r: Vec<u16>)
    ensures
        r@ == until_nul(w@),
{
    let mut r: Vec<u16> = Vec::new();
    let mut i: usize = 0;
    proof {
        assert(w@.subrange(0, w@.len() as int) =~= w@);
        assert(r@ + w@ =~= w@);
        assert(r@ + until_nul(w@) =~= until_nul(w@));
    }
    while i < w.len()
        invariant
            i <= w.len(),
            forall|j: int| 0 <= j < i ==> w@[j] != 0,
            r@ == w@.subrange(0, i as int),
            until_nul(w@) == r@ + until_nul(w@.subrange(i as int, w@.len() as int)),
        decreases w.len() - i,
    {
        if w[i] == 0 {
            proof {
                let rest = w@.subrange(i as int, w@.len() as int);
                assert(rest[0] == 0);
                assert(r@ + Seq::<u16>::empty() =~= r@);
            }
            return r;
        }
        proof {
            let rest = w@.subrange(i as int, w@.len() as int);
            assert(rest.drop_first() =~= w@.subrange(i + 1, w@.len() as int));
            assert(r@.push(w@[i as int]) =~= r@ + seq![w@[i as int]]);
            assert(r@ + seq![w@[i as int]] + until_nul(rest.drop_first()) =~= r@ + (seq![rest[0]] + until_nul(rest.drop_first())));
        }
        r.push(w[i]);
        i = i + 1;
    }
    proof {
        let rest = w@.subrange(i as int, w@.len() as int);
        assert(rest.len() == 0);
        assert(r@ + rest =~= r@);
    }
    r
}

/// The number of bytes a buffer of `len` UTF-16 units takes.
pub fn wide_bytes(len: usize) -> (n: usize)
    requires
        len * 2 <= usize::MAX,
    ensures
        n == wide_byte_len(len as nat),
{
    len * 2
}

} // verus!
