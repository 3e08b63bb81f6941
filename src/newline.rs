use vstd::prelude::*;

verus! {

/// Line feed.
pub const LF: u8 = 10;

/// Carriage return.
pub const CR: u8 = 13;

/// True when `s[i]` is a line feed that no carriage return precedes.
pub open spec fn bare_lf_at(s: Seq<u8>, i: int) -> bool {
    0 <= i < s.len() && s[i] == LF && (i == 0 || s[i - 1] != CR)
}

/// True when every line feed of `s` follows a carriage return.
pub open spec fn no_bare_lf(s: Seq<u8>) -> bool {
    forall|i: int| 0 <= i < s.len() ==> !#[trigger] bare_lf_at(s, i)
}

/// The terminal form of `s`: every line feed that does not already follow a
/// carriage return gets one inserted before it; all other bytes are kept.
pub open spec fn crlf(s: Seq<u8>) -> Seq<u8>
    decreases s.len(),
{
    if s.len() == 0 {
        s
    } else {
        let prev = crlf(s.drop_last());
        if bare_lf_at(s, s.len() - 1) {
            prev + seq![CR, LF]
        } else {
            prev.push(s.last())
        }
    }
}

/// Returns the terminal form of `bytes` (see `crlf`): a raw-mode terminal
/// does no newline conversion of its own.
pub fn to_crlf(bytes: &[u8]) -> (r: Vec<u8>)
    ensures
        r@ == crlf(bytes@),
{
    let mut r: Vec<u8> = Vec::new();
    let mut i: usize = 0;
    while i < bytes.len()
        invariant
            i <= bytes@.len(),
            r@ == crlf(bytes@.subrange(0, i as int)),
        decreases bytes@.len() - i,
    {
        let b = bytes[i];
        assert(bytes@.subrange(0, i as int + 1).drop_last() == bytes@.subrange(0, i as int));
        if b == LF && (i == 0 || bytes[i - 1] != CR) {
            r.push(CR);
            r.push(LF);
        } else {
            r.push(b);
        }
        i = i + 1;
    }
    assert(bytes@.subrange(0, bytes@.len() as int) == bytes@);
    r
}

/// The terminal form of a non-empty sequence ends with the same byte.
pub proof fn lemma_crlf_last(s: Seq<u8>)
    requires
        s.len() > 0,
    ensures
        crlf(s).len() > 0,
        crlf(s).last() == s.last(),
{
}

/// The terminal form holds no bare line feed.
pub proof fn lemma_crlf_no_bare_lf(s: Seq<u8>)
    ensures
        no_bare_lf(crlf(s)),
    decreases s.len(),
{
    if s.len() > 0 {
        let p = s.drop_last();
        lemma_crlf_no_bare_lf(p);
        let prev = crlf(p);
        let t = crlf(s);
        assert forall|i: int| 0 <= i < t.len() implies !#[trigger] bare_lf_at(t, i) by {
            if i < prev.len() {
                assert(t[i] == prev[i]);
                if i > 0 {
                    assert(t[i - 1] == prev[i - 1]);
                }
                assert(!bare_lf_at(prev, i));
            } else if !bare_lf_at(s, s.len() - 1) && s.last() == LF {
                lemma_crlf_last(p);
                assert(t[i - 1] == prev.last());
            }
        }
    }
}

/// A sequence without bare line feeds is its own terminal form.
pub proof fn lemma_crlf_fixed_point(s: Seq<u8>)
    requires
        no_bare_lf(s),
    ensures
        crlf(s) == s,
    decreases s.len(),
{
    if s.len() > 0 {
        let p = s.drop_last();
        assert forall|i: int| 0 <= i < p.len() implies !#[trigger] bare_lf_at(p, i) by {
            assert(!bare_lf_at(s, i));
        }
        lemma_crlf_fixed_point(p);
        assert(!bare_lf_at(s, s.len() - 1));
        assert(p.push(s.last()) == s);
    }
}

/// Converting twice gives the same bytes as converting once: a carriage
/// return is never doubled.
pub proof fn lemma_crlf_idempotent(s: Seq<u8>)
    ensures
        crlf(crlf(s)) == crlf(s),
{
    lemma_crlf_no_bare_lf(s);
    lemma_crlf_fixed_point(crlf(s));
}

/// The number of line feeds in `s`.
pub open spec fn count_lf(s: Seq<u8>) -> nat
    decreases s.len(),
{
    if s.len() == 0 {
        0
    } else {
        count_lf(s.drop_last()) + if s.last() == LF {
            1nat
        } else {
            0nat
        }
    }
}

/// The number of line feeds in a concatenation is the sum of the parts'.
pub proof fn lemma_count_lf_append(a: Seq<u8>, b: Seq<u8>)
    ensures
        count_lf(a + b) == count_lf(a) + count_lf(b),
    decreases b.len(),
{
    if b.len() == 0 {
        assert(a + b =~= a);
    } else {
        lemma_count_lf_append(a, b.drop_last());
        assert((a + b).drop_last() =~= a + b.drop_last());
    }
}

/// Conversion keeps every line feed: each one of the input stands in the
/// output, preceded by a carriage return.
pub proof fn lemma_crlf_keeps_line_feeds(s: Seq<u8>)
    ensures
        count_lf(crlf(s)) == count_lf(s),
        no_bare_lf(crlf(s)),
    decreases s.len(),
{
    lemma_crlf_no_bare_lf(s);
    if s.len() > 0 {
        let p = s.drop_last();
        lemma_crlf_keeps_line_feeds(p);
        if bare_lf_at(s, s.len() - 1) {
            lemma_count_lf_append(crlf(p), seq![CR, LF]);
            assert(seq![CR, LF].drop_last() =~= seq![CR]);
            assert(seq![CR].drop_last() =~= Seq::<u8>::empty());
            assert(count_lf(Seq::<u8>::empty()) == 0);
            assert(count_lf(seq![CR]) == 0);
            assert(count_lf(seq![CR, LF]) == 1);
            assert(s.last() == LF);
        } else {
            assert(crlf(p).push(s.last()).drop_last() =~= crlf(p));
            assert(crlf(s) == crlf(p).push(s.last()));
        }
    }
}

} // verus!
