use core::cmp::Ordering;
use vstd::prelude::*;
use vstd::string::StrSliceExecFns;

verus! {

/// Chains two comparison results: the second breaks the tie of the
/// first.
pub open spec fn spec_then(a: Ordering, b: Ordering) -> Ordering {
    match a {
        Ordering::Equal => b,
        _ => a,
    }
}

/// Lexicographic order of two character sequences by scalar value, as
/// strings of a fixed-width zero-padded form compare chronologically.
pub open spec fn spec_lex_cmp(a: Seq<char>, b: Seq<char>) -> Ordering
    decreases a.len(),
{
    if a.len() == 0 && b.len() == 0 {
        Ordering::Equal
    } else if a.len() == 0 {
        Ordering::Less
    } else if b.len() == 0 {
        Ordering::Greater
    } else if a[0] < b[0] {
        Ordering::Less
    } else if a[0] > b[0] {
        Ordering::Greater
    } else {
        spec_lex_cmp(a.drop_first(), b.drop_first())
    }
}

/// Equal sequences compare equal, and only they do.
pub proof fn lemma_lex_eq(a: Seq<char>, b: Seq<char>)
    ensures
        spec_lex_cmp(a, b) == Ordering::Equal <==> a == b,
    decreases a.len(),
{
    if a.len() == 0 && b.len() == 0 {
        assert(a =~= b);
    } else if a.len() == 0 || b.len() == 0 {
    } else if a[0] == b[0] {
        lemma_lex_eq(a.drop_first(), b.drop_first());
        if spec_lex_cmp(a, b) == Ordering::Equal {
            assert(a =~= seq![a[0]] + a.drop_first());
            assert(b =~= seq![b[0]] + b.drop_first());
        }
        if a == b {
            assert(a.drop_first() =~= b.drop_first());
        }
    } else {
        if a == b {
            assert(a[0] == b[0]);
        }
    }
}

/// The order is antisymmetric: swapping the sides reverses the outcome.
pub proof fn lemma_lex_flip(a: Seq<char>, b: Seq<char>)
    ensures
        (spec_lex_cmp(a, b) == Ordering::Less) <==> (spec_lex_cmp(b, a) == Ordering::Greater),
        (spec_lex_cmp(a, b) == Ordering::Equal) <==> (spec_lex_cmp(b, a) == Ordering::Equal),
    decreases a.len(),
{
    if a.len() != 0 && b.len() != 0 && a[0] == b[0] {
        lemma_lex_flip(a.drop_first(), b.drop_first());
    }
}

/// The order is transitive.
pub proof fn lemma_lex_trans(a: Seq<char>, b: Seq<char>, c: Seq<char>)
    requires
        spec_lex_cmp(a, b) != Ordering::Greater,
        spec_lex_cmp(b, c) != Ordering::Greater,
    ensures
        spec_lex_cmp(a, c) != Ordering::Greater,
        spec_lex_cmp(a, b) == Ordering::Less || spec_lex_cmp(b, c) == Ordering::Less
            ==> spec_lex_cmp(a, c) == Ordering::Less,
    decreases a.len() + b.len() + c.len(),
{
    if a.len() == 0 {
        if c.len() != 0 {
            assert(spec_lex_cmp(a, c) == Ordering::Less);
        }
    } else {
        // a is nonempty; from the hypotheses b and c are nonempty too
        assert(b.len() != 0);
        assert(c.len() != 0);
        if a[0] < b[0] {
            if b[0] <= c[0] {
                assert(spec_lex_cmp(a, c) == Ordering::Less);
            }
        } else {
            assert(a[0] == b[0]);
            if b[0] < c[0] {
                assert(spec_lex_cmp(a, c) == Ordering::Less);
            } else {
                assert(b[0] == c[0]);
                lemma_lex_trans(a.drop_first(), b.drop_first(), c.drop_first());
            }
        }
    }
}

/// Compares two strings lexicographically by character scalar value.
pub fn lex_cmp(a: &str, b: &str) -> (r: Ordering)
    ensures
        r == spec_lex_cmp(a@, b@),
{
    let na = a.unicode_len();
    let nb = b.unicode_len();
    let mut i: usize = 0;
    proof {
        assert(a@.skip(0) =~= a@);
        assert(b@.skip(0) =~= b@);
    }
    while i < na && i < nb
        invariant
            i <= na,
            i <= nb,
            na == a@.len(),
            nb == b@.len(),
            spec_lex_cmp(a@, b@) == spec_lex_cmp(a@.skip(i as int), b@.skip(i as int)),
        decreases na - i,
    {
        let ca = a.get_char(i);
        let cb = b.get_char(i);
        proof {
            assert(a@.skip(i as int)[0] == a@[i as int]);
            assert(b@.skip(i as int)[0] == b@[i as int]);
        }
        if ca < cb {
            return Ordering::Less;
        }
        if ca > cb {
            return Ordering::Greater;
        }
        proof {
            assert(a@.skip(i as int).drop_first() =~= a@.skip(i + 1));
            assert(b@.skip(i as int).drop_first() =~= b@.skip(i + 1));
        }
        i = i + 1;
    }
    proof {
        if i >= na {
            assert(a@.skip(i as int).len() == 0);
        } else {
            assert(b@.skip(i as int).len() == 0);
            assert(a@.skip(i as int).len() != 0);
        }
    }
    if na == nb {
        Ordering::Equal
    } else if na < nb {
        Ordering::Less
    } else {
        Ordering::Greater
    }
}

} // verus!
