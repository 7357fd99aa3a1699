use vstd::prelude::*;
use vstd::string::StrSliceExecFns;

verus! {

/// Collects the characters of a string slice, in order.
pub fn chars_of(s: &str) -> (r: Vec<char>)
    ensures
        r@ == s@,
{
    let n = s.unicode_len();
    let mut r: Vec<char> = Vec::new();
    let mut i: usize = 0;
    while i < n
        invariant
            i <= n,
            n == s@.len(),
            r@ == s@.take(i as int),
        decreases n - i,
    {
        r.push(s.get_char(i));
        proof {
            assert(r@ =~= s@.take(i + 1));
        }
        i = i + 1;
    }
    proof {
        assert(s@.take(n as int) =~= s@);
    }
    r
}

/// Relies on `String`'s `FromIterator` over `char`: collecting characters
/// yields the string of exactly those characters in order.
#[verifier::external_body]
pub fn string_from_chars(v: Vec<char>) -> (r: String)
    ensures
        r@ == v@,
{
    v.into_iter().collect()
}

/// Compares two strings character by character.
pub fn str_eq(a: &str, b: &str) -> (r: bool)
    ensures
        r == (a@ == b@),
{
    let na = a.unicode_len();
    let nb = b.unicode_len();
    if na != nb {
        proof {
            assert(a@.len() != b@.len());
        }
        return false;
    }
    let mut i: usize = 0;
    while i < na
        invariant
            i <= na,
            na == a@.len(),
            na == b@.len(),
            forall|k: int| 0 <= k < i ==> a@[k] == b@[k],
        decreases na - i,
    {
        if a.get_char(i) != b.get_char(i) {
            return false;
        }
        i = i + 1;
    }
    proof {
        assert(a@ =~= b@);
    }
    true
}

/// The whitespace characters trimmed from description text.
pub open spec fn spec_is_space(c: char) -> bool {
    c == ' ' || c == '\t' || c == '\n' || c == '\r'
}

/// A text with its leading whitespace dropped.
pub open spec fn spec_ltrim(s: Seq<char>) -> Seq<char>
    decreases s.len(),
{
    if s.len() > 0 && spec_is_space(s[0]) {
        spec_ltrim(s.drop_first())
    } else {
        s
    }
}

/// A text with its trailing whitespace dropped.
pub open spec fn spec_rtrim(s: Seq<char>) -> Seq<char>
    decreases s.len(),
{
    if s.len() > 0 && spec_is_space(s.last()) {
        spec_rtrim(s.drop_last())
    } else {
        s
    }
}

/// The first line of a text after trimming whitespace at both ends.
pub open spec fn spec_first_line(s: Seq<char>) -> Seq<char> {
    let t = spec_rtrim(spec_ltrim(s));
    match crate::markup::spec_find(t, 0, '\n') {
        Some(j) => t.take(j),
        None => t,
    }
}

/// Dropping leading whitespace is taking the suffix at the first
/// non-space position.
proof fn lemma_ltrim_skip(s: Seq<char>, a: int)
    requires
        0 <= a <= s.len(),
        forall|k: int| 0 <= k < a ==> spec_is_space(#[trigger] s[k]),
        a < s.len() ==> !spec_is_space(s[a]),
    ensures
        spec_ltrim(s) == s.skip(a),
    decreases a,
{
    if a == 0 {
        assert(s.skip(0) =~= s);
    } else {
        assert(spec_is_space(s[0]));
        lemma_ltrim_skip(s.drop_first(), a - 1);
        assert(s.drop_first().skip(a - 1) =~= s.skip(a));
    }
}

/// Dropping trailing whitespace is taking the prefix up to the last
/// non-space position.
proof fn lemma_rtrim_take(s: Seq<char>, b: int)
    requires
        0 <= b <= s.len(),
        forall|k: int| b <= k < s.len() ==> spec_is_space(#[trigger] s[k]),
        b > 0 ==> !spec_is_space(s[b - 1]),
    ensures
        spec_rtrim(s) == s.take(b),
    decreases s.len(),
{
    if b == s.len() {
        if s.len() > 0 {
            assert(!spec_is_space(s.last()));
        }
        assert(s.take(b) =~= s);
    } else {
        assert(spec_is_space(s.last()));
        lemma_rtrim_take(s.drop_last(), b);
        assert(s.drop_last().take(b) =~= s.take(b));
    }
}

/// Extracts the first line of a text after trimming whitespace at both
/// ends, as characters.
pub fn first_line_trimmed(s: &str) -> (r: Vec<char>)
    ensures
        r@ == spec_first_line(s@),
{
    let v = chars_of(s);
    let n = v.len();
    let mut a: usize = 0;
    while a < n && is_space(v[a])
        invariant
            a <= n,
            n == v@.len(),
            v@ == s@,
            forall|k: int| 0 <= k < a ==> spec_is_space(#[trigger] v@[k]),
        decreases n - a,
    {
        a = a + 1;
    }
    let mut b: usize = n;
    while b > a && is_space(v[b - 1])
        invariant
            a <= b <= n,
            n == v@.len(),
            v@ == s@,
            forall|k: int| b <= k < n ==> spec_is_space(#[trigger] v@[k]),
            forall|k: int| 0 <= k < a ==> spec_is_space(#[trigger] v@[k]),
            a < n ==> !spec_is_space(v@[a as int]),
        decreases b,
    {
        b = b - 1;
    }
    proof {
        lemma_ltrim_skip(s@, a as int);
        if a == b {
            // the whole text is whitespace
            lemma_rtrim_take(s@.skip(a as int), 0);
        } else {
            lemma_rtrim_take(s@.skip(a as int), b - a);
        }
    }
    let trimmed = vstd::slice::slice_subrange(v.as_slice(), a, b);
    proof {
        assert(trimmed@ =~= spec_rtrim(spec_ltrim(s@))) by {
            assert(s@.skip(a as int).take(b - a) =~= s@.subrange(a as int, b as int));
        }
    }
    let end = match crate::markup::find_nl(trimmed) {
        Some(j) => j,
        None => trimmed.len(),
    };
    let line = vstd::slice::slice_subrange(trimmed, 0, end);
    proof {
        assert(line@ =~= spec_first_line(s@));
    }
    let mut out: Vec<char> = Vec::new();
    let mut k: usize = 0;
    let m = line.len();
    while k < m
        invariant
            k <= m,
            m == line@.len(),
            out@ == line@.take(k as int),
        decreases m - k,
    {
        out.push(*vstd::slice::slice_index_get(line, k));
        proof {
            assert(out@ =~= line@.take(k + 1));
        }
        k = k + 1;
    }
    proof {
        assert(line@.take(m as int) =~= line@);
    }
    out
}

/// Tests a character against the trimmed whitespace set.
fn is_space(c: char) -> (r: bool)
    ensures
        r == spec_is_space(c),
{
    c == ' ' || c == '\t' || c == '\n' || c == '\r'
}

} // verus!
