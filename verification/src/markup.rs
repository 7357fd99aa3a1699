use vstd::prelude::*;
use vstd::slice::{slice_index_get, slice_subrange};

use crate::text::{chars_of, string_from_chars};

verus! {

/// The characters that open and close an emphasis span.
pub open spec fn is_emphasis(c: char) -> bool {
    c == '*' || c == '_' || c == '~'
}

/// First position at or after `from` holding `c`, if any.
pub open spec fn spec_find(s: Seq<char>, from: int, c: char) -> Option<int>
    decreases s.len() - from,
    when 0 <= from <= s.len()
{
    if from >= s.len() {
        None
    } else if s[from] == c {
        Some(from)
    } else {
        spec_find(s, from + 1, c)
    }
}

/// First position at or after `from` where `c` occurs twice in a row.
pub open spec fn spec_find_pair(s: Seq<char>, from: int, c: char) -> Option<int>
    decreases s.len() - from,
    when 0 <= from <= s.len()
{
    if from + 1 >= s.len() {
        None
    } else if s[from] == c && s[from + 1] == c {
        Some(from)
    } else {
        spec_find_pair(s, from + 1, c)
    }
}

/// A found position lies between the search start and the end of the text.
pub proof fn lemma_find_range(s: Seq<char>, from: int, c: char)
    requires
        0 <= from <= s.len(),
    ensures
        match spec_find(s, from, c) {
            Some(j) => from <= j < s.len(),
            None => true,
        },
    decreases s.len() - from,
{
    if from >= s.len() {
    } else if s[from] == c {
    } else {
        lemma_find_range(s, from + 1, c);
    }
}

/// A found pair position leaves room for both of its characters.
pub proof fn lemma_find_pair_range(s: Seq<char>, from: int, c: char)
    requires
        0 <= from <= s.len(),
    ensures
        match spec_find_pair(s, from, c) {
            Some(j) => from <= j && j + 1 < s.len(),
            None => true,
        },
    decreases s.len() - from,
{
    if from + 1 >= s.len() {
    } else if s[from] == c && s[from + 1] == c {
    } else {
        lemma_find_pair_range(s, from + 1, c);
    }
}

/// An index clamped to the end of the text, for skips that may run past
/// an unterminated construct.
pub open spec fn clamped(s: Seq<char>, i: int) -> int {
    if i > s.len() {
        s.len() as int
    } else {
        i
    }
}

/// One pass of the stripping loop: starting at position `i` with the
/// plain text gathered so far in `acc`, consumes markers and gathers
/// plain text until the input or the length budget runs out.
///
/// A doubled or single emphasis marker is dropped together with its
/// closing counterpart while the enclosed text is kept verbatim; an
/// unterminated marker closes at the end of the text. Link and image
/// syntax keeps the bracketed text, itself stripped recursively, and
/// drops the parenthesised target. Every other character passes through.
pub open spec fn spec_strip_core(s: Seq<char>, i: int, acc: Seq<char>, max: int) -> Seq<char>
    decreases s.len() - i, 0int,
    when 0 <= i <= s.len()
{
    if i >= s.len() || acc.len() >= max {
        acc
    } else {
        let c = s[i];
        if i + 1 < s.len() && s[i + 1] == c && is_emphasis(c) {
            let start = i + 2;
            let end = match spec_find_pair(s, start, c) {
                Some(j) => j,
                None => s.len() as int,
            };
            proof {
                lemma_find_pair_range(s, i + 2, s[i]);
            }
            spec_strip_core(s, clamped(s, end + 2), acc + s.subrange(start, end), max)
        } else if is_emphasis(c) || c == '`' {
            let start = i + 1;
            let end = match spec_find(s, start, c) {
                Some(j) => j,
                None => s.len() as int,
            };
            proof {
                lemma_find_range(s, i + 1, s[i]);
            }
            spec_strip_core(s, clamped(s, end + 1), acc + s.subrange(start, end), max)
        } else if c == '[' || (c == '!' && i + 1 < s.len() && s[i + 1] == '[') {
            let start = if c == '[' {
                i + 1
            } else {
                i + 2
            };
            let end = match spec_find(s, start, ']') {
                Some(j) => j,
                None => s.len() as int,
            };
            proof {
                lemma_find_range(s, if s[i] == '[' { i + 1 } else { i + 2 }, ']');
            }
            let inner = spec_strip(s.subrange(start, end), max - acc.len());
            let after = clamped(s, end + 1);
            let close = match spec_find(s, after, ')') {
                Some(j) => j,
                None => s.len() as int,
            };
            proof {
                let st = if s[i] == '[' { i + 1 } else { i + 2 };
                let en = match spec_find(s, st, ']') {
                    Some(j) => j,
                    None => s.len() as int,
                };
                lemma_find_range(s, clamped(s, en + 1), ')');
            }
            spec_strip_core(s, clamped(s, close + 1), acc + inner, max)
        } else {
            spec_strip_core(s, i + 1, acc.push(c), max)
        }
    }
}

/// The plain text a marked-up text strips to under a length budget: one
/// leading header marker is removed, markers are stripped by
/// `spec_strip_core`, and a result over the budget is cut back, its last
/// three characters giving way to an ellipsis.
pub open spec fn spec_strip(s: Seq<char>, max: int) -> Seq<char>
    decreases s.len(), 1int,
{
    let body = if s.len() >= 2 && s[0] == '#' && s[1] == ' ' {
        s.skip(2)
    } else {
        s
    };
    let out = spec_strip_core(body, 0, Seq::empty(), max);
    if out.len() > max {
        if max >= 3 {
            out.take(max - 3).push('.').push('.').push('.')
        } else {
            out.take(if max >= 0 {
                max
            } else {
                0
            })
        }
    } else {
        out
    }
}

/// The stripped form of any text fits the length budget.
pub proof fn lemma_strip_len(s: Seq<char>, max: int)
    requires
        max >= 0,
    ensures
        spec_strip(s, max).len() <= max,
{
}

/// Finds the first occurrence of `c` at or after `from`.
fn find_char(s: &[char], from: usize, c: char) -> (r: Option<usize>)
    requires
        from <= s@.len(),
    ensures
        match r {
            Some(j) => from <= j < s@.len() && spec_find(s@, from as int, c) == Some(j as int),
            None => spec_find(s@, from as int, c) is None,
        },
{
    let n = s.len();
    let mut j = from;
    while j < n
        invariant
            from <= j <= n,
            n == s@.len(),
            spec_find(s@, from as int, c) == spec_find(s@, j as int, c),
        decreases n - j,
    {
        if *slice_index_get(s, j) == c {
            return Some(j);
        }
        j = j + 1;
    }
    None
}

/// Finds the first doubled occurrence of `c` at or after `from`.
fn find_pair(s: &[char], from: usize, c: char) -> (r: Option<usize>)
    requires
        from <= s@.len(),
    ensures
        match r {
            Some(j) => from <= j && j + 1 < s@.len() && spec_find_pair(s@, from as int, c) == Some(
                j as int,
            ),
            None => spec_find_pair(s@, from as int, c) is None,
        },
{
    let n = s.len();
    if n == 0 {
        return None;
    }
    let mut j = from;
    while j < n - 1
        invariant
            from <= j,
            n == s@.len(),
            n >= 1,
            j <= n,
            spec_find_pair(s@, from as int, c) == spec_find_pair(s@, j as int, c),
        decreases n - j,
    {
        if *slice_index_get(s, j) == c && *slice_index_get(s, j + 1) == c {
            return Some(j);
        }
        j = j + 1;
    }
    None
}

/// Finds the first line break in a text.
pub(crate) fn find_nl(s: &[char]) -> (r: Option<usize>)
    ensures
        match r {
            Some(j) => j < s@.len() && spec_find(s@, 0, '\n') == Some(j as int),
            None => spec_find(s@, 0, '\n') is None,
        },
{
    find_char(s, 0, '\n')
}

/// Appends every character of a slice.
fn push_all(out: &mut Vec<char>, s: &[char])
    ensures
        final(out)@ == old(out)@ + s@,
{
    let n = s.len();
    let mut k: usize = 0;
    while k < n
        invariant
            k <= n,
            n == s@.len(),
            out@ == old(out)@ + s@.take(k as int),
        decreases n - k,
    {
        out.push(*slice_index_get(s, k));
        proof {
            assert(out@ =~= old(out)@ + s@.take(k + 1));
        }
        k = k + 1;
    }
    proof {
        assert(old(out)@ + s@.take(n as int) =~= old(out)@ + s@);
    }
}

/// Strips markup from a character sequence under a length budget.
pub fn strip_chars(s: &[char], max_len: usize) -> (r: Vec<char>)
    ensures
        r@ == spec_strip(s@, max_len as int),
    decreases s@.len(),
{
    let n0 = s.len();
    let body: &[char] = if n0 >= 2 && *slice_index_get(s, 0) == '#' && *slice_index_get(s, 1)
        == ' ' {
        slice_subrange(s, 2, n0)
    } else {
        s
    };
    proof {
        assert(body@ =~= if s@.len() >= 2 && s@[0] == '#' && s@[1] == ' ' {
            s@.skip(2)
        } else {
            s@
        });
    }
    let n = body.len();
    let mut out: Vec<char> = Vec::new();
    let mut i: usize = 0;
    let ghost goal = spec_strip_core(body@, 0, Seq::<char>::empty(), max_len as int);
    while i < n && out.len() < max_len
        invariant
            i <= n,
            n == body@.len(),
            body@.len() <= s@.len(),
            spec_strip_core(body@, i as int, out@, max_len as int) == goal,
        decreases n - i,
    {
        let ghost pre_i = i as int;
        let ghost pre_out = out@;
        let c = *slice_index_get(body, i);
        let c2: Option<char> = if i + 1 < n {
            Some(*slice_index_get(body, i + 1))
        } else {
            None
        };
        if c2 == Some(c) && (c == '*' || c == '_' || c == '~') {
            let start = i + 2;
            let end = match find_pair(body, start, c) {
                Some(j) => j,
                None => n,
            };
            proof {
                assert(end == match spec_find_pair(body@, pre_i + 2, c) {
                    Some(j) => j,
                    None => body@.len() as int,
                });
            }
            push_all(&mut out, slice_subrange(body, start, end));
            i = end;
            if i < n {
                i = i + 1;
            }
            if i < n {
                i = i + 1;
            }
            proof {
                assert(i as int == clamped(body@, end + 2));
                assert(out@ == pre_out + body@.subrange(pre_i + 2, end as int));
                assert(spec_strip_core(body@, pre_i, pre_out, max_len as int)
                    == spec_strip_core(body@, i as int, out@, max_len as int));
            }
        } else if c == '_' || c == '~' || c == '*' || c == '`' {
            let start = i + 1;
            let end = match find_char(body, start, c) {
                Some(j) => j,
                None => n,
            };
            proof {
                assert(end == match spec_find(body@, pre_i + 1, c) {
                    Some(j) => j,
                    None => body@.len() as int,
                });
            }
            push_all(&mut out, slice_subrange(body, start, end));
            i = end;
            if i < n {
                i = i + 1;
            }
            proof {
                assert(i as int == clamped(body@, end + 1));
                assert(out@ == pre_out + body@.subrange(pre_i + 1, end as int));
                assert(spec_strip_core(body@, pre_i, pre_out, max_len as int)
                    == spec_strip_core(body@, i as int, out@, max_len as int));
            }
        } else if c == '[' || (c == '!' && c2 == Some('[')) {
            let start = if c == '[' {
                i + 1
            } else {
                i + 2
            };
            let end = match find_char(body, start, ']') {
                Some(j) => j,
                None => n,
            };
            proof {
                assert(start as int == if body@[pre_i] == '[' {
                    pre_i + 1
                } else {
                    pre_i + 2
                });
                assert(end == match spec_find(body@, start as int, ']') {
                    Some(j) => j,
                    None => body@.len() as int,
                });
            }
            let mut inner = strip_chars(slice_subrange(body, start, end), max_len - out.len());
            out.append(&mut inner);
            let after = if end < n {
                end + 1
            } else {
                n
            };
            let close = match find_char(body, after, ')') {
                Some(j) => j,
                None => n,
            };
            proof {
                assert(after as int == clamped(body@, end + 1));
                assert(close == match spec_find(body@, after as int, ')') {
                    Some(j) => j,
                    None => body@.len() as int,
                });
            }
            i = close;
            if i < n {
                i = i + 1;
            }
            proof {
                assert(i as int == clamped(body@, close + 1));
                assert(out@ == pre_out + spec_strip(
                    body@.subrange(start as int, end as int),
                    max_len - pre_out.len(),
                ));
                assert(spec_strip_core(body@, pre_i, pre_out, max_len as int)
                    == spec_strip_core(body@, i as int, out@, max_len as int));
            }
        } else {
            out.push(c);
            i = i + 1;
            proof {
                assert(out@ =~= pre_out.push(c));
                assert(spec_strip_core(body@, pre_i, pre_out, max_len as int)
                    == spec_strip_core(body@, i as int, out@, max_len as int));
            }
        }
    }
    proof {
        assert(spec_strip_core(body@, i as int, out@, max_len as int) == out@);
    }
    if out.len() > max_len {
        if max_len >= 3 {
            out.truncate(max_len - 3);
            out.push('.');
            out.push('.');
            out.push('.');
        } else {
            out.truncate(max_len);
        }
    }
    proof {
        assert(out@ =~= spec_strip(s@, max_len as int));
    }
    out
}

/// Strips markup control sequences from a string, returning the plain
/// text. Doubled and single emphasis markers and backtick spans lose
/// their markers, link and image syntax keeps only the bracketed text,
/// one leading header marker is dropped, and the result is truncated to
/// `max_len` characters with a trailing ellipsis when it would run over.
pub fn strip(src: &str, max_len: usize) -> (r: String)
    ensures
        r@ == spec_strip(src@, max_len as int),
        r@.len() <= max_len,
{
    let v = chars_of(src);
    let stripped = strip_chars(v.as_slice(), max_len);
    proof {
        lemma_strip_len(src@, max_len as int);
    }
    string_from_chars(stripped)
}

} // verus!
