//! Small verified string helpers: comparison against `&str`, and joining a
//! list of strings with a separator, as SQL clause building needs.

use vstd::prelude::*;
use vstd::string::*;

verus! {

/// Compares two string slices by content.
pub fn str_eq(a: &str, b: &str) -> (r: bool)
    ensures
        r == (a@ == b@),
{
    let na = a.unicode_len();
    let nb = b.unicode_len();
    if na != nb {
        return false;
    }
    let mut i: usize = 0;
    while i < na
        invariant
            na == a@.len(),
            na == b@.len(),
            i <= na,
            forall|j: int| 0 <= j < i ==> a@[j] == b@[j],
        decreases na - i,
    {
        if a.get_char(i) != b.get_char(i) {
            return false;
        }
        i = i + 1;
    }
    proof {
        assert(a@ =~= b@);
    }
    true
}

/// The views of a sequence of owned strings.
pub open spec fn str_views(parts: Seq<String>) -> Seq<Seq<char>> {
    parts.map_values(|s: String| s@)
}

/// `parts` interleaved with `sep`: empty for no parts, and no trailing
/// separator.
pub open spec fn join_seq(parts: Seq<Seq<char>>, sep: Seq<char>) -> Seq<char>
    decreases parts.len(),
{
    if parts.len() == 0 {
        Seq::empty()
    } else if parts.len() == 1 {
        parts[0]
    } else {
        parts[0] + sep + join_seq(parts.drop_first(), sep)
    }
}

proof fn lemma_join_push(parts: Seq<Seq<char>>, sep: Seq<char>, x: Seq<char>)
    ensures
        join_seq(parts.push(x), sep) == if parts.len() == 0 {
            x
        } else {
            join_seq(parts, sep) + sep + x
        },
    decreases parts.len(),
{
    if parts.len() == 0 {
        assert(parts.push(x)[0] == x);
        assert(join_seq(parts.push(x), sep) == x);
    } else {
        lemma_join_push(parts.drop_first(), sep, x);
        assert(parts.push(x).drop_first() =~= parts.drop_first().push(x));
        if parts.len() == 1 {
            assert(parts.drop_first().len() == 0);
            assert(join_seq(parts.push(x), sep) == parts[0] + sep + x);
            assert(join_seq(parts, sep) == parts[0]);
        } else {
            assert(join_seq(parts.push(x), sep) == parts[0] + sep + join_seq(
                parts.drop_first().push(x),
                sep,
            ));
            assert(join_seq(parts, sep) + sep + x =~= parts[0] + sep + (join_seq(
                parts.drop_first(),
                sep,
            ) + sep + x));
        }
    }
}

/// Joins `parts` with `sep`, with no leading or trailing separator.
pub fn join_strings(parts: &Vec<String>, sep: &str) -> (r: String)
    ensures
        r@ == join_seq(str_views(parts@), sep@),
{
    let mut r = String::new();
    let mut i: usize = 0;
    while i < parts.len()
        invariant
            i <= parts@.len(),
            r@ == join_seq(str_views(parts@.take(i as int)), sep@),
        decreases parts@.len() - i,
    {
        if i > 0 {
            r.append(sep);
        }
        r.append(parts[i].as_str());
        proof {
            assert(str_views(parts@.take(i + 1 as int)) =~= str_views(parts@.take(i as int)).push(
                parts@[i as int]@,
            ));
            lemma_join_push(str_views(parts@.take(i as int)), sep@, parts@[i as int]@);
        }
        i = i + 1;
    }
    proof {
        assert(parts@.take(parts@.len() as int) =~= parts@);
    }
    r
}

/// `count` copies of `part` joined with `sep`.
pub open spec fn repeat_seq(part: Seq<char>, count: nat) -> Seq<Seq<char>>
    decreases count,
{
    if count == 0 {
        Seq::empty()
    } else {
        repeat_seq(part, (count - 1) as nat).push(part)
    }
}

/// Builds `count` copies of `part` joined with `sep` (the placeholder list
/// of a VALUES clause).
pub fn join_repeated(part: &str, count: usize, sep: &str) -> (r: String)
    ensures
        r@ == join_seq(repeat_seq(part@, count as nat), sep@),
{
    let mut r = String::new();
    let mut i: usize = 0;
    while i < count
        invariant
            i <= count,
            r@ == join_seq(repeat_seq(part@, i as nat), sep@),
        decreases count - i,
    {
        if i > 0 {
            r.append(sep);
        }
        r.append(part);
        proof {
            lemma_join_push(repeat_seq(part@, i as nat), sep@, part@);
        }
        i = i + 1;
    }
    r
}

} // verus!
