//! The read-only query gate.
//!
//! When dangerous queries are not allowed, a statement may run only if, after
//! leading whitespace, it starts with SELECT, SHOW, DESCRIBE or EXPLAIN,
//! compared without regard to ASCII case. This is a fast client-side
//! pre-check; the actual enforcement boundary is the read-only transaction
//! the query protocol wraps around the statement.

use vstd::prelude::*;
use vstd::std_specs::iter::IteratorSpec;
use vstd::string::*;

verus! {

/// Whitespace that may precede the first keyword of a statement.
pub open spec fn is_sql_ws(c: char) -> bool {
    c == ' ' || c == '\t' || c == '\r' || c == '\n'
}

/// `s` with its leading whitespace removed.
pub open spec fn skip_ws(s: Seq<char>) -> Seq<char>
    decreases s.len(),
{
    if s.len() > 0 && is_sql_ws(s[0]) {
        skip_ws(s.subrange(1, s.len() as int))
    } else {
        s
    }
}

/// `a` equals keyword character `b` (an uppercase ASCII letter or any exact
/// character) up to ASCII case.
pub open spec fn match_ci(a: char, b: char) -> bool {
    a == b || ('a' <= a && a <= 'z' && a as int == b as int + 32)
}

/// `s` starts with `kw`, compared with `match_ci` position by position.
pub open spec fn starts_with_ci(s: Seq<char>, kw: Seq<char>) -> bool {
    s.len() >= kw.len() && (forall|i: int| 0 <= i < kw.len() ==> match_ci(s[i], #[trigger] kw[i]))
}

/// The read-only policy: after leading whitespace the statement starts with
/// one of the four read-only keywords.
pub open spec fn read_only_permits(q: Seq<char>) -> bool {
    ||| starts_with_ci(skip_ws(q), "SELECT"@)
    ||| starts_with_ci(skip_ws(q), "SHOW"@)
    ||| starts_with_ci(skip_ws(q), "DESCRIBE"@)
    ||| starts_with_ci(skip_ws(q), "EXPLAIN"@)
}

/// If the first `i` characters of `s` are whitespace, skipping them does not
/// change `skip_ws`.
pub proof fn lemma_skip_ws_prefix(s: Seq<char>, i: int)
    requires
        0 <= i <= s.len(),
        forall|j: int| 0 <= j < i ==> is_sql_ws(#[trigger] s[j]),
    ensures
        skip_ws(s) == skip_ws(s.skip(i)),
    decreases i,
{
    if i == 0 {
        assert(s.skip(0) =~= s);
    } else {
        let t = s.subrange(1, s.len() as int);
        assert(skip_ws(s) == skip_ws(t));
        lemma_skip_ws_prefix(t, i - 1);
        assert(t.skip(i - 1) =~= s.skip(i));
    }
}

/// Compares the collected head of the statement against one keyword.
///
/// `buf` is the first `buf.len()` characters of `tail`, and is either eight
/// characters long or all of `tail`.
fn matches_kw(buf: &Vec<char>, kw: &str, Ghost(tail): Ghost<Seq<char>>) -> (r: bool)
    requires
        1 <= kw@.len() <= 8,
        buf@.len() <= 8,
        buf@.len() <= tail.len(),
        buf@ == tail.take(buf@.len() as int),
        buf@.len() == 8 || tail.len() == buf@.len(),
    ensures
        r == starts_with_ci(tail, kw@),
{
    let n = kw.unicode_len();
    if buf.len() < n {
        assert(tail.len() < kw@.len());
        return false;
    }
    assert(tail.len() >= kw@.len());
    let mut i: usize = 0;
    while i < n
        invariant
            n == kw@.len(),
            n <= buf@.len() <= 8,
            buf@.len() <= tail.len(),
            buf@ == tail.take(buf@.len() as int),
            tail.len() >= n,
            i <= n,
            forall|j: int| 0 <= j < i ==> match_ci(tail[j], #[trigger] kw@[j]),
        decreases n - i,
    {
        let a = buf[i];
        let b = kw.get_char(i);
        assert(buf@[i as int] == tail.take(buf@.len() as int)[i as int]);
        assert(tail[i as int] == buf@[i as int]);
        let ok = a == b || ('a' <= a && a <= 'z' && (a as u64) == (b as u64) + 32);
        if !ok {
            return false;
        }
        i = i + 1;
    }
    true
}

/// Decides whether `q` passes the read-only gate.
pub fn query_permitted_readonly(q: &str) -> (r: bool)
    ensures
        r == read_only_permits(q@),
{
    let ghost qv = q@;
    proof {
        reveal_strlit("SELECT");
        reveal_strlit("SHOW");
        reveal_strlit("DESCRIBE");
        reveal_strlit("EXPLAIN");
    }
    let mut it = q.chars();
    proof {
        assert(spec_iter(q).remaining() == qv);
    }
    // Skip leading whitespace; `head` is the first non-whitespace character.
    let mut head: Option<char> = None;
    let ghost mut i: int = 0;
    loop
        invariant_except_break
            0 <= i <= qv.len(),
            it.remaining() == qv.skip(i),
            forall|j: int| 0 <= j < i ==> is_sql_ws(#[trigger] qv[j]),
            head is None,
        ensures
            0 <= i <= qv.len(),
            forall|j: int| 0 <= j < i ==> is_sql_ws(#[trigger] qv[j]),
            match head {
                Some(c) => i < qv.len() && qv[i] == c && !is_sql_ws(c) && it.remaining()
                    == qv.skip(i + 1),
                None => i == qv.len(),
            },
        decreases qv.len() - i,
    {
        match it.next() {
            None => {
                assert(qv.skip(i).len() == 0);
                break ;
            },
            Some(c) => {
                assert(qv.skip(i).len() > 0);
                assert(c == qv.skip(i)[0]);
                assert(qv.skip(i)[0] == qv[i]);
                let ws = c == ' ' || c == '\t' || c == '\r' || c == '\n';
                proof {
                    assert(qv.skip(i).drop_first() =~= qv.skip(i + 1));
                }
                if !ws {
                    head = Some(c);
                    break ;
                }
                proof {
                    i = i + 1;
                }
            },
        }
    }
    let ghost tail = skip_ws(qv);
    proof {
        lemma_skip_ws_prefix(qv, i);
    }
    let c0 = match head {
        None => {
            assert(tail.len() == 0);
            return false;
        },
        Some(c) => c,
    };
    proof {
        assert(skip_ws(qv.skip(i)) == qv.skip(i));
        assert(tail == qv.skip(i));
        assert(tail.len() == qv.len() - i);
        assert(tail[0] == qv[i]);
    }
    // Collect up to eight characters of the statement head.
    let mut buf: Vec<char> = Vec::new();
    buf.push(c0);
    proof {
        assert(buf@ =~= tail.take(1));
    }
    let ghost mut k: int = i + 1;
    while buf.len() < 8
        invariant_except_break
            1 <= buf@.len() <= 8,
            i + buf@.len() == k,
            0 <= i < qv.len(),
            k <= qv.len(),
            tail == qv.skip(i),
            tail.len() == qv.len() - i,
            it.remaining() == qv.skip(k),
            buf@ == tail.take(buf@.len() as int),
        ensures
            1 <= buf@.len() <= 8,
            tail == qv.skip(i),
            buf@.len() <= tail.len(),
            buf@ == tail.take(buf@.len() as int),
            buf@.len() == 8 || tail.len() == buf@.len(),
        decreases 8 - buf@.len(),
    {
        match it.next() {
            None => {
                assert(qv.skip(k).len() == qv.len() - k);
                assert(k == qv.len());
                assert(tail.len() == buf@.len());
                break ;
            },
            Some(c) => {
                assert(qv.skip(k).len() > 0);
                assert(c == qv.skip(k)[0]);
                assert(qv.skip(k)[0] == qv[k]);
                buf.push(c);
                proof {
                    assert(qv.skip(i)[k - i] == qv[k]);
                    assert(buf@ =~= tail.take(buf@.len() as int));
                    assert(qv.skip(k).drop_first() =~= qv.skip(k + 1));
                    k = k + 1;
                }
            },
        }
    }
    let r1 = matches_kw(&buf, "SELECT", Ghost(tail));
    let r2 = matches_kw(&buf, "SHOW", Ghost(tail));
    let r3 = matches_kw(&buf, "DESCRIBE", Ghost(tail));
    let r4 = matches_kw(&buf, "EXPLAIN", Ghost(tail));
    r1 || r2 || r3 || r4
}

} // verus!
