//! The identifier safety gate.
//!
//! Every table, column or database name that is embedded as literal text in
//! SQL (where a bound parameter cannot stand) must pass this check first.
//! The policy is the strict one: ASCII letters, digits and underscore only,
//! and a length between 1 and 64 characters, so that quoting characters,
//! whitespace, punctuation and control bytes can never reach SQL text.

use vstd::prelude::*;
use vstd::string::*;

verus! {

/// A character that may appear in an identifier: an ASCII letter, an ASCII
/// digit, or an underscore.
pub open spec fn is_identifier_char(c: char) -> bool {
    ('a' <= c && c <= 'z') || ('A' <= c && c <= 'Z') || ('0' <= c && c <= '9') || c == '_'
}

/// The identifier policy: 1 to 64 characters, each an identifier character.
pub open spec fn valid_identifier(s: Seq<char>) -> bool {
    1 <= s.len() <= 64 && (forall|i: int| 0 <= i < s.len() ==> is_identifier_char(#[trigger] s[i]))
}

/// Decides whether `name` is safe to embed as an identifier in SQL text.
pub fn is_valid_identifier(name: &str) -> (r: bool)
    ensures
        r == valid_identifier(name@),
{
    let n = name.unicode_len();
    if n == 0 || n > 64 {
        return false;
    }
    let mut i: usize = 0;
    while i < n
        invariant
            n == name@.len(),
            1 <= n <= 64,
            i <= n,
            forall|j: int| 0 <= j < i ==> is_identifier_char(#[trigger] name@[j]),
        decreases n - i,
    {
        let c = name.get_char(i);
        let ok = ('a' <= c && c <= 'z') || ('A' <= c && c <= 'Z') || ('0' <= c && c <= '9') || c
            == '_';
        if !ok {
            return false;
        }
        i = i + 1;
    }
    true
}


/// Rejection: the validator rejects the empty name, any name longer than
/// 64 characters, and any name holding a backtick or a null byte — none of
/// those can ever reach SQL text as an identifier.
pub proof fn lemma_identifier_rejection(s: Seq<char>)
    ensures
        s.len() == 0 ==> !valid_identifier(s),
        s.len() > 64 ==> !valid_identifier(s),
        (exists|i: int| 0 <= i < s.len() && s[i] == '`') ==> !valid_identifier(s),
        (exists|i: int| 0 <= i < s.len() && s[i] == (0 as char)) ==> !valid_identifier(s),
{
    if exists|i: int| 0 <= i < s.len() && s[i] == '`' {
        let i = choose|i: int| 0 <= i < s.len() && s[i] == '`';
        assert(!is_identifier_char(s[i]));
    }
    if exists|i: int| 0 <= i < s.len() && s[i] == (0 as char) {
        let i = choose|i: int| 0 <= i < s.len() && s[i] == (0 as char);
        assert(!is_identifier_char(s[i]));
    }
}

/// Acceptance: every name of 1 to 64 ASCII letters, digits or underscores
/// passes the validator.
pub proof fn lemma_identifier_acceptance(s: Seq<char>)
    requires
        1 <= s.len() <= 64,
        forall|i: int| 0 <= i < s.len() ==> is_identifier_char(#[trigger] s[i]),
    ensures
        valid_identifier(s),
{
}

} // verus!
