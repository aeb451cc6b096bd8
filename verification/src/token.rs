//! Repo tokens: opaque bearer capability strings.  A token is created
//! as a random 128-bit value rendered as 32 hexadecimal digits.

use vstd::prelude::*;
use vstd::string::StrSliceExecFns;

verus! {

/// Whether `c` is a lowercase hexadecimal digit.
pub open spec fn is_lower_hex(c: char) -> bool {
    ('0' <= c && c <= '9') || ('a' <= c && c <= 'f')
}

/// Whether `c` is a hexadecimal digit of either case.
pub open spec fn is_hex(c: char) -> bool {
    is_lower_hex(c) || ('A' <= c && c <= 'F')
}

/// Whether `s` has the shape of a repo token: exactly 32 hexadecimal
/// digits.
pub open spec fn token_like(s: Seq<char>) -> bool {
    s.len() == 32 && forall|i: int| 0 <= i < s.len() ==> is_hex(#[trigger] s[i])
}

/// Relies on uuid::Uuid::new_v4 and the simple formatting of
/// uuid::fmt::Simple: a fresh random identifier rendered as exactly 32
/// lowercase hexadecimal digits.  The value is random; nothing beyond
/// its shape is promised.
#[verifier::external_body]
pub fn new_repo_token() -> (r: String)
    ensures
        r@.len() == 32,
        forall|i: int| 0 <= i < r@.len() ==> is_lower_hex(#[trigger] r@[i]),
{
    uuid::Uuid::new_v4().simple().to_string()
}

/// A freshly generated token has the token shape.
pub proof fn lemma_lower_hex_token(s: Seq<char>)
    requires
        s.len() == 32,
        forall|i: int| 0 <= i < s.len() ==> is_lower_hex(#[trigger] s[i]),
    ensures
        token_like(s),
{
}

/// Checks whether `s` has the shape of a repo token.
pub fn is_valid_token(s: &str) -> (r: bool)
    ensures
        r == token_like(s@),
{
    let n = s.unicode_len();
    if n != 32 {
        return false;
    }
    let mut i: usize = 0;
    while i < n
        invariant
            0 <= i <= n,
            n == s@.len(),
            forall|k: int| 0 <= k < i ==> is_hex(#[trigger] s@[k]),
        decreases n - i,
    {
        let c = s.get_char(i);
        let ok = ('0' <= c && c <= '9') || ('a' <= c && c <= 'f') || ('A' <= c && c <= 'F');
        if !ok {
            assert(!is_hex(s@[i as int]));
            return false;
        }
        i = i + 1;
    }
    true
}

} // verus!
