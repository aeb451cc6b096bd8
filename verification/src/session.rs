//! Request-scoped authentication: resolving a bearer-credential header
//! to a repo identity.
//!
//! The credential header is a deliberate "maybe-present" contract: a
//! request without one proceeds with an empty identity, and handlers
//! that require authentication check for it themselves.  A token that
//! resolves to no repo is handled by a named policy, since treating it
//! as silently unauthenticated or as a hard failure are both defensible
//! readings of the product intent.

use vstd::prelude::*;

use crate::error::{DbError, ServiceError};
use crate::store::{has_repo, Store};
use crate::token::{is_valid_token, token_like};

verus! {

/// A resolved identity: the repo id the request's bearer token named.
#[derive(Debug, Clone, PartialEq)]
pub struct Session {
    pub sid: String,
}

/// The identity marker attached to every request: empty when no
/// credential was presented.
#[derive(Debug, Clone, PartialEq)]
pub struct SessionContainer(pub Option<Session>);

/// How a token that resolves to no repo is treated.
#[derive(Clone, Copy, Debug, PartialEq, Eq, Structural)]
pub enum UnknownTokenPolicy {
    /// Proceed unauthenticated, exactly as if no credential were sent.
    EmptyIdentity,
    /// Fail the request as a lookup that matched no row.
    HardFailure,
}

/// The authentication stage of the request pipeline; it wraps an inner
/// handler.
#[derive(Debug, Clone)]
pub struct SessionMiddleware<S> {
    pub inner: S,
}

/// Builds the authentication stage around an inner handler.
#[derive(Debug, Clone)]
pub struct SessionLayer;

impl SessionLayer {
    /// Wraps `inner` in the authentication stage.
    pub fn layer<S>(&self, inner: S) -> (r: SessionMiddleware<S>)
        ensures
            r.inner == inner,
    {
        SessionMiddleware { inner }
    }
}

/// Attaches the empty identity marker if none is attached yet.  The
/// marker is idempotently insertable: a second write leaves an already
/// attached identity untouched.
pub fn insert_empty_extension(slot: &mut Option<SessionContainer>)
    ensures
        match old(slot) {
            None => *final(slot) == Some(SessionContainer(None)),
            Some(_) => *final(slot) == *old(slot),
        },
{
    if slot.is_none() {
        *slot = Some(SessionContainer(None));
    }
}

/// Whether a header byte is visible ASCII, the only bytes a credential
/// header may carry.
pub open spec fn visible_ascii(b: u8) -> bool {
    32 <= b <= 126
}

/// Whether every byte of the header value is visible ASCII.
pub open spec fn all_visible(s: Seq<u8>) -> bool {
    forall|i: int| 0 <= i < s.len() ==> visible_ascii(#[trigger] s[i])
}

/// The characters of an all-ASCII header value.
pub open spec fn bytes_chars(s: Seq<u8>) -> Seq<char> {
    Seq::new(s.len(), |i: int| s[i] as char)
}

/// Relies on String::push: it appends exactly one character.
#[verifier::external_body]
fn push_char(s: &mut String, c: char)
    ensures
        final(s)@ == old(s)@.push(c),
{
    s.push(c);
}

/// Parses the bearer-credential header value into a token string; a
/// value holding anything but visible ASCII is a credential parse
/// failure.
pub fn parse_credential_header(bytes: &[u8]) -> (r: Result<String, ServiceError>)
    ensures
        match r {
            Ok(t) => all_visible(bytes@) && t@ == bytes_chars(bytes@),
            Err(e) => !all_visible(bytes@) && e is CredentialParseError,
        },
{
    let n = bytes.len();
    let mut out = String::new();
    let mut i: usize = 0;
    while i < n
        invariant
            0 <= i <= n,
            n == bytes@.len(),
            all_visible(bytes@.take(i as int)),
            out@ == bytes_chars(bytes@.take(i as int)),
        decreases n - i,
    {
        let b = bytes[i];
        if b < 32 || b > 126 {
            assert(!visible_ascii(bytes@[i as int]));
            return Err(
                ServiceError::CredentialParseError(
                    "credential header held a byte outside visible ASCII".to_owned(),
                ),
            );
        }
        push_char(&mut out, b as char);
        proof {
            assert(out@ =~= bytes_chars(bytes@.take(i as int + 1)));
        }
        i = i + 1;
    }
    proof {
        assert(bytes@.take(n as int) =~= bytes@);
    }
    Ok(out)
}

/// Resolves a request's credential header to an identity marker.
///
/// No header resolves to the empty identity; a header outside visible
/// ASCII is a credential parse failure; a token naming a stored repo
/// whose id is not token-shaped is rejected; a token naming no repo
/// follows the policy.
pub fn inspect_request_metadata(
    store: &Store,
    header: Option<&[u8]>,
    policy: UnknownTokenPolicy,
) -> (r: Result<SessionContainer, ServiceError>)
    ensures
        match header {
            None => r == Ok::<SessionContainer, ServiceError>(SessionContainer(None)),
            Some(bytes) => {
                if !all_visible(bytes@) {
                    r matches Err(e) && e is CredentialParseError
                } else {
                    let tok = bytes_chars(bytes@);
                    if has_repo(store.repos@, tok) {
                        if token_like(tok) {
                            r matches Ok(c) && c.0 matches Some(s) && s.sid@ == tok
                        } else {
                            r matches Err(e) && e is Uuid
                        }
                    } else {
                        match policy {
                            UnknownTokenPolicy::EmptyIdentity => r == Ok::<
                                SessionContainer,
                                ServiceError,
                            >(SessionContainer(None)),
                            UnknownTokenPolicy::HardFailure => r == Err::<
                                SessionContainer,
                                ServiceError,
                            >(ServiceError::Sqlx(DbError::RowNotFound)),
                        }
                    }
                }
            },
        },
{
    match header {
        None => Ok(SessionContainer(None)),
        Some(bytes) => {
            let sid = parse_credential_header(bytes)?;
            match store.find_repo(sid.as_str()) {
                Some(_) => {
                    if is_valid_token(sid.as_str()) {
                        Ok(SessionContainer(Some(Session { sid })))
                    } else {
                        Err(
                            ServiceError::Uuid(
                                "stored repo id is not a well-formed token".to_owned(),
                            ),
                        )
                    }
                },
                None => {
                    match policy {
                        UnknownTokenPolicy::EmptyIdentity => Ok(SessionContainer(None)),
                        UnknownTokenPolicy::HardFailure => Err(
                            ServiceError::Sqlx(DbError::RowNotFound),
                        ),
                    }
                },
            }
        },
    }
}

} // verus!
