//! Authorization checks that gate the flag management endpoints: where the
//! bearer token comes from, and which signing algorithm its header names.

use jsonwebtoken::Algorithm;
use vstd::prelude::*;

use crate::data::opt_view;

verus! {

/// The prefix of an `Authorization` header that carries a bearer token.
pub open spec fn bearer_prefix() -> Seq<char> {
    "Bearer "@
}

/// The token of a request: the access assertion header when present, else
/// what follows the bearer prefix of the `Authorization` header.
pub open spec fn token_of(assertion: Option<Seq<char>>, authorization: Option<Seq<char>>) -> Option<
    Seq<char>,
> {
    match assertion {
        Some(t) => Some(t),
        None => match authorization {
            Some(a) => if bearer_prefix().is_prefix_of(a) {
                Some(a.skip(bearer_prefix().len() as int))
            } else {
                None
            },
            None => None,
        },
    }
}

/// What follows the bearer prefix in `s`, or nothing when `s` does not start
/// with it.
fn strip_bearer_prefix(s: &str) -> (r: Option<&str>)
    ensures
        match r {
            Some(rest) => bearer_prefix().is_prefix_of(s@) && rest@ == s@.skip(
                bearer_prefix().len() as int,
            ),
            None => !bearer_prefix().is_prefix_of(s@),
        },
{
    let prefix = "Bearer ";
    let n = s.unicode_len();
    let m = prefix.unicode_len();
    if n < m {
        return None;
    }
    let mut i: usize = 0;
    while i < m
        invariant
            prefix@ == bearer_prefix(),
            n == s@.len(),
            m == prefix@.len(),
            m <= n,
            i <= m,
            forall|j: int| 0 <= j < i ==> #[trigger] s@[j] == prefix@[j],
        decreases m - i,
    {
        if s.get_char(i) != prefix.get_char(i) {
            proof {
                assert(s@.subrange(0, m as int)[i as int] != prefix@[i as int]);
            }
            return None;
        }
        i = i + 1;
    }
    proof {
        assert(prefix@ =~= s@.subrange(0, m as int));
    }
    let rest = s.substring_char(m, n);
    proof {
        assert(rest@ =~= s@.skip(m as int));
    }
    Some(rest)
}

/// The bearer token of a request, from its access assertion header or, when
/// that is absent, from its `Authorization` header.
pub fn bearer_token(assertion: Option<String>, authorization: Option<String>) -> (r: Option<String>)
    ensures
        opt_view(r) == token_of(opt_view(assertion), opt_view(authorization)),
{
    match assertion {
        Some(t) => Some(t),
        None => match authorization {
            Some(a) => match strip_bearer_prefix(a.as_str()) {
                Some(rest) => Some(rest.to_owned()),
                None => None,
            },
            None => None,
        },
    }
}

/// The signing algorithm a token header names.
#[derive(Debug, Clone, Copy, PartialEq, Eq, Structural)]
pub enum SigningAlgorithm {
    /// HMAC using SHA-256.
    Hs256,
    /// HMAC using SHA-384.
    Hs384,
    /// HMAC using SHA-512.
    Hs512,
    /// ECDSA using SHA-256.
    Es256,
    /// ECDSA using SHA-384.
    Es384,
    /// RSASSA-PKCS1-v1_5 using SHA-256, the one the access proxy signs with.
    Rs256,
    /// RSASSA-PKCS1-v1_5 using SHA-384.
    Rs384,
    /// RSASSA-PKCS1-v1_5 using SHA-512.
    Rs512,
    /// RSASSA-PSS using SHA-256.
    Ps256,
    /// RSASSA-PSS using SHA-384.
    Ps384,
    /// RSASSA-PSS using SHA-512.
    Ps512,
    /// Edwards-curve signatures.
    EdDsa,
}

/// Why a token was turned away before its claims were read.
#[derive(Debug, Clone, Copy, PartialEq, Eq, Structural)]
pub enum AuthError {
    /// The token's header does not decode.
    InvalidHeader,
}

/// The algorithm named by the header of `token`, or nothing when the header
/// does not decode.
pub uninterp spec fn header_algorithm_of(token: Seq<char>) -> Option<SigningAlgorithm>;

/// Relies on `jsonwebtoken::decode_header`: the algorithm of the token's
/// header, or an error when the header does not decode.
#[verifier::external_body]
fn decode_header_algorithm(token: &str) -> (r: Option<SigningAlgorithm>)
    ensures
        r == header_algorithm_of(token@),
{
    let header = jsonwebtoken::decode_header(token).ok()?;
    Some(match header.alg {
        Algorithm::HS256 => SigningAlgorithm::Hs256,
        Algorithm::HS384 => SigningAlgorithm::Hs384,
        Algorithm::HS512 => SigningAlgorithm::Hs512,
        Algorithm::ES256 => SigningAlgorithm::Es256,
        Algorithm::ES384 => SigningAlgorithm::Es384,
        Algorithm::RS256 => SigningAlgorithm::Rs256,
        Algorithm::RS384 => SigningAlgorithm::Rs384,
        Algorithm::RS512 => SigningAlgorithm::Rs512,
        Algorithm::PS256 => SigningAlgorithm::Ps256,
        Algorithm::PS384 => SigningAlgorithm::Ps384,
        Algorithm::PS512 => SigningAlgorithm::Ps512,
        Algorithm::EdDSA => SigningAlgorithm::EdDsa,
    })
}

/// The header verdict for a decoded algorithm.
pub open spec fn header_verdict(algorithm: Option<SigningAlgorithm>) -> Result<bool, AuthError> {
    match algorithm {
        Some(a) => Ok(a == SigningAlgorithm::Rs256),
        None => Err(AuthError::InvalidHeader),
    }
}

/// Judges a decoded header: an error when it did not decode, else whether it
/// names the expected algorithm.
pub fn judge_header(algorithm: Option<SigningAlgorithm>) -> (r: Result<bool, AuthError>)
    ensures
        r == header_verdict(algorithm),
{
    match algorithm {
        Some(a) => Ok(a == SigningAlgorithm::Rs256),
        None => Err(AuthError::InvalidHeader),
    }
}

/// Checks the header of `token`: an error when it does not decode, `false`
/// when it names another algorithm than RS256, `true` otherwise.
pub fn check_token_header(token: &str) -> (r: Result<bool, AuthError>)
    ensures
        r == header_verdict(header_algorithm_of(token@)),
{
    judge_header(decode_header_algorithm(token))
}

} // verus!
