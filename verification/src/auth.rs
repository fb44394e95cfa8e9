//! The plain-value side of authentication: bearer-token extraction from an
//! authorization header, the shared-secret check on inbound notifications,
//! the claim checks on a verified identity token, and the base64url decoding
//! of a token's segments. Signature verification itself is a collaborator's
//! job; these functions receive its outputs as plain values.

use vstd::prelude::*;
use vstd::string::StrSliceExecFns;
use vstd::string::StringExecFns;
use crate::codec::{base64url_decode, base64url_decoded};
use crate::errors::AppError;
use crate::strutil::{is_prefix_of, str_eq};

verus! {

/// `s` with every leading repetition of `p` removed.
pub open spec fn strip_repeated_prefix(s: Seq<char>, p: Seq<char>) -> Seq<char>
    decreases s.len(),
{
    if p.len() > 0 && s.len() >= p.len() && s.subrange(0, p.len() as int) == p {
        strip_repeated_prefix(s.skip(p.len() as int), p)
    } else {
        s
    }
}

/// Removes every leading `"Bearer "` from a header value.
fn strip_bearer(h: &str) -> (r: String)
    ensures
        r@ == strip_repeated_prefix(h@, "Bearer "@),
{
    proof {
        reveal_strlit("Bearer ");
        assert("Bearer "@.len() == 7);
    }
    let len = h.unicode_len();
    let mut lo: usize = 0;
    proof {
        assert(h@.skip(0) =~= h@);
    }
    while len >= 7 && lo <= len - 7 && str_eq(h.substring_char(lo, lo + 7), "Bearer ")
        invariant
            len == h@.len(),
            lo <= len,
            "Bearer "@.len() == 7,
            strip_repeated_prefix(h@, "Bearer "@) == strip_repeated_prefix(
                h@.skip(lo as int),
                "Bearer "@,
            ),
        decreases len - lo,
    {
        proof {
            let rest = h@.skip(lo as int);
            assert(rest.subrange(0, 7) =~= h@.subrange(lo as int, lo as int + 7));
            assert(rest.skip(7) =~= h@.skip(lo as int + 7));
        }
        lo = lo + 7;
    }
    proof {
        let rest = h@.skip(lo as int);
        if len >= 7 && lo <= len - 7 {
            assert(rest.subrange(0, 7) =~= h@.subrange(lo as int, lo as int + 7));
            assert(rest.subrange(0, 7) != "Bearer "@);
        }
        assert(strip_repeated_prefix(rest, "Bearer "@) == rest);
    }
    let tail = h.substring_char(lo, len);
    proof {
        assert(tail@ =~= h@.skip(lo as int));
    }
    String::from_str(tail)
}

/// The account id carried in an authorization header: everything after the
/// bearer marker. Rejects a missing header, one without the marker, and one
/// that carries nothing after it, with the exact messages the service
/// reports.
pub fn extract_user_from_request(auth_header: Option<&String>) -> (r: Result<String, AppError>)
    ensures
        match r {
            Ok(uid) => {
                &&& auth_header matches Some(h)
                &&& is_prefix_of("Bearer "@, h@)
                &&& uid@ == strip_repeated_prefix(h@, "Bearer "@)
                &&& uid@.len() > 0
            },
            Err(e) => e matches AppError::Unauthorized(m) && match auth_header {
                None => m@ == "Missing Authorization header"@,
                Some(h) => {
                    if !is_prefix_of("Bearer "@, h@) {
                        m@ == "Invalid Authorization format"@
                    } else {
                        strip_repeated_prefix(h@, "Bearer "@).len() == 0 && m@
                            == "Empty user ID"@
                    }
                },
            },
        },
{
    let h = match auth_header {
        Some(h) => h,
        None => {
            return Err(AppError::Unauthorized(String::from_str("Missing Authorization header")));
        },
    };
    if !crate::strutil::starts_with(h.as_str(), "Bearer ") {
        return Err(AppError::Unauthorized(String::from_str("Invalid Authorization format")));
    }
    let uid = strip_bearer(h.as_str());
    if uid.as_str().unicode_len() == 0 {
        return Err(AppError::Unauthorized(String::from_str("Empty user ID")));
    }
    Ok(uid)
}

/// Admits an inbound notification only when its bearer token equals the
/// shared secret, with the exact messages the service reports.
pub fn verify_webhook_auth(auth_header: Option<&String>, webhook_secret: &str) -> (r: Result<
    (),
    AppError,
>)
    ensures
        match r {
            Ok(()) => {
                &&& auth_header matches Some(h)
                &&& is_prefix_of("Bearer "@, h@)
                &&& strip_repeated_prefix(h@, "Bearer "@) == webhook_secret@
            },
            Err(e) => e matches AppError::Unauthorized(m) && match auth_header {
                None => m@ == "Missing webhook authentication"@,
                Some(h) => {
                    if !is_prefix_of("Bearer "@, h@) {
                        m@ == "Invalid webhook auth format"@
                    } else {
                        strip_repeated_prefix(h@, "Bearer "@) != webhook_secret@ && m@
                            == "Invalid webhook secret"@
                    }
                },
            },
        },
{
    let h = match auth_header {
        Some(h) => h,
        None => {
            return Err(AppError::Unauthorized(String::from_str("Missing webhook authentication")));
        },
    };
    if !crate::strutil::starts_with(h.as_str(), "Bearer ") {
        return Err(AppError::Unauthorized(String::from_str("Invalid webhook auth format")));
    }
    let token = strip_bearer(h.as_str());
    if !str_eq(token.as_str(), webhook_secret) {
        return Err(AppError::Unauthorized(String::from_str("Invalid webhook secret")));
    }
    Ok(())
}

/// Whether one of the token's audiences is the expected client id.
pub open spec fn spec_aud_contains(auds: Seq<String>, cid: Seq<char>) -> bool {
    exists|i: int| 0 <= i < auds.len() && (#[trigger] auds[i])@ == cid
}

/// The temporal and identity checks on a verified identity token's claims:
/// not expired, not issued in the future (with one minute of skew), issued
/// by the expected issuer, addressed to this client.
pub fn validate_apple_claims(
    exp: u64,
    iat: u64,
    iss: &str,
    audiences: &Vec<String>,
    client_id: &str,
    now: u64,
) -> (r: Result<(), AppError>)
    ensures
        match r {
            Ok(()) => {
                &&& exp >= now
                &&& iat as int <= now as int + 60
                &&& iss@ == "https://appleid.apple.com"@
                &&& spec_aud_contains(audiences@, client_id@)
            },
            Err(e) => e matches AppError::Unauthorized(m) && if exp < now {
                m@ == "Token expired"@
            } else if iat as int > now as int + 60 {
                m@ == "Token issued in the future"@
            } else if iss@ != "https://appleid.apple.com"@ {
                m@ == "Invalid token issuer"@
            } else {
                !spec_aud_contains(audiences@, client_id@) && m@ == "Invalid token audience"@
            },
        },
{
    if exp < now {
        return Err(AppError::Unauthorized(String::from_str("Token expired")));
    }
    if iat > now && iat - now > 60 {
        return Err(AppError::Unauthorized(String::from_str("Token issued in the future")));
    }
    if !str_eq(iss, "https://appleid.apple.com") {
        return Err(AppError::Unauthorized(String::from_str("Invalid token issuer")));
    }
    let n = audiences.len();
    let mut k: usize = 0;
    while k < n
        invariant
            exp >= now,
            iat as int <= now as int + 60,
            iss@ == "https://appleid.apple.com"@,
            n == audiences@.len(),
            k <= n,
            forall|j: int| 0 <= j < k ==> (#[trigger] audiences@[j])@ != client_id@,
        decreases n - k,
    {
        if str_eq(audiences[k].as_str(), client_id) {
            return Ok(());
        }
        k = k + 1;
    }
    Err(AppError::Unauthorized(String::from_str("Invalid token audience")))
}

/// Decodes one base64url segment of a signed token, as both identity tokens
/// and store receipts carry them.
pub fn decode_jwt_part(part: &str) -> (r: Result<Vec<u8>, AppError>)
    ensures
        match r {
            Ok(v) => base64url_decoded(part@) == Some(v@),
            Err(e) => {
                &&& base64url_decoded(part@) is None
                &&& e matches AppError::Unauthorized(m) && m@ == "Invalid token encoding"@
            },
        },
{
    match base64url_decode(part) {
        Some(v) => Ok(v),
        None => Err(AppError::Unauthorized(String::from_str("Invalid token encoding"))),
    }
}

} // verus!
