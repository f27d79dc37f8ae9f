//! The transport-facing logic of the inventory client: URL assembly,
//! the token rule, and the mapping from HTTP statuses to typed errors.
use vstd::prelude::*;
use crate::retry::RetryableError;
use crate::strutil::{
    contains_seq, str_contains, decimal_seq, u64_to_string, trim_trailing_slashes, trim_slashes,
};
use crate::virtual_models::int_decimal;

verus! {

/// The typed errors of the inventory client.
#[derive(Debug)]
pub enum NetBoxError {
    /// An upstream HTTP error outside the mapped statuses.
    ApiError(String),
    /// 401 or 403, or a rejected token.
    AuthenticationError(String),
    /// 404.
    NotFound(String),
    /// 400 or 422.
    ValidationError(String),
    /// A network-level failure.
    NetworkError(String),
    /// A payload that did not decode.
    SerializationError(String),
    /// A URL that could not be assembled.
    InvalidUrl(String),
    /// A response outside the protocol.
    UnexpectedResponse(String),
}

/// Which errors are worth retrying: network failures, server-side HTTP
/// errors (500, 502, 503, 504 named in the message), and unexpected
/// responses.
pub open spec fn spec_netbox_retryable(e: NetBoxError) -> bool {
    match e {
        NetBoxError::NetworkError(_) => true,
        NetBoxError::ApiError(msg) => contains_seq(msg@, "500"@) || contains_seq(msg@, "502"@)
            || contains_seq(msg@, "503"@) || contains_seq(msg@, "504"@),
        NetBoxError::AuthenticationError(_) => false,
        NetBoxError::NotFound(_) => false,
        NetBoxError::ValidationError(_) => false,
        NetBoxError::SerializationError(_) => false,
        NetBoxError::InvalidUrl(_) => false,
        NetBoxError::UnexpectedResponse(_) => true,
    }
}

impl RetryableError for NetBoxError {
    fn is_retryable(&self) -> (r: bool)
        ensures
            r == spec_netbox_retryable(*self),
    {
        match self {
            NetBoxError::NetworkError(_) => true,
            NetBoxError::ApiError(msg) => str_contains(msg.as_str(), "500") || str_contains(
                msg.as_str(),
                "502",
            ) || str_contains(msg.as_str(), "503") || str_contains(msg.as_str(), "504"),
            NetBoxError::AuthenticationError(_) => false,
            NetBoxError::NotFound(_) => false,
            NetBoxError::ValidationError(_) => false,
            NetBoxError::SerializationError(_) => false,
            NetBoxError::InvalidUrl(_) => false,
            NetBoxError::UnexpectedResponse(_) => true,
        }
    }
}

impl NetBoxError {
    /// Map an HTTP status to the typed error: 401 and 403 to
    /// AuthenticationError, 404 to NotFound, 400 and 422 to
    /// ValidationError, everything else to ApiError with the status
    /// named in the message.
    pub fn from_status_code(status: u16, message: String) -> (r: NetBoxError)
        ensures
            status == 401 || status == 403 ==> (r matches NetBoxError::AuthenticationError(m)
                && m@ == message@),
            status == 404 ==> (r matches NetBoxError::NotFound(m) && m@ == message@),
            status == 400 || status == 422 ==> (r matches NetBoxError::ValidationError(m) && m@
                == message@),
            !(status == 401 || status == 403 || status == 404 || status == 400 || status == 422)
                ==> (r matches NetBoxError::ApiError(m) && m@ == "HTTP "@ + decimal_seq(
                status as nat,
            ) + ": "@ + message@),
    {
        if status == 401 || status == 403 {
            NetBoxError::AuthenticationError(message)
        } else if status == 404 {
            NetBoxError::NotFound(message)
        } else if status == 400 || status == 422 {
            NetBoxError::ValidationError(message)
        } else {
            let m = String::from_str("HTTP ").concat(u64_to_string(status as u64).as_str()).concat(
                ": ",
            ).concat(message.as_str());
            NetBoxError::ApiError(m)
        }
    }
}

/// The base URL of the inventory: the configured address with trailing
/// slashes removed.
pub fn normalize_base_url(url: &str) -> (r: String)
    ensures
        r@ == trim_trailing_slashes(url@),
{
    trim_slashes(url)
}

/// An endpoint URL under the API root: the base, then `/api`, then the
/// endpoint, with a slash inserted when the endpoint does not start
/// with one.
pub open spec fn spec_build_url(base: Seq<char>, endpoint: Seq<char>) -> Seq<char> {
    if endpoint.len() > 0 && endpoint[0] == '/' {
        base + "/api"@ + endpoint
    } else {
        base + "/api/"@ + endpoint
    }
}

/// Assemble the URL of an endpoint under the API root.
pub fn build_url(base: &str, endpoint: &str) -> (r: String)
    ensures
        r@ == spec_build_url(base@, endpoint@),
{
    let starts_with_slash = endpoint.unicode_len() > 0 && endpoint.get_char(0) == '/';
    if starts_with_slash {
        String::from_str(base).concat("/api").concat(endpoint)
    } else {
        String::from_str(base).concat("/api/").concat(endpoint)
    }
}

/// The token rule: construction fails with an authentication error when
/// the token is empty.
pub fn check_token(token: &str) -> (r: Result<(), NetBoxError>)
    ensures
        r is Ok <==> token@.len() > 0,
        r is Err ==> (r matches Err(NetBoxError::AuthenticationError(m)) && m@
            == "NetBox token is required"@),
    {
    if token.unicode_len() == 0 {
        Err(NetBoxError::AuthenticationError(String::from_str("NetBox token is required")))
    } else {
        Ok(())
    }
}


/// The query string of a list endpoint: the present filters as
/// `name=value` pairs joined by `&`, in the order tenant, limit,
/// offset; empty when no filter is given.
pub open spec fn spec_list_query(
    tenant_id: Option<i32>,
    limit: Option<u32>,
    offset: Option<u32>,
) -> Seq<char> {
    let parts = (match tenant_id {
        Some(t) => seq!["tenant_id="@ + int_decimal(t as int)],
        None => Seq::<Seq<char>>::empty(),
    }) + (match limit {
        Some(l) => seq!["limit="@ + decimal_seq(l as nat)],
        None => Seq::<Seq<char>>::empty(),
    }) + (match offset {
        Some(o) => seq!["offset="@ + decimal_seq(o as nat)],
        None => Seq::<Seq<char>>::empty(),
    });
    join_amp(parts)
}

/// Fragments joined by `&`.
pub open spec fn join_amp(parts: Seq<Seq<char>>) -> Seq<char>
    decreases parts.len(),
{
    if parts.len() == 0 {
        Seq::empty()
    } else if parts.len() == 1 {
        parts[0]
    } else {
        join_amp(parts.drop_last()) + "&"@ + parts.last()
    }
}

/// Build the query string of a site or device list request.
pub fn list_query(tenant_id: Option<i32>, limit: Option<u32>, offset: Option<u32>) -> (r: String)
    ensures
        r@ == spec_list_query(tenant_id, limit, offset),
{
    let mut parts: Vec<String> = Vec::new();
    let ghost spec_parts = (match tenant_id {
        Some(t) => seq!["tenant_id="@ + int_decimal(t as int)],
        None => Seq::<Seq<char>>::empty(),
    }) + (match limit {
        Some(l) => seq!["limit="@ + decimal_seq(l as nat)],
        None => Seq::<Seq<char>>::empty(),
    }) + (match offset {
        Some(o) => seq!["offset="@ + decimal_seq(o as nat)],
        None => Seq::<Seq<char>>::empty(),
    });
    if let Some(t) = tenant_id {
        parts.push(String::from_str("tenant_id=").concat(crate::virtual_models::i32_to_string(t).as_str()));
    }
    if let Some(l) = limit {
        parts.push(String::from_str("limit=").concat(u64_to_string(l as u64).as_str()));
    }
    if let Some(o) = offset {
        parts.push(String::from_str("offset=").concat(u64_to_string(o as u64).as_str()));
    }
    proof {
        assert(parts.deep_view() =~= spec_parts);
    }
    let mut out = String::new();
    let mut i: usize = 0;
    while i < parts.len()
        invariant
            parts.deep_view() == spec_parts,
            i <= spec_parts.len(),
            out@ == join_amp(spec_parts.take(i as int)),
        decreases spec_parts.len() - i,
    {
        proof {
            let t1 = spec_parts.take(i + 1);
            assert(t1.drop_last() =~= spec_parts.take(i as int));
            assert(t1.last() == spec_parts[i as int]);
            assert(spec_parts[i as int] == parts@[i as int]@);
        }
        if i > 0 {
            out.append("&");
        }
        out.append(parts[i].as_str());
        proof {
            if i == 0 {
                assert(out@ =~= join_amp(spec_parts.take(1)));
            }
        }
        i += 1;
    }
    proof {
        assert(spec_parts.take(spec_parts.len() as int) =~= spec_parts);
    }
    out
}

} // verus!
