//! Cross-origin resource sharing (CORS) middleware logic.
//!
//! The policy type [`Cors`] holds an optional allow-list of origins and
//! decides, for each incoming request, whether a cross-origin caller is
//! admitted. A host HTTP pipeline drives the decision through [`Cors::handle`]
//! and applies the resulting [`Decision`] to its own request lifecycle.

use vstd::prelude::*;

mod error;
mod http;

pub use crate::error::Error;
pub use crate::http::HeaderValue;
pub use crate::http::Headers;
pub use crate::http::Response;
pub use crate::http::is_header_text;
pub use crate::http::lookup;
pub use crate::http::text_bytes;

verus! {

/// The set of origin byte strings named by a list of registered origins.
pub open spec fn origins_set(v: Seq<String>) -> Set<Seq<u8>> {
    Set::new(|b: Seq<u8>| exists|i: int| 0 <= i < v.len() && text_bytes(v[i]@) == b)
}

/// How registering one origin changes the allowed set: a first registration
/// replaces the wildcard with a one-element allow-list, a later one inserts
/// into the existing allow-list.
pub open spec fn spec_allow(allowed: Option<Set<Seq<u8>>>, origin: Seq<u8>) -> Option<
    Set<Seq<u8>>,
> {
    match allowed {
        Option::None => Option::Some(Set::empty().insert(origin)),
        Option::Some(s) => Option::Some(s.insert(origin)),
    }
}

/// The name of the request header that carries the caller's origin.
pub open spec fn origin_name() -> Seq<u8> {
    text_bytes("origin"@)
}

/// The name of the response header that tells the browser which origin may
/// read the response.
pub open spec fn allow_origin_name() -> Seq<u8> {
    text_bytes("access-control-allow-origin"@)
}

/// The wildcard token echoed by a policy with no registered origins.
pub open spec fn wildcard() -> Seq<u8> {
    text_bytes("*"@)
}

/// What origin validation decides, given the allowed set and the raw bytes
/// of the request's `Origin` header (if one was sent):
/// - with no allowed set, every request is admitted and the wildcard token
///   is echoed;
/// - with an allowed set, a missing or non-text header is rejected as
///   [`Error::MissingOrigin`], an unregistered origin as
///   [`Error::OriginNotAllowed`], and a registered origin is admitted with
///   its header value echoed byte for byte.
pub open spec fn spec_validate(
    allowed: Option<Set<Seq<u8>>>,
    origin_header: Option<Seq<u8>>,
) -> Result<Seq<u8>, Error> {
    match allowed {
        Option::None => Result::Ok(wildcard()),
        Option::Some(s) => match origin_header {
            Option::None => Result::Err(Error::MissingOrigin),
            Option::Some(b) => if !is_header_text(b) {
                Result::Err(Error::MissingOrigin)
            } else if s.contains(b) {
                Result::Ok(b)
            } else {
                Result::Err(Error::OriginNotAllowed)
            },
        },
    }
}

/// A policy with no registered origins admits every request, whatever its
/// headers, and echoes exactly the wildcard token.
pub proof fn lemma_wildcard_admits_all(origin_header: Option<Seq<u8>>)
    ensures
        spec_validate(Option::None, origin_header) == Result::<Seq<u8>, Error>::Ok(wildcard()),
{
}

/// With an allow-list active, a request whose `Origin` header is readable
/// text and equals a registered origin is admitted, and the echoed value is
/// the request's header value itself, byte for byte.
pub proof fn lemma_registered_origin_echoed(allowed: Set<Seq<u8>>, value: Seq<u8>)
    requires
        is_header_text(value),
        allowed.contains(value),
    ensures
        spec_validate(Option::Some(allowed), Option::Some(value)) == Result::<Seq<u8>, Error>::Ok(
            value,
        ),
{
}

/// With a non-empty allow-list active, a request that carries no `Origin`
/// header is rejected as [`Error::MissingOrigin`].
pub proof fn lemma_missing_origin_rejected(allowed: Set<Seq<u8>>)
    requires
        exists|o: Seq<u8>| allowed.contains(o),
    ensures
        spec_validate(Option::Some(allowed), Option::None) == Result::<Seq<u8>, Error>::Err(
            Error::MissingOrigin,
        ),
{
}

/// With a non-empty allow-list active, a request whose `Origin` header is
/// readable text but was never registered is rejected as
/// [`Error::OriginNotAllowed`].
pub proof fn lemma_unregistered_origin_rejected(allowed: Set<Seq<u8>>, value: Seq<u8>)
    requires
        exists|o: Seq<u8>| allowed.contains(o),
        is_header_text(value),
        !allowed.contains(value),
    ensures
        spec_validate(Option::Some(allowed), Option::Some(value)) == Result::<Seq<u8>, Error>::Err(
            Error::OriginNotAllowed,
        ),
{
}

/// Registering the same origin twice has no effect beyond the first
/// registration: the allowed set comes out the same.
pub proof fn lemma_allow_origin_idempotent(allowed: Option<Set<Seq<u8>>>, origin: Seq<u8>)
    ensures
        spec_allow(spec_allow(allowed, origin), origin) == spec_allow(allowed, origin),
{
    match allowed {
        Option::None => {
            assert(Set::empty().insert(origin).insert(origin) =~= Set::empty().insert(origin));
        },
        Option::Some(s) => {
            assert(s.insert(origin).insert(origin) =~= s.insert(origin));
        },
    }
}

/// Compares two byte slices for equality, element by element.
pub fn bytes_eq(a: &[u8], b: &[u8]) -> (r: bool)
    ensures
        r == (a@ == b@),
{
    if a.len() != b.len() {
        assert(a@ != b@) by {
            assert(a@.len() != b@.len());
        }
        return false;
    }
    let n: usize = a.len();
    let mut i: usize = 0;
    while i < n
        invariant
            n == a@.len() == b@.len(),
            0 <= i <= n,
            forall|j: int| 0 <= j < i ==> a@[j] == b@[j],
        decreases n - i,
    {
        if a[i] != b[i] {
            return false;
        }
        i = i + 1;
    }
    assert(a@ =~= b@);
    true
}

/// Whether `value` names one of the registered origins, byte for byte.
fn contains_origin(origins: &Vec<String>, value: &[u8]) -> (r: bool)
    ensures
        r == origins_set(origins@).contains(value@),
{
    let n: usize = origins.len();
    let mut i: usize = 0;
    while i < n
        invariant
            n == origins@.len(),
            0 <= i <= n,
            forall|j: int| 0 <= j < i ==> text_bytes(origins@[j]@) != value@,
        decreases n - i,
    {
        if bytes_eq(origins[i].as_str().as_bytes(), value) {
            assert(origins_set(origins@).contains(value@)) by {
                assert(text_bytes(origins@[i as int]@) == value@);
            }
            return true;
        }
        i = i + 1;
    }
    assert(!origins_set(origins@).contains(value@));
    false
}

/// CORS policy and middleware core.
///
/// The wildcard origin (`"*"`) is used by default. Calling
/// [`Cors::allow_origin`] enables an allow-list of origins instead.
pub struct Cors {
    origins: Option<Vec<String>>,
}

impl Cors {
    /// The model of the policy: `None` while no origin was ever registered
    /// (wildcard mode), otherwise the set of registered origin byte strings.
    pub closed spec fn allowed(&self) -> Option<Set<Seq<u8>>> {
        match self.origins {
            Option::None => Option::None,
            Option::Some(v) => Option::Some(origins_set(v@)),
        }
    }

    /// Add an origin that is allowed to make requests.
    /// Will be verified against the `Origin` request header.
    pub fn allow_origin(self, origin: &str) -> (r: Self)
        ensures
            r.allowed() == spec_allow(self.allowed(), text_bytes(origin@)),
    {
        let mut v: Vec<String> = match self.origins {
            Option::None => Vec::new(),
            Option::Some(v) => v,
        };
        let ghost before = v@;
        if !contains_origin(&v, origin.as_bytes()) {
            v.push(origin.to_owned());
            proof {
                assert forall|b: Seq<u8>|
                    origins_set(v@).contains(b) == (origins_set(before).contains(b) || b
                        == text_bytes(origin@)) by {
                    if origins_set(before).contains(b) {
                        let j = choose|j: int| 0 <= j < before.len() && text_bytes(before[j]@) == b;
                        assert(v@[j] == before[j]);
                    }
                    if b == text_bytes(origin@) {
                        assert(text_bytes(v@[before.len() as int]@) == b);
                    }
                    if origins_set(v@).contains(b) {
                        let j = choose|j: int| 0 <= j < v@.len() && text_bytes(v@[j]@) == b;
                        if j < before.len() {
                            assert(before[j] == v@[j]);
                        }
                    }
                }
                assert(origins_set(v@) =~= origins_set(before).insert(text_bytes(origin@)));
            }
        } else {
            assert(origins_set(v@) =~= origins_set(before).insert(text_bytes(origin@)));
        }
        Cors { origins: Some(v) }
    }

    /// Checks a request's header map against the policy.
    ///
    /// Succeeds with the value to echo in the allow-origin response header:
    /// the wildcard token while no origin was ever registered, otherwise the
    /// request's own `Origin` value, admitted only if its exact bytes were
    /// registered. Fails with [`Error::MissingOrigin`] when an allow-list is
    /// active and the header is absent or not readable as text, and with
    /// [`Error::OriginNotAllowed`] when the origin it names was not
    /// registered.
    pub fn validate_origin(&self, headers: &Headers) -> (r: Result<HeaderValue, Error>)
        ensures
            (match r {
                Result::Ok(v) => Result::<Seq<u8>, Error>::Ok(v@),
                Result::Err(e) => Result::<Seq<u8>, Error>::Err(e),
            }) == spec_validate(self.allowed(), lookup(headers@, origin_name())),
    {
        match &self.origins {
            Option::None => Result::Ok(HeaderValue::from_text("*")),
            Option::Some(origins) => {
                match headers.get("origin") {
                    Option::None => Result::Err(Error::MissingOrigin),
                    Option::Some(value) => {
                        if !value.is_text() {
                            Result::Err(Error::MissingOrigin)
                        } else if contains_origin(origins, value.as_bytes()) {
                            Result::Ok(value.duplicate())
                        } else {
                            Result::Err(Error::OriginNotAllowed)
                        }
                    },
                }
            },
        }
    }
}

/// What the interceptor decided for one request.
pub enum Decision {
    /// The request is admitted: hand it to the next pipeline stage, then
    /// append the carried echo value as the allow-origin response header.
    Forward(HeaderValue),
    /// The request is rejected: answer with the carried response and never
    /// invoke the next pipeline stage.
    Reject(Response),
}

impl Cors {
    /// The interceptor's decision for a request with the given headers:
    /// forward when validation succeeds, carrying the value to echo back;
    /// reject with a bare `403 Forbidden` response when it fails.
    pub fn handle(&self, headers: &Headers) -> (r: Decision)
        ensures
            (match spec_validate(self.allowed(), lookup(headers@, origin_name())) {
                Result::Ok(echo) => r matches Decision::Forward(v) && v@ == echo,
                Result::Err(_) => r matches Decision::Reject(resp) && resp.status == 403
                    && resp.headers@ == Seq::<(Seq<u8>, Seq<u8>)>::empty() && resp.body@
                    == Seq::<u8>::empty(),
            }),
    {
        match self.validate_origin(headers) {
            Result::Ok(value) => Decision::Forward(value),
            Result::Err(e) => Decision::Reject(e.into_response()),
        }
    }
}

/// Appends the allow-origin header carrying `echo` to a response obtained
/// from the next pipeline stage. The header is appended, never replaced:
/// values put there by earlier stages stay as separate occurrences. Status
/// and body are left untouched.
pub fn append_allow_origin(response: &mut Response, echo: HeaderValue)
    ensures
        final(response).status == old(response).status,
        final(response).body@ == old(response).body@,
        final(response).headers@ == old(response).headers@.push((allow_origin_name(), echo@)),
{
    response.headers.append("access-control-allow-origin", echo);
}

impl Default for Cors {
    /// The default policy: wildcard mode, every origin accepted.
    fn default() -> (r: Self)
        ensures
            r.allowed() is None,
    {
        Cors { origins: None }
    }
}

} // verus!
