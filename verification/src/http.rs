//! Plain-value models of the HTTP objects that the middleware touches.
//!
//! The host pipeline owns the real request and response objects; the
//! middleware only ever reads a request's header map and decorates a
//! response's header map and status. These types carry exactly that much:
//! a header value is a sequence of raw bytes, a header map is a sequence of
//! name/value entries, and a response is a status code, a header map and a
//! body.

use vstd::prelude::*;
use vstd::slice::slice_to_vec;
use vstd::string::StringSliceAdditionalSpecFns;

use crate::bytes_eq;

verus! {

/// The UTF-8 bytes of a piece of text, as they stand on the wire.
pub open spec fn text_bytes(s: Seq<char>) -> Seq<u8> {
    vstd::utf8::encode_utf8(s)
}

/// A raw HTTP header value: an opaque sequence of bytes as received from or
/// handed to the wire.
#[derive(Debug)]
pub struct HeaderValue {
    bytes: Vec<u8>,
}

impl View for HeaderValue {
    type V = Seq<u8>;

    closed spec fn view(&self) -> Seq<u8> {
        self.bytes@
    }
}

/// Whether the bytes can be read back as header text: horizontal tab or
/// visible ASCII, nothing else.
pub open spec fn is_header_text(b: Seq<u8>) -> bool {
    forall|i: int| 0 <= i < b.len() ==> (b[i] == 9 || (32 <= b[i] && b[i] < 127))
}

impl HeaderValue {
    /// Wraps raw bytes as a header value.
    pub fn from_bytes(bytes: Vec<u8>) -> (r: Self)
        ensures
            r@ == bytes@,
    {
        HeaderValue { bytes }
    }

    /// Builds a header value from the UTF-8 bytes of a string.
    pub fn from_text(s: &str) -> (r: Self)
        ensures
            r@ == s.spec_bytes(),
    {
        HeaderValue { bytes: s.as_bytes_vec() }
    }

    /// The raw bytes of the value.
    pub fn as_bytes(&self) -> (r: &[u8])
        ensures
            r@ == self@,
    {
        self.bytes.as_slice()
    }

    /// An owned copy of the value, byte for byte.
    pub fn duplicate(&self) -> (r: Self)
        ensures
            r@ == self@,
    {
        HeaderValue { bytes: slice_to_vec(self.bytes.as_slice()) }
    }

    /// Whether the value is representable as header text.
    pub fn is_text(&self) -> (r: bool)
        ensures
            r == is_header_text(self@),
    {
        let n: usize = self.bytes.len();
        let mut i: usize = 0;
        while i < n
            invariant
                n == self.bytes@.len(),
                0 <= i <= n,
                forall|j: int|
                    0 <= j < i ==> (self.bytes@[j] == 9 || (32 <= self.bytes@[j]
                        && self.bytes@[j] < 127)),
            decreases n - i,
        {
            let b = self.bytes[i];
            if !(b == 9 || (32 <= b && b < 127)) {
                return false;
            }
            i = i + 1;
        }
        true
    }
}

/// The first value recorded under `name`, if any. Later entries with the
/// same name are kept but shadowed, as in a header multimap.
pub open spec fn lookup(h: Seq<(Seq<u8>, Seq<u8>)>, name: Seq<u8>) -> Option<Seq<u8>>
    decreases h.len(),
{
    if h.len() == 0 {
        Option::None
    } else if h[0].0 == name {
        Option::Some(h[0].1)
    } else {
        lookup(h.drop_first(), name)
    }
}

/// A request's or response's header map: name/value entries in order of
/// insertion, duplicate names allowed.
pub struct Headers {
    entries: Vec<(String, HeaderValue)>,
}

impl View for Headers {
    type V = Seq<(Seq<u8>, Seq<u8>)>;

    closed spec fn view(&self) -> Seq<(Seq<u8>, Seq<u8>)> {
        self.entries@.map(|i: int, e: (String, HeaderValue)| (text_bytes(e.0@), e.1@))
    }
}

impl Headers {
    /// An empty header map.
    pub fn new() -> (r: Self)
        ensures
            r@ == Seq::<(Seq<u8>, Seq<u8>)>::empty(),
    {
        let r = Headers { entries: Vec::new() };
        assert(r@ =~= Seq::<(Seq<u8>, Seq<u8>)>::empty());
        r
    }

    /// Appends one entry at the end, keeping any earlier entries with the
    /// same name.
    pub fn append(&mut self, name: &str, value: HeaderValue)
        ensures
            final(self)@ == old(self)@.push((name.spec_bytes(), value@)),
    {
        let ghost before = self@;
        let ghost pushed = (name.spec_bytes(), value@);
        self.entries.push((name.to_owned(), value));
        assert(self@ =~= before.push(pushed));
    }

    /// The first value recorded under `name`, if any.
    pub fn get(&self, name: &str) -> (r: Option<&HeaderValue>)
        ensures
            (match r {
                Option::Some(v) => lookup(self@, name.spec_bytes()) == Option::Some(v@),
                Option::None => lookup(self@, name.spec_bytes()) is None,
            }),
    {
        let ghost nb = name.spec_bytes();
        let n: usize = self.entries.len();
        let mut i: usize = 0;
        proof {
            assert(self@.skip(0) =~= self@);
        }
        while i < n
            invariant
                n == self.entries@.len(),
                0 <= i <= n,
                nb == name.spec_bytes(),
                self@.len() == self.entries@.len(),
                lookup(self@, nb) == lookup(self@.skip(i as int), nb),
            decreases n - i,
        {
            let name_bytes = name.as_bytes();
            let entry_name = self.entries[i].0.as_str().as_bytes();
            proof {
                assert(self@[i as int] == (text_bytes(self.entries@[i as int].0@),
                    self.entries@[i as int].1@));
                assert(self@.skip(i as int)[0] == self@[i as int]);
            }
            if bytes_eq(entry_name, name_bytes) {
                assert(lookup(self@.skip(i as int), nb) == Option::Some(self@[i as int].1));
                return Some(&self.entries[i].1);
            }
            proof {
                assert(self@.skip(i as int).drop_first() =~= self@.skip(i as int + 1));
            }
            i = i + 1;
        }
        assert(self@.skip(n as int) =~= Seq::<(Seq<u8>, Seq<u8>)>::empty());
        None
    }

    /// How many entries the map holds.
    pub fn len(&self) -> (r: usize)
        ensures
            r == self@.len(),
    {
        self.entries.len()
    }
}

/// An HTTP response: status code, header map and body.
pub struct Response {
    /// The HTTP status code.
    pub status: u16,
    /// The response headers.
    pub headers: Headers,
    /// The response body, as raw bytes.
    pub body: Vec<u8>,
}

impl Response {
    /// A response with the given status, no headers and an empty body.
    pub fn new(status: u16) -> (r: Self)
        ensures
            r.status == status,
            r.headers@ == Seq::<(Seq<u8>, Seq<u8>)>::empty(),
            r.body@ == Seq::<u8>::empty(),
    {
        let r = Response { status, headers: Headers::new(), body: Vec::new() };
        assert(r.body@ =~= Seq::<u8>::empty());
        r
    }

    /// The first value recorded under `name` in the response headers.
    pub fn header(&self, name: &str) -> (r: Option<&HeaderValue>)
        ensures
            (match r {
                Option::Some(v) => lookup(self.headers@, name.spec_bytes()) == Option::Some(v@),
                Option::None => lookup(self.headers@, name.spec_bytes()) is None,
            }),
    {
        self.headers.get(name)
    }
}

} // verus!
