//! The Basic-authentication gate: parsing an `Authorization` header and
//! checking the credentials it carries against a user store.
use vstd::prelude::*;
use vstd::slice::{slice_subrange, slice_to_vec};
use vstd::string::*;
use vstd::utf8::encode_utf8;
use base64::Engine;
use crate::bytes::{bytes_equal, has_prefix, has_prefix_at};

verus! {

/// ASCII `':'`, between user name and password.
pub const COLON: u8 = 0x3a;

/// The scheme word that opens a Basic `Authorization` header: `Basic `.
pub open spec fn basic_scheme() -> Seq<u8> {
    seq![0x42u8, 0x61u8, 0x73u8, 0x69u8, 0x63u8, 0x20u8]
}

fn basic_scheme_bytes() -> (r: Vec<u8>)
    ensures
        r@ == basic_scheme(),
{
    let r: Vec<u8> = vec![0x42u8, 0x61u8, 0x73u8, 0x69u8, 0x63u8, 0x20u8];
    proof {
        assert(r@ =~= basic_scheme());
    }
    r
}

/// `s` with every leading repetition of the scheme word removed.
pub open spec fn without_scheme(s: Seq<u8>) -> Seq<u8>
    decreases s.len(),
{
    if has_prefix(s, basic_scheme()) {
        without_scheme(s.subrange(6, s.len() as int))
    } else {
        s
    }
}

/// The encoded credentials of a header: present only where the header
/// uses the Basic scheme.
pub open spec fn basic_token(header: Seq<u8>) -> Option<Seq<u8>> {
    if has_prefix(header, basic_scheme()) {
        Some(without_scheme(header))
    } else {
        None
    }
}

/// What base64's standard engine decodes `text` to; `None` where it
/// refuses the text.
pub uninterp spec fn base64_decoded(text: Seq<u8>) -> Option<Seq<u8>>;

/// Relies on `base64::engine::general_purpose::STANDARD.decode` (the
/// padded standard alphabet): its result depends on the text alone.
#[verifier::external_body]
fn decode_base64(text: &[u8]) -> (r: Option<Vec<u8>>)
    ensures
        match r {
            Some(v) => base64_decoded(text@) == Some(v@),
            None => base64_decoded(text@) is None,
        },
{
    base64::engine::general_purpose::STANDARD.decode(text).ok()
}

/// Whether `i` is the position of the first colon in `d`.
pub open spec fn is_first_colon(d: Seq<u8>, i: int) -> bool {
    0 <= i < d.len() && d[i] == COLON && forall|j: int| 0 <= j < i ==> d[j] != COLON
}

/// `d` split once, at its first colon, into user name and password.
pub open spec fn split_credentials(d: Seq<u8>) -> Option<(Seq<u8>, Seq<u8>)> {
    if exists|i: int| is_first_colon(d, i) {
        let i = choose|i: int| is_first_colon(d, i);
        Some((d.subrange(0, i), d.subrange(i + 1, d.len() as int)))
    } else {
        None
    }
}

/// The password last registered for `name`.
pub open spec fn password_for(users: Seq<(Seq<u8>, Seq<u8>)>, name: Seq<u8>) -> Option<Seq<u8>>
    decreases users.len(),
{
    if users.len() == 0 {
        None
    } else if users.last().0 == name {
        Some(users.last().1)
    } else {
        password_for(users.drop_last(), name)
    }
}

/// Whether the store accepts `name` with `password`.
pub open spec fn accepts(users: Seq<(Seq<u8>, Seq<u8>)>, name: Seq<u8>, password: Seq<u8>) -> bool {
    password_for(users, name) == Some(password)
}

/// Whether decoded credentials `d` name a user of the store with the right
/// password.
pub open spec fn decoded_accepted(users: Seq<(Seq<u8>, Seq<u8>)>, d: Seq<u8>) -> bool {
    match split_credentials(d) {
        Some((name, password)) => accepts(users, name, password),
        None => false,
    }
}

/// Whether an `Authorization` header value authenticates against the store.
pub open spec fn header_accepted(users: Seq<(Seq<u8>, Seq<u8>)>, header: Option<Seq<u8>>) -> bool {
    match header {
        None => false,
        Some(h) => match basic_token(h) {
            None => false,
            Some(token) => match base64_decoded(token) {
                None => false,
                Some(d) => decoded_accepted(users, d),
            },
        },
    }
}

/// The user name in credentials that were accepted.
pub open spec fn credential_name(d: Seq<u8>) -> Seq<u8> {
    split_credentials(d).unwrap().0
}

/// The user name carried by an accepted `Authorization` header value.
pub open spec fn header_user(header: Seq<u8>) -> Seq<u8> {
    credential_name(base64_decoded(basic_token(header).unwrap()).unwrap())
}

/// User names with their passwords. A name registered twice keeps the
/// password it was given last.
pub struct UserStore {
    users: Vec<(String, String)>,
}

impl View for UserStore {
    type V = Seq<(Seq<u8>, Seq<u8>)>;

    closed spec fn view(&self) -> Seq<(Seq<u8>, Seq<u8>)> {
        self.users@.map_values(|e: (String, String)| (encode_utf8(e.0@), encode_utf8(e.1@)))
    }
}

impl UserStore {
    /// A store with no users.
    pub fn new() -> (r: UserStore)
        ensures
            r@ == Seq::<(Seq<u8>, Seq<u8>)>::empty(),
    {
        let r = UserStore { users: Vec::new() };
        proof {
            assert(r@ =~= Seq::<(Seq<u8>, Seq<u8>)>::empty());
        }
        r
    }

    /// Registers `name` with `password`, replacing any earlier password.
    pub fn insert(&mut self, name: &str, password: &str)
        ensures
            final(self)@ == old(self)@.push((name.spec_bytes(), password.spec_bytes())),
    {
        self.users.push((String::from_str(name), String::from_str(password)));
        proof {
            assert(final(self)@ =~= old(self)@.push((name.spec_bytes(), password.spec_bytes())));
        }
    }

    /// The user that `name` and `password` identify, if the store accepts
    /// them.
    pub fn verify(&self, name: &[u8], password: &[u8]) -> (r: Option<String>)
        ensures
            r is Some <==> accepts(self@, name@, password@),
            r matches Some(n) ==> encode_utf8(n@) == name@,
    {
        let mut i: usize = self.users.len();
        proof {
            assert(self@.subrange(0, i as int) =~= self@);
        }
        while i > 0
            invariant
                i <= self.users@.len(),
                password_for(self@.subrange(0, i as int), name@) == password_for(self@, name@),
            decreases i,
        {
            let ghost prefix = self@.subrange(0, i as int);
            proof {
                assert(prefix.drop_last() =~= self@.subrange(0, i - 1));
            }
            let entry = &self.users[i - 1];
            if bytes_equal(entry.0.as_str().as_bytes(), name) {
                if bytes_equal(entry.1.as_str().as_bytes(), password) {
                    return Some(entry.0.clone());
                }
                return None;
            }
            i = i - 1;
        }
        proof {
            assert(self@.subrange(0, 0) =~= Seq::<(Seq<u8>, Seq<u8>)>::empty());
        }
        None
    }
}

/// The credentials that follow the Basic scheme word in `header`, if the
/// header uses that scheme.
pub fn basic_credentials(header: &[u8]) -> (r: Option<Vec<u8>>)
    ensures
        match r {
            Some(t) => basic_token(header@) == Some(t@),
            None => basic_token(header@) is None,
        },
{
    let scheme = basic_scheme_bytes();
    if !has_prefix_at(header, 0, scheme.as_slice()) {
        proof {
            assert(header@.subrange(0, header@.len() as int) =~= header@);
        }
        return None;
    }
    proof {
        assert(header@.subrange(0, header@.len() as int) =~= header@);
    }
    let mut at: usize = 0;
    while 6 <= header.len() - at && has_prefix_at(header, at, scheme.as_slice())
        invariant
            at <= header@.len(),
            scheme@ == basic_scheme(),
            without_scheme(header@.subrange(at as int, header@.len() as int)) == without_scheme(header@),
        decreases header@.len() - at,
    {
        proof {
            let rest = header@.subrange(at as int, header@.len() as int);
            assert(rest.subrange(6, rest.len() as int) =~= header@.subrange(at + 6, header@.len() as int));
        }
        at = at + 6;
    }
    proof {
        let rest = header@.subrange(at as int, header@.len() as int);
        assert(!has_prefix(rest, basic_scheme()));
    }
    Some(slice_to_vec(slice_subrange(header, at, header.len())))
}

/// Splits decoded credentials once, at the first colon, into user name and
/// password.
pub fn split_at_colon(d: &[u8]) -> (r: Option<(Vec<u8>, Vec<u8>)>)
    ensures
        match r {
            Some((name, password)) => split_credentials(d@) == Some((name@, password@)),
            None => split_credentials(d@) is None,
        },
{
    let mut i: usize = 0;
    while i < d.len()
        invariant
            i <= d@.len(),
            forall|j: int| 0 <= j < i ==> d@[j] != COLON,
        decreases d@.len() - i,
    {
        if d[i] == COLON {
            proof {
                assert(is_first_colon(d@, i as int));
                let k = choose|k: int| is_first_colon(d@, k);
                assert(k == i);
            }
            let name = slice_to_vec(slice_subrange(d, 0, i));
            let password = slice_to_vec(slice_subrange(d, i + 1, d.len()));
            return Some((name, password));
        }
        i = i + 1;
    }
    None
}

/// The user that decoded credentials `d` (`name:password`) identify, if the
/// store accepts them.
pub fn check_decoded_credentials(store: &UserStore, d: &[u8]) -> (r: Option<String>)
    ensures
        r is Some <==> decoded_accepted(store@, d@),
        r matches Some(n) ==> encode_utf8(n@) == credential_name(d@),
{
    match split_at_colon(d) {
        Some((name, password)) => store.verify(name.as_slice(), password.as_slice()),
        None => None,
    }
}

/// The user that an `Authorization` header value identifies: Basic scheme,
/// base64 credentials `name:password`, accepted by the store. Every other
/// header, and its absence, identifies no one.
pub fn check_auth(store: &UserStore, header: Option<&str>) -> (r: Option<String>)
    ensures
        r is Some <==> header_accepted(store@, match header {
            Some(h) => Some(h.spec_bytes()),
            None => None,
        }),
        r matches Some(n) ==> header matches Some(h) && encode_utf8(n@) == header_user(h.spec_bytes()),
{
    match header {
        None => None,
        Some(h) => match basic_credentials(h.as_bytes()) {
            None => None,
            Some(token) => match decode_base64(token.as_slice()) {
                None => None,
                Some(d) => check_decoded_credentials(store, d.as_slice()),
            },
        },
    }
}

} // verus!
