//! `SANE_NET_AUTHORIZE`: answers a request for credentials.

use vstd::prelude::*;
use vstd::string::*;

use crate::cstring::{no_nul, CString};
use crate::debug::{pretty_field, push_field, push_quoted, quoted};
use crate::net::io::{
    be32, lemma_be32_value, lemma_string_round_trip, lemma_word_prefix, parse_string, parse_word,
    string_wire, Decode, DecodeError, Encode, EncodeError, Parsed, Reader, RoundTrip, Writer,
};
use crate::net::{ProcedureNumber};

verus! {

/// What an authorize request holds.
pub struct AuthorizeRequestModel {
    pub resource: Seq<u8>,
    pub username: Seq<u8>,
    pub password: Seq<u8>,
}

/// `SANE_NET_AUTHORIZE` request: the resource and the credentials for it.
#[derive(PartialEq, Eq, Debug)]
pub struct AuthorizeRequest {
    resource: CString,
    username: CString,
    password: CString,
}

impl View for AuthorizeRequest {
    type V = AuthorizeRequestModel;

    closed spec fn view(&self) -> AuthorizeRequestModel {
        AuthorizeRequestModel { resource: self.resource@, username: self.username@, password: self.password@ }
    }
}

pub open spec fn authorize_request_wire(m: AuthorizeRequestModel) -> Seq<u8> {
    be32(ProcedureNumber::AUTHORIZE.code()) + string_wire(m.resource) + string_wire(m.username) + string_wire(m.password)
}

/// Every length in it fits a word.
pub open spec fn authorize_request_fits(m: AuthorizeRequestModel) -> bool {
    m.resource.len() + 1 <= u32::MAX && m.username.len() + 1 <= u32::MAX && m.password.len() + 1 <= u32::MAX
}

/// What a decoder can give back: canonical codes, strings without NUL.
pub open spec fn authorize_request_valid(m: AuthorizeRequestModel) -> bool {
    no_nul(m.resource) && no_nul(m.username) && no_nul(m.password)
}

/// The fields in order; the procedure number is read, not checked.
pub open spec fn parse_authorize_request(d: Seq<u8>) -> Parsed<AuthorizeRequestModel> {
    match parse_word(d) {
        Err(e) => Err(e),
        Ok((_, d1)) => match parse_string(d1) {
            Err(e) => Err(e),
            Ok((resource, d2)) => match parse_string(d2) {
                Err(e) => Err(e),
                Ok((username, d3)) => match parse_string(d3) {
                    Err(e) => Err(e),
                    Ok((password, d4)) => Ok((
                        AuthorizeRequestModel {
                            resource,
                            username,
                            password,
                        },
                        d4,
                    )),
                },
            },
        },
    }
}

impl AuthorizeRequest {
    pub fn resource(&self) -> (r: &CString)
        ensures
            r@ == self@.resource,
    {
        &self.resource
    }

    pub fn username(&self) -> (r: &CString)
        ensures
            r@ == self@.username,
    {
        &self.username
    }

    pub fn password(&self) -> (r: &CString)
        ensures
            r@ == self@.password,
    {
        &self.password
    }
}

impl Encode for AuthorizeRequest {
    open spec fn spec_wire(&self) -> Option<Seq<u8>> {
        if authorize_request_fits(self@) {
            Some(authorize_request_wire(self@))
        } else {
            None
        }
    }

    fn encode(&self, w: &mut Writer) -> (r: Result<(), EncodeError>) {
        w.write_word(ProcedureNumber::AUTHORIZE.as_word().0);
        match w.write_string(&self.resource) {
            Ok(()) => {},
            Err(e) => return Err(e),
        }
        match w.write_string(&self.username) {
            Ok(()) => {},
            Err(e) => return Err(e),
        }
        match w.write_string(&self.password) {
            Ok(()) => {},
            Err(e) => return Err(e),
        }
        assert(w@ =~= old(w)@ + authorize_request_wire(self@));
        Ok(())
    }
}

/// The pretty debug form, one field to a line.
pub open spec fn authorize_request_debug(m: AuthorizeRequestModel) -> Seq<char> {
    "AuthorizeRequest {\n"@ + pretty_field(0, "resource"@, quoted(m.resource))
        + pretty_field(0, "username"@, quoted(m.username))
        + pretty_field(0, "password"@, quoted(m.password)) + "}"@
}

impl AuthorizeRequest {
    #[verifier::spinoff_prover]
    /// `AuthorizeRequest { .. }`, one field to a line.
    pub fn to_debug_string(&self) -> (r: String)
        ensures
            r@ == authorize_request_debug(self@),
    {
        let mut s = String::from_str("AuthorizeRequest {\n");
        let mut v = String::new();
        push_quoted(&mut v, self.resource.as_bytes());
        push_field(&mut s, 0, "resource", v.as_str());
        let mut v = String::new();
        push_quoted(&mut v, self.username.as_bytes());
        push_field(&mut s, 0, "username", v.as_str());
        let mut v = String::new();
        push_quoted(&mut v, self.password.as_bytes());
        push_field(&mut s, 0, "password", v.as_str());
        s.append("}");
        assert(s@ =~= authorize_request_debug(self@));
        s
    }
}

/// An owned `AuthorizeRequest` that can be set field by field.
#[derive(PartialEq, Eq, Debug)]
pub struct AuthorizeRequestBuf {
    inner: AuthorizeRequest,
}

impl View for AuthorizeRequestBuf {
    type V = AuthorizeRequestModel;

    closed spec fn view(&self) -> AuthorizeRequestModel {
        self.inner@
    }
}

impl AuthorizeRequestBuf {
    pub fn new() -> (r: AuthorizeRequestBuf)
        ensures
            r@ == (AuthorizeRequestModel { resource: Seq::empty(), username: Seq::empty(), password: Seq::empty() }),
    {
        AuthorizeRequestBuf { inner: AuthorizeRequest { resource: CString::empty(), username: CString::empty(), password: CString::empty() } }
    }

    pub fn set_resource(&mut self, resource: CString)
        ensures
            final(self)@ == (AuthorizeRequestModel { resource: resource@, ..old(self)@ }),
    {
        self.inner.resource = resource;
    }

    pub fn resource(&self) -> (r: &CString)
        ensures
            r@ == self@.resource,
    {
        &self.inner.resource
    }

    pub fn set_username(&mut self, username: CString)
        ensures
            final(self)@ == (AuthorizeRequestModel { username: username@, ..old(self)@ }),
    {
        self.inner.username = username;
    }

    pub fn username(&self) -> (r: &CString)
        ensures
            r@ == self@.username,
    {
        &self.inner.username
    }

    pub fn set_password(&mut self, password: CString)
        ensures
            final(self)@ == (AuthorizeRequestModel { password: password@, ..old(self)@ }),
    {
        self.inner.password = password;
    }

    pub fn password(&self) -> (r: &CString)
        ensures
            r@ == self@.password,
    {
        &self.inner.password
    }

    /// The message this buffer holds.
    pub fn as_ref(&self) -> (r: &AuthorizeRequest)
        ensures
            r@ == self@,
    {
        &self.inner
    }
}

impl Encode for AuthorizeRequestBuf {
    open spec fn spec_wire(&self) -> Option<Seq<u8>> {
        if authorize_request_fits(self@) {
            Some(authorize_request_wire(self@))
        } else {
            None
        }
    }

    fn encode(&self, w: &mut Writer) -> (r: Result<(), EncodeError>) {
        self.inner.encode(w)
    }
}

impl Decode for AuthorizeRequestBuf {
    open spec fn spec_parse(d: Seq<u8>) -> Parsed<AuthorizeRequestModel> {
        parse_authorize_request(d)
    }

    fn decode(r: &mut Reader) -> (res: Result<AuthorizeRequestBuf, DecodeError>) {
        match r.read_word() {
            Ok(_) => {},
            Err(e) => return Err(e),
        }
        let resource = match r.read_string() {
            Ok(x) => x,
            Err(e) => return Err(e),
        };
        let username = match r.read_string() {
            Ok(x) => x,
            Err(e) => return Err(e),
        };
        let password = match r.read_string() {
            Ok(x) => x,
            Err(e) => return Err(e),
        };
        Ok(AuthorizeRequestBuf { inner: AuthorizeRequest { resource, username, password } })
    }
}

impl RoundTrip for AuthorizeRequestBuf {
    open spec fn valid(&self) -> bool {
        authorize_request_valid(self@)
    }

    proof fn lemma_round_trip(&self, rest: Seq<u8>) {
        let m = self@;
        assert(authorize_request_wire(m) + rest =~= (be32(ProcedureNumber::AUTHORIZE.code()) + (string_wire(m.resource) + (string_wire(m.username) + (string_wire(m.password) + rest)))));
        lemma_word_prefix(ProcedureNumber::AUTHORIZE.code(), (string_wire(m.resource) + (string_wire(m.username) + (string_wire(m.password) + rest))));
        lemma_string_round_trip(m.resource, (string_wire(m.username) + (string_wire(m.password) + rest)));
        lemma_string_round_trip(m.username, (string_wire(m.password) + rest));
        lemma_string_round_trip(m.password, rest);
    }
}

/// `SANE_NET_AUTHORIZE` reply: a single word that carries nothing.
#[derive(Clone, Copy, PartialEq, Eq, Structural, Debug)]
pub struct AuthorizeReply;

impl View for AuthorizeReply {
    type V = AuthorizeReply;

    open spec fn view(&self) -> AuthorizeReply {
        *self
    }
}

impl AuthorizeReply {
    /// `AuthorizeReply`
    pub fn to_debug_string(&self) -> (r: String)
        ensures
            r@ == "AuthorizeReply"@,
    {
        String::from_str("AuthorizeReply")
    }
}

impl Encode for AuthorizeReply {
    open spec fn spec_wire(&self) -> Option<Seq<u8>> {
        Some(be32(0))
    }

    fn encode(&self, w: &mut Writer) -> (r: Result<(), EncodeError>) {
        w.write_word(0);
        Ok(())
    }
}

/// An owned `AuthorizeReply`.
#[derive(Clone, Copy, PartialEq, Eq, Structural, Debug)]
pub struct AuthorizeReplyBuf {
    inner: AuthorizeReply,
}

impl View for AuthorizeReplyBuf {
    type V = AuthorizeReply;

    open spec fn view(&self) -> AuthorizeReply {
        AuthorizeReply
    }
}

impl AuthorizeReplyBuf {
    pub fn new() -> (r: AuthorizeReplyBuf) {
        AuthorizeReplyBuf { inner: AuthorizeReply }
    }

    /// The reply this buffer holds.
    pub fn as_ref(&self) -> (r: &AuthorizeReply) {
        &self.inner
    }
}

impl Encode for AuthorizeReplyBuf {
    open spec fn spec_wire(&self) -> Option<Seq<u8>> {
        Some(be32(0))
    }

    fn encode(&self, w: &mut Writer) -> (r: Result<(), EncodeError>) {
        self.inner.encode(w)
    }
}

impl Decode for AuthorizeReplyBuf {
    /// The word is read and its value ignored.
    open spec fn spec_parse(d: Seq<u8>) -> Parsed<AuthorizeReply> {
        match parse_word(d) {
            Err(e) => Err(e),
            Ok((_, rest)) => Ok((AuthorizeReply, rest)),
        }
    }

    fn decode(r: &mut Reader) -> (res: Result<AuthorizeReplyBuf, DecodeError>) {
        match r.read_word() {
            Ok(_) => Ok(AuthorizeReplyBuf::new()),
            Err(e) => Err(e),
        }
    }
}

impl RoundTrip for AuthorizeReplyBuf {
    open spec fn valid(&self) -> bool {
        true
    }

    proof fn lemma_round_trip(&self, rest: Seq<u8>) {
        lemma_be32_value(0);
        assert((be32(0) + rest).skip(4) =~= rest);
    }
}

} // verus!
