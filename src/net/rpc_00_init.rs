//! `SANE_NET_INIT`: opens a session, naming the user and the protocol version.

use vstd::prelude::*;
use vstd::string::*;

use crate::cstring::{no_nul, CString};
use crate::debug::{debug_enum, dec_digits, pretty_field, push_dec, push_field, push_quoted, quoted};
use crate::net::io::{
    be32, lemma_string_round_trip, lemma_word_prefix, parse_string, parse_word, string_wire, Decode,
    DecodeError, Encode, EncodeError, Parsed, Reader, RoundTrip, Writer,
};
use crate::net::{ProcedureNumber, VERSION_CODE};
use crate::{Status, Word};

verus! {

/// What an init request holds.
pub struct InitRequestModel {
    pub version_code: u32,
    pub username: Seq<u8>,
}

/// `SANE_NET_INIT` request: the client's protocol version and user name.
#[derive(PartialEq, Eq, Debug)]
pub struct InitRequest {
    version_code: u32,
    username: CString,
}

impl View for InitRequest {
    type V = InitRequestModel;

    closed spec fn view(&self) -> InitRequestModel {
        InitRequestModel { version_code: self.version_code, username: self.username@ }
    }
}

pub open spec fn init_request_wire(m: InitRequestModel) -> Seq<u8> {
    be32(ProcedureNumber::INIT.code()) + be32(m.version_code) + string_wire(m.username)
}

/// Every length in it fits a word.
pub open spec fn init_request_fits(m: InitRequestModel) -> bool {
    m.username.len() + 1 <= u32::MAX
}

/// What a decoder can give back: canonical codes, strings without NUL.
pub open spec fn init_request_valid(m: InitRequestModel) -> bool {
    no_nul(m.username)
}

/// The fields in order; the procedure number is read, not checked.
pub open spec fn parse_init_request(d: Seq<u8>) -> Parsed<InitRequestModel> {
    match parse_word(d) {
        Err(e) => Err(e),
        Ok((_, d1)) => match parse_word(d1) {
            Err(e) => Err(e),
            Ok((x_version_code, d2)) => match parse_string(d2) {
                Err(e) => Err(e),
                Ok((username, d3)) => Ok((
                    InitRequestModel {
                        version_code: x_version_code,
                        username,
                    },
                    d3,
                )),
            },
        },
    }
}

impl InitRequest {
    pub fn version_code(&self) -> (r: u32)
        ensures
            r == self@.version_code,
    {
        self.version_code
    }

    pub fn username(&self) -> (r: &CString)
        ensures
            r@ == self@.username,
    {
        &self.username
    }
}

impl Encode for InitRequest {
    open spec fn spec_wire(&self) -> Option<Seq<u8>> {
        if init_request_fits(self@) {
            Some(init_request_wire(self@))
        } else {
            None
        }
    }

    fn encode(&self, w: &mut Writer) -> (r: Result<(), EncodeError>) {
        w.write_word(ProcedureNumber::INIT.as_word().0);
        w.write_word(self.version_code);
        match w.write_string(&self.username) {
            Ok(()) => {},
            Err(e) => return Err(e),
        }
        assert(w@ =~= old(w)@ + init_request_wire(self@));
        Ok(())
    }
}

/// The pretty debug form, one field to a line.
pub open spec fn init_request_debug(m: InitRequestModel) -> Seq<char> {
    "InitRequest {\n"@ + pretty_field(0, "version_code"@, dec_digits(m.version_code as nat))
        + pretty_field(0, "username"@, quoted(m.username)) + "}"@
}

impl InitRequest {
    #[verifier::spinoff_prover]
    /// `InitRequest { .. }`, one field to a line.
    pub fn to_debug_string(&self) -> (r: String)
        ensures
            r@ == init_request_debug(self@),
    {
        let mut s = String::from_str("InitRequest {\n");
        let mut v = String::new();
        push_dec(&mut v, self.version_code as u64);
        push_field(&mut s, 0, "version_code", v.as_str());
        let mut v = String::new();
        push_quoted(&mut v, self.username.as_bytes());
        push_field(&mut s, 0, "username", v.as_str());
        s.append("}");
        assert(s@ =~= init_request_debug(self@));
        s
    }
}

/// An owned `InitRequest` that can be set field by field.
#[derive(PartialEq, Eq, Debug)]
pub struct InitRequestBuf {
    inner: InitRequest,
}

impl View for InitRequestBuf {
    type V = InitRequestModel;

    closed spec fn view(&self) -> InitRequestModel {
        self.inner@
    }
}

impl InitRequestBuf {
    pub fn new() -> (r: InitRequestBuf)
        ensures
            r@ == (InitRequestModel { version_code: VERSION_CODE, username: Seq::empty() }),
    {
        InitRequestBuf { inner: InitRequest { version_code: VERSION_CODE, username: CString::empty() } }
    }

    pub fn set_version_code(&mut self, version_code: u32)
        ensures
            final(self)@ == (InitRequestModel { version_code, ..old(self)@ }),
    {
        self.inner.version_code = version_code;
    }

    pub fn version_code(&self) -> (r: u32)
        ensures
            r == self@.version_code,
    {
        self.inner.version_code
    }

    pub fn set_username(&mut self, username: CString)
        ensures
            final(self)@ == (InitRequestModel { username: username@, ..old(self)@ }),
    {
        self.inner.username = username;
    }

    pub fn username(&self) -> (r: &CString)
        ensures
            r@ == self@.username,
    {
        &self.inner.username
    }

    /// The message this buffer holds.
    pub fn as_ref(&self) -> (r: &InitRequest)
        ensures
            r@ == self@,
    {
        &self.inner
    }
}

impl Encode for InitRequestBuf {
    open spec fn spec_wire(&self) -> Option<Seq<u8>> {
        if init_request_fits(self@) {
            Some(init_request_wire(self@))
        } else {
            None
        }
    }

    fn encode(&self, w: &mut Writer) -> (r: Result<(), EncodeError>) {
        self.inner.encode(w)
    }
}

impl Decode for InitRequestBuf {
    open spec fn spec_parse(d: Seq<u8>) -> Parsed<InitRequestModel> {
        parse_init_request(d)
    }

    fn decode(r: &mut Reader) -> (res: Result<InitRequestBuf, DecodeError>) {
        match r.read_word() {
            Ok(_) => {},
            Err(e) => return Err(e),
        }
        let version_code = match r.read_word() {
            Ok(x) => x,
            Err(e) => return Err(e),
        };
        let username = match r.read_string() {
            Ok(x) => x,
            Err(e) => return Err(e),
        };
        Ok(InitRequestBuf { inner: InitRequest { version_code, username } })
    }
}

impl RoundTrip for InitRequestBuf {
    open spec fn valid(&self) -> bool {
        init_request_valid(self@)
    }

    proof fn lemma_round_trip(&self, rest: Seq<u8>) {
        let m = self@;
        assert(init_request_wire(m) + rest =~= (be32(ProcedureNumber::INIT.code()) + (be32(m.version_code) + (string_wire(m.username) + rest))));
        lemma_word_prefix(ProcedureNumber::INIT.code(), (be32(m.version_code) + (string_wire(m.username) + rest)));
        lemma_word_prefix(m.version_code, (string_wire(m.username) + rest));
        lemma_string_round_trip(m.username, rest);
    }
}

/// What an init reply holds.
pub struct InitReplyModel {
    pub status: Status,
    pub version_code: u32,
}

/// `SANE_NET_INIT` reply: the status and the server's protocol version.
#[derive(PartialEq, Eq, Debug)]
pub struct InitReply {
    status: Status,
    version_code: u32,
}

impl View for InitReply {
    type V = InitReplyModel;

    closed spec fn view(&self) -> InitReplyModel {
        InitReplyModel { status: self.status, version_code: self.version_code }
    }
}

pub open spec fn init_reply_wire(m: InitReplyModel) -> Seq<u8> {
    be32(m.status.code()) + be32(m.version_code)
}

/// Every length in it fits a word.
pub open spec fn init_reply_fits(m: InitReplyModel) -> bool {
    true
}

/// What a decoder can give back: canonical codes, strings without NUL.
pub open spec fn init_reply_valid(m: InitReplyModel) -> bool {
    m.status.wf()
}

/// The fields in order.
pub open spec fn parse_init_reply(d: Seq<u8>) -> Parsed<InitReplyModel> {
    match parse_word(d) {
        Err(e) => Err(e),
        Ok((x_status, d1)) => match parse_word(d1) {
            Err(e) => Err(e),
            Ok((x_version_code, d2)) => Ok((
                InitReplyModel {
                    status: Status::from_code(x_status),
                    version_code: x_version_code,
                },
                d2,
            )),
        },
    }
}

impl InitReply {
    pub fn status(&self) -> (r: Status)
        ensures
            r == self@.status,
    {
        self.status
    }

    pub fn version_code(&self) -> (r: u32)
        ensures
            r == self@.version_code,
    {
        self.version_code
    }
}

impl Encode for InitReply {
    open spec fn spec_wire(&self) -> Option<Seq<u8>> {
        if init_reply_fits(self@) {
            Some(init_reply_wire(self@))
        } else {
            None
        }
    }

    fn encode(&self, w: &mut Writer) -> (r: Result<(), EncodeError>) {
        w.write_word(self.status.as_word().0);
        w.write_word(self.version_code);
        assert(w@ =~= old(w)@ + init_reply_wire(self@));
        Ok(())
    }
}

/// The pretty debug form, one field to a line.
pub open spec fn init_reply_debug(m: InitReplyModel) -> Seq<char> {
    "InitReply {\n"@ + pretty_field(0, "status"@, debug_enum(m.status.spec_name(), "SANE_Status"@, m.status.code()))
        + pretty_field(0, "version_code"@, dec_digits(m.version_code as nat)) + "}"@
}

impl InitReply {
    #[verifier::spinoff_prover]
    /// `InitReply { .. }`, one field to a line.
    pub fn to_debug_string(&self) -> (r: String)
        ensures
            r@ == init_reply_debug(self@),
    {
        let mut s = String::from_str("InitReply {\n");
        push_field(&mut s, 0, "status", self.status.to_debug_string().as_str());
        let mut v = String::new();
        push_dec(&mut v, self.version_code as u64);
        push_field(&mut s, 0, "version_code", v.as_str());
        s.append("}");
        assert(s@ =~= init_reply_debug(self@));
        s
    }
}

/// An owned `InitReply` that can be set field by field.
#[derive(PartialEq, Eq, Debug)]
pub struct InitReplyBuf {
    inner: InitReply,
}

impl View for InitReplyBuf {
    type V = InitReplyModel;

    closed spec fn view(&self) -> InitReplyModel {
        self.inner@
    }
}

impl InitReplyBuf {
    pub fn new() -> (r: InitReplyBuf)
        ensures
            r@ == (InitReplyModel { status: Status::GOOD, version_code: VERSION_CODE }),
    {
        InitReplyBuf { inner: InitReply { status: Status::GOOD, version_code: VERSION_CODE } }
    }

    pub fn set_status(&mut self, status: Status)
        ensures
            final(self)@ == (InitReplyModel { status, ..old(self)@ }),
    {
        self.inner.status = status;
    }

    pub fn status(&self) -> (r: Status)
        ensures
            r == self@.status,
    {
        self.inner.status
    }

    pub fn set_version_code(&mut self, version_code: u32)
        ensures
            final(self)@ == (InitReplyModel { version_code, ..old(self)@ }),
    {
        self.inner.version_code = version_code;
    }

    pub fn version_code(&self) -> (r: u32)
        ensures
            r == self@.version_code,
    {
        self.inner.version_code
    }

    /// The message this buffer holds.
    pub fn as_ref(&self) -> (r: &InitReply)
        ensures
            r@ == self@,
    {
        &self.inner
    }
}

impl Encode for InitReplyBuf {
    open spec fn spec_wire(&self) -> Option<Seq<u8>> {
        if init_reply_fits(self@) {
            Some(init_reply_wire(self@))
        } else {
            None
        }
    }

    fn encode(&self, w: &mut Writer) -> (r: Result<(), EncodeError>) {
        self.inner.encode(w)
    }
}

impl Decode for InitReplyBuf {
    open spec fn spec_parse(d: Seq<u8>) -> Parsed<InitReplyModel> {
        parse_init_reply(d)
    }

    fn decode(r: &mut Reader) -> (res: Result<InitReplyBuf, DecodeError>) {
        let status = match r.read_word() {
            Ok(x) => Status::from_word(Word(x)),
            Err(e) => return Err(e),
        };
        let version_code = match r.read_word() {
            Ok(x) => x,
            Err(e) => return Err(e),
        };
        Ok(InitReplyBuf { inner: InitReply { status, version_code } })
    }
}

impl RoundTrip for InitReplyBuf {
    open spec fn valid(&self) -> bool {
        init_reply_valid(self@)
    }

    proof fn lemma_round_trip(&self, rest: Seq<u8>) {
        let m = self@;
        assert(init_reply_wire(m) + rest =~= (be32(m.status.code()) + (be32(m.version_code) + rest)));
        lemma_word_prefix(m.status.code(), (be32(m.version_code) + rest));
        lemma_word_prefix(m.version_code, rest);
    }
}

} // verus!
