//! `SANE_NET_OPEN`: opens a device by name.

use vstd::prelude::*;
use vstd::string::*;

use crate::cstring::{no_nul, CString};
use crate::debug::{debug_enum, pretty_field, push_field, push_quoted, quoted};
use crate::net::io::{
    be32, lemma_string_round_trip, lemma_word_prefix, parse_string, parse_word, string_wire, Decode,
    DecodeError, Encode, EncodeError, Parsed, Reader, RoundTrip, Writer,
};
use crate::net::{handle_debug, Handle, ProcedureNumber};
use crate::{Status, Word};

verus! {

/// What an open request holds.
pub struct OpenRequestModel {
    pub device_name: Seq<u8>,
}

/// `SANE_NET_OPEN` request: the name of the device to open.
#[derive(PartialEq, Eq, Debug)]
pub struct OpenRequest {
    device_name: CString,
}

impl View for OpenRequest {
    type V = OpenRequestModel;

    closed spec fn view(&self) -> OpenRequestModel {
        OpenRequestModel { device_name: self.device_name@ }
    }
}

pub open spec fn open_request_wire(m: OpenRequestModel) -> Seq<u8> {
    be32(ProcedureNumber::OPEN.code()) + string_wire(m.device_name)
}

/// Every length in it fits a word.
pub open spec fn open_request_fits(m: OpenRequestModel) -> bool {
    m.device_name.len() + 1 <= u32::MAX
}

/// What a decoder can give back: canonical codes, strings without NUL.
pub open spec fn open_request_valid(m: OpenRequestModel) -> bool {
    no_nul(m.device_name)
}

/// The fields in order; the procedure number is read, not checked.
pub open spec fn parse_open_request(d: Seq<u8>) -> Parsed<OpenRequestModel> {
    match parse_word(d) {
        Err(e) => Err(e),
        Ok((_, d1)) => match parse_string(d1) {
            Err(e) => Err(e),
            Ok((device_name, d2)) => Ok((OpenRequestModel { device_name }, d2)),
        },
    }
}

impl OpenRequest {
    pub fn device_name(&self) -> (r: &CString)
        ensures
            r@ == self@.device_name,
    {
        &self.device_name
    }
}

impl Encode for OpenRequest {
    open spec fn spec_wire(&self) -> Option<Seq<u8>> {
        if open_request_fits(self@) {
            Some(open_request_wire(self@))
        } else {
            None
        }
    }

    fn encode(&self, w: &mut Writer) -> (r: Result<(), EncodeError>) {
        w.write_word(ProcedureNumber::OPEN.as_word().0);
        match w.write_string(&self.device_name) {
            Ok(()) => {},
            Err(e) => return Err(e),
        }
        assert(w@ =~= old(w)@ + open_request_wire(self@));
        Ok(())
    }
}

/// The pretty debug form, one field to a line.
pub open spec fn open_request_debug(m: OpenRequestModel) -> Seq<char> {
    "OpenRequest {\n"@ + pretty_field(0, "device_name"@, quoted(m.device_name)) + "}"@
}

impl OpenRequest {
    #[verifier::spinoff_prover]
    /// `OpenRequest { .. }`, one field to a line.
    pub fn to_debug_string(&self) -> (r: String)
        ensures
            r@ == open_request_debug(self@),
    {
        let mut s = String::from_str("OpenRequest {\n");
        let mut v = String::new();
        push_quoted(&mut v, self.device_name.as_bytes());
        push_field(&mut s, 0, "device_name", v.as_str());
        s.append("}");
        assert(s@ =~= open_request_debug(self@));
        s
    }
}

/// An owned `OpenRequest` that can be set field by field.
#[derive(PartialEq, Eq, Debug)]
pub struct OpenRequestBuf {
    inner: OpenRequest,
}

impl View for OpenRequestBuf {
    type V = OpenRequestModel;

    closed spec fn view(&self) -> OpenRequestModel {
        self.inner@
    }
}

impl OpenRequestBuf {
    pub fn new() -> (r: OpenRequestBuf)
        ensures
            r@ == (OpenRequestModel { device_name: Seq::empty() }),
    {
        OpenRequestBuf { inner: OpenRequest { device_name: CString::empty() } }
    }

    pub fn set_device_name(&mut self, device_name: CString)
        ensures
            final(self)@ == (OpenRequestModel { device_name: device_name@, ..old(self)@ }),
    {
        self.inner.device_name = device_name;
    }

    pub fn device_name(&self) -> (r: &CString)
        ensures
            r@ == self@.device_name,
    {
        &self.inner.device_name
    }

    /// The message this buffer holds.
    pub fn as_ref(&self) -> (r: &OpenRequest)
        ensures
            r@ == self@,
    {
        &self.inner
    }
}

impl Encode for OpenRequestBuf {
    open spec fn spec_wire(&self) -> Option<Seq<u8>> {
        if open_request_fits(self@) {
            Some(open_request_wire(self@))
        } else {
            None
        }
    }

    fn encode(&self, w: &mut Writer) -> (r: Result<(), EncodeError>) {
        self.inner.encode(w)
    }
}

impl Decode for OpenRequestBuf {
    open spec fn spec_parse(d: Seq<u8>) -> Parsed<OpenRequestModel> {
        parse_open_request(d)
    }

    fn decode(r: &mut Reader) -> (res: Result<OpenRequestBuf, DecodeError>) {
        match r.read_word() {
            Ok(_) => {},
            Err(e) => return Err(e),
        }
        let device_name = match r.read_string() {
            Ok(x) => x,
            Err(e) => return Err(e),
        };
        Ok(OpenRequestBuf { inner: OpenRequest { device_name } })
    }
}

impl RoundTrip for OpenRequestBuf {
    open spec fn valid(&self) -> bool {
        open_request_valid(self@)
    }

    proof fn lemma_round_trip(&self, rest: Seq<u8>) {
        let m = self@;
        assert(open_request_wire(m) + rest =~= (be32(ProcedureNumber::OPEN.code()) + (string_wire(m.device_name) + rest)));
        lemma_word_prefix(ProcedureNumber::OPEN.code(), (string_wire(m.device_name) + rest));
        lemma_string_round_trip(m.device_name, rest);
    }
}

/// What an open reply holds.
pub struct OpenReplyModel {
    pub status: Status,
    pub handle: Handle,
    pub resource: Seq<u8>,
}

/// `SANE_NET_OPEN` reply: the status, the handle of the open device, and the resource to authorize, if any.
#[derive(PartialEq, Eq, Debug)]
pub struct OpenReply {
    status: Status,
    handle: Handle,
    resource: CString,
}

impl View for OpenReply {
    type V = OpenReplyModel;

    closed spec fn view(&self) -> OpenReplyModel {
        OpenReplyModel { status: self.status, handle: self.handle, resource: self.resource@ }
    }
}

pub open spec fn open_reply_wire(m: OpenReplyModel) -> Seq<u8> {
    be32(m.status.code()) + be32(m.handle.0) + string_wire(m.resource)
}

/// Every length in it fits a word.
pub open spec fn open_reply_fits(m: OpenReplyModel) -> bool {
    m.resource.len() + 1 <= u32::MAX
}

/// What a decoder can give back: canonical codes, strings without NUL.
pub open spec fn open_reply_valid(m: OpenReplyModel) -> bool {
    m.status.wf() && no_nul(m.resource)
}

/// The fields in order.
pub open spec fn parse_open_reply(d: Seq<u8>) -> Parsed<OpenReplyModel> {
    match parse_word(d) {
        Err(e) => Err(e),
        Ok((x_status, d1)) => match parse_word(d1) {
            Err(e) => Err(e),
            Ok((x_handle, d2)) => match parse_string(d2) {
                Err(e) => Err(e),
                Ok((resource, d3)) => Ok((
                    OpenReplyModel {
                        status: Status::from_code(x_status),
                        handle: Handle(x_handle),
                        resource,
                    },
                    d3,
                )),
            },
        },
    }
}

impl OpenReply {
    pub fn status(&self) -> (r: Status)
        ensures
            r == self@.status,
    {
        self.status
    }

    pub fn handle(&self) -> (r: Handle)
        ensures
            r == self@.handle,
    {
        self.handle
    }

    pub fn resource(&self) -> (r: &CString)
        ensures
            r@ == self@.resource,
    {
        &self.resource
    }
}

impl Encode for OpenReply {
    open spec fn spec_wire(&self) -> Option<Seq<u8>> {
        if open_reply_fits(self@) {
            Some(open_reply_wire(self@))
        } else {
            None
        }
    }

    fn encode(&self, w: &mut Writer) -> (r: Result<(), EncodeError>) {
        w.write_word(self.status.as_word().0);
        w.write_word(self.handle.0);
        match w.write_string(&self.resource) {
            Ok(()) => {},
            Err(e) => return Err(e),
        }
        assert(w@ =~= old(w)@ + open_reply_wire(self@));
        Ok(())
    }
}

/// The pretty debug form, one field to a line.
pub open spec fn open_reply_debug(m: OpenReplyModel) -> Seq<char> {
    "OpenReply {\n"@ + pretty_field(0, "status"@, debug_enum(m.status.spec_name(), "SANE_Status"@, m.status.code()))
        + pretty_field(0, "handle"@, handle_debug(m.handle))
        + pretty_field(0, "resource"@, quoted(m.resource)) + "}"@
}

impl OpenReply {
    #[verifier::spinoff_prover]
    /// `OpenReply { .. }`, one field to a line.
    pub fn to_debug_string(&self) -> (r: String)
        ensures
            r@ == open_reply_debug(self@),
    {
        let mut s = String::from_str("OpenReply {\n");
        push_field(&mut s, 0, "status", self.status.to_debug_string().as_str());
        push_field(&mut s, 0, "handle", self.handle.to_debug_string().as_str());
        let mut v = String::new();
        push_quoted(&mut v, self.resource.as_bytes());
        push_field(&mut s, 0, "resource", v.as_str());
        s.append("}");
        assert(s@ =~= open_reply_debug(self@));
        s
    }
}

/// An owned `OpenReply` that can be set field by field.
#[derive(PartialEq, Eq, Debug)]
pub struct OpenReplyBuf {
    inner: OpenReply,
}

impl View for OpenReplyBuf {
    type V = OpenReplyModel;

    closed spec fn view(&self) -> OpenReplyModel {
        self.inner@
    }
}

impl OpenReplyBuf {
    pub fn new() -> (r: OpenReplyBuf)
        ensures
            r@ == (OpenReplyModel { status: Status::GOOD, handle: Handle(0), resource: Seq::empty() }),
    {
        OpenReplyBuf { inner: OpenReply { status: Status::GOOD, handle: Handle(0), resource: CString::empty() } }
    }

    pub fn set_status(&mut self, status: Status)
        ensures
            final(self)@ == (OpenReplyModel { status, ..old(self)@ }),
    {
        self.inner.status = status;
    }

    pub fn status(&self) -> (r: Status)
        ensures
            r == self@.status,
    {
        self.inner.status
    }

    pub fn set_handle(&mut self, handle: Handle)
        ensures
            final(self)@ == (OpenReplyModel { handle, ..old(self)@ }),
    {
        self.inner.handle = handle;
    }

    pub fn handle(&self) -> (r: Handle)
        ensures
            r == self@.handle,
    {
        self.inner.handle
    }

    pub fn set_resource(&mut self, resource: CString)
        ensures
            final(self)@ == (OpenReplyModel { resource: resource@, ..old(self)@ }),
    {
        self.inner.resource = resource;
    }

    pub fn resource(&self) -> (r: &CString)
        ensures
            r@ == self@.resource,
    {
        &self.inner.resource
    }

    /// The message this buffer holds.
    pub fn as_ref(&self) -> (r: &OpenReply)
        ensures
            r@ == self@,
    {
        &self.inner
    }
}

impl Encode for OpenReplyBuf {
    open spec fn spec_wire(&self) -> Option<Seq<u8>> {
        if open_reply_fits(self@) {
            Some(open_reply_wire(self@))
        } else {
            None
        }
    }

    fn encode(&self, w: &mut Writer) -> (r: Result<(), EncodeError>) {
        self.inner.encode(w)
    }
}

impl Decode for OpenReplyBuf {
    open spec fn spec_parse(d: Seq<u8>) -> Parsed<OpenReplyModel> {
        parse_open_reply(d)
    }

    fn decode(r: &mut Reader) -> (res: Result<OpenReplyBuf, DecodeError>) {
        let status = match r.read_word() {
            Ok(x) => Status::from_word(Word(x)),
            Err(e) => return Err(e),
        };
        let handle = match r.read_word() {
            Ok(x) => Handle(x),
            Err(e) => return Err(e),
        };
        let resource = match r.read_string() {
            Ok(x) => x,
            Err(e) => return Err(e),
        };
        Ok(OpenReplyBuf { inner: OpenReply { status, handle, resource } })
    }
}

impl RoundTrip for OpenReplyBuf {
    open spec fn valid(&self) -> bool {
        open_reply_valid(self@)
    }

    proof fn lemma_round_trip(&self, rest: Seq<u8>) {
        let m = self@;
        assert(open_reply_wire(m) + rest =~= (be32(m.status.code()) + (be32(m.handle.0) + (string_wire(m.resource) + rest))));
        lemma_word_prefix(m.status.code(), (be32(m.handle.0) + (string_wire(m.resource) + rest)));
        lemma_word_prefix(m.handle.0, (string_wire(m.resource) + rest));
        lemma_string_round_trip(m.resource, rest);
    }
}

} // verus!
