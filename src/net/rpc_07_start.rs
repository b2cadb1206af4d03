//! `SANE_NET_START`: starts a scan; the image comes on another port.

use vstd::prelude::*;
use vstd::string::*;

use crate::cstring::{no_nul, CString};
use crate::debug::{debug_enum, dec_digits, pretty_field, push_dec, push_field, push_quoted, quoted};
use crate::net::io::{
    be32, lemma_string_round_trip, lemma_word_prefix, parse_string, parse_word, string_wire, Decode,
    DecodeError, Encode, EncodeError, Parsed, Reader, RoundTrip, Writer,
};
use crate::net::{
    handle_debug, handle_request_wire, lemma_handle_request_round_trip, parse_handle_request,
    read_handle_request, ByteOrder, Handle, ProcedureNumber,
};
use crate::{Status, Word};

verus! {

/// `SANE_NET_START` request: the handle of the device.
#[derive(Clone, Copy, PartialEq, Eq, Structural, Debug)]
pub struct StartRequest {
    handle: Handle,
}

impl View for StartRequest {
    type V = Handle;

    closed spec fn view(&self) -> Handle {
        self.handle
    }
}

impl StartRequest {
    pub fn handle(&self) -> (r: Handle)
        ensures
            r == self@,
    {
        self.handle
    }

    /// `StartRequest { handle: Handle(n) }`, one field to a line.
    pub fn to_debug_string(&self) -> (r: String)
        ensures
            r@ == "StartRequest {\n    handle: "@ + handle_debug(self@) + ",\n}"@,
    {
        let mut s = String::from_str("StartRequest {\n    handle: ");
        let h = self.handle.to_debug_string();
        s.append(h.as_str());
        s.append(",\n}");
        s
    }
}

impl Encode for StartRequest {
    open spec fn spec_wire(&self) -> Option<Seq<u8>> {
        Some(handle_request_wire(ProcedureNumber::START, self@))
    }

    fn encode(&self, w: &mut Writer) -> (r: Result<(), EncodeError>) {
        w.write_word(ProcedureNumber::START.as_word().0);
        w.write_word(self.handle.0);
        Ok(())
    }
}

/// An owned `StartRequest`.
#[derive(Clone, Copy, PartialEq, Eq, Structural, Debug)]
pub struct StartRequestBuf {
    inner: StartRequest,
}

impl View for StartRequestBuf {
    type V = Handle;

    closed spec fn view(&self) -> Handle {
        self.inner@
    }
}

impl StartRequestBuf {
    /// A request for handle 0.
    pub fn new() -> (r: StartRequestBuf)
        ensures
            r@ == Handle(0),
    {
        StartRequestBuf { inner: StartRequest { handle: Handle(0) } }
    }

    pub fn set_handle(&mut self, handle: Handle)
        ensures
            final(self)@ == handle,
    {
        self.inner.handle = handle;
    }

    pub fn handle(&self) -> (r: Handle)
        ensures
            r == self@,
    {
        self.inner.handle
    }

    /// The request this buffer holds.
    pub fn as_ref(&self) -> (r: &StartRequest)
        ensures
            r@ == self@,
    {
        &self.inner
    }
}

impl Encode for StartRequestBuf {
    open spec fn spec_wire(&self) -> Option<Seq<u8>> {
        Some(handle_request_wire(ProcedureNumber::START, self@))
    }

    fn encode(&self, w: &mut Writer) -> (r: Result<(), EncodeError>) {
        self.inner.encode(w)
    }
}

impl Decode for StartRequestBuf {
    open spec fn spec_parse(d: Seq<u8>) -> Parsed<Handle> {
        parse_handle_request(d)
    }

    fn decode(r: &mut Reader) -> (res: Result<StartRequestBuf, DecodeError>) {
        match read_handle_request(r) {
            Ok(handle) => Ok(StartRequestBuf { inner: StartRequest { handle } }),
            Err(e) => Err(e),
        }
    }
}

impl RoundTrip for StartRequestBuf {
    open spec fn valid(&self) -> bool {
        true
    }

    proof fn lemma_round_trip(&self, rest: Seq<u8>) {
        lemma_handle_request_round_trip(ProcedureNumber::START, self@, rest);
    }
}

/// What a start reply holds.
pub struct StartReplyModel {
    pub status: Status,
    pub port: u16,
    pub byte_order: ByteOrder,
    pub resource: Seq<u8>,
}

/// `SANE_NET_START` reply: the status, the data port, the byte order of the image data, and the resource to authorize, if any. The port travels as a word; a decoder keeps its low 16 bits.
#[derive(PartialEq, Eq, Debug)]
pub struct StartReply {
    status: Status,
    port: u16,
    byte_order: ByteOrder,
    resource: CString,
}

impl View for StartReply {
    type V = StartReplyModel;

    closed spec fn view(&self) -> StartReplyModel {
        StartReplyModel { status: self.status, port: self.port, byte_order: self.byte_order, resource: self.resource@ }
    }
}

pub open spec fn start_reply_wire(m: StartReplyModel) -> Seq<u8> {
    be32(m.status.code()) + be32(m.port as u32) + be32(m.byte_order.code()) + string_wire(m.resource)
}

/// Every length in it fits a word.
pub open spec fn start_reply_fits(m: StartReplyModel) -> bool {
    m.resource.len() + 1 <= u32::MAX
}

/// What a decoder can give back: canonical codes, strings without NUL.
pub open spec fn start_reply_valid(m: StartReplyModel) -> bool {
    m.status.wf() && m.byte_order.wf() && no_nul(m.resource)
}

/// The fields in order.
pub open spec fn parse_start_reply(d: Seq<u8>) -> Parsed<StartReplyModel> {
    match parse_word(d) {
        Err(e) => Err(e),
        Ok((x_status, d1)) => match parse_word(d1) {
            Err(e) => Err(e),
            Ok((x_port, d2)) => match parse_word(d2) {
                Err(e) => Err(e),
                Ok((x_byte_order, d3)) => match parse_string(d3) {
                    Err(e) => Err(e),
                    Ok((resource, d4)) => Ok((
                        StartReplyModel {
                            status: Status::from_code(x_status),
                            port: (x_port % 0x10000) as u16,
                            byte_order: ByteOrder::from_code(x_byte_order),
                            resource,
                        },
                        d4,
                    )),
                },
            },
        },
    }
}

impl StartReply {
    pub fn status(&self) -> (r: Status)
        ensures
            r == self@.status,
    {
        self.status
    }

    pub fn port(&self) -> (r: u16)
        ensures
            r == self@.port,
    {
        self.port
    }

    pub fn byte_order(&self) -> (r: ByteOrder)
        ensures
            r == self@.byte_order,
    {
        self.byte_order
    }

    pub fn resource(&self) -> (r: &CString)
        ensures
            r@ == self@.resource,
    {
        &self.resource
    }
}

impl Encode for StartReply {
    open spec fn spec_wire(&self) -> Option<Seq<u8>> {
        if start_reply_fits(self@) {
            Some(start_reply_wire(self@))
        } else {
            None
        }
    }

    fn encode(&self, w: &mut Writer) -> (r: Result<(), EncodeError>) {
        w.write_word(self.status.as_word().0);
        w.write_word(self.port as u32);
        w.write_word(self.byte_order.as_word().0);
        match w.write_string(&self.resource) {
            Ok(()) => {},
            Err(e) => return Err(e),
        }
        assert(w@ =~= old(w)@ + start_reply_wire(self@));
        Ok(())
    }
}

/// The pretty debug form, one field to a line.
pub open spec fn start_reply_debug(m: StartReplyModel) -> Seq<char> {
    "StartReply {\n"@ + pretty_field(0, "status"@, debug_enum(m.status.spec_name(), "SANE_Status"@, m.status.code()))
        + pretty_field(0, "port"@, dec_digits(m.port as nat))
        + pretty_field(0, "byte_order"@, debug_enum(m.byte_order.spec_name(), "SANE_Net_Byte_Order"@, m.byte_order.code()))
        + pretty_field(0, "resource"@, quoted(m.resource)) + "}"@
}

impl StartReply {
    #[verifier::spinoff_prover]
    /// `StartReply { .. }`, one field to a line.
    pub fn to_debug_string(&self) -> (r: String)
        ensures
            r@ == start_reply_debug(self@),
    {
        let mut s = String::from_str("StartReply {\n");
        push_field(&mut s, 0, "status", self.status.to_debug_string().as_str());
        let mut v = String::new();
        push_dec(&mut v, self.port as u64);
        push_field(&mut s, 0, "port", v.as_str());
        push_field(&mut s, 0, "byte_order", self.byte_order.to_debug_string().as_str());
        let mut v = String::new();
        push_quoted(&mut v, self.resource.as_bytes());
        push_field(&mut s, 0, "resource", v.as_str());
        s.append("}");
        assert(s@ =~= start_reply_debug(self@));
        s
    }
}

/// An owned `StartReply` that can be set field by field.
#[derive(PartialEq, Eq, Debug)]
pub struct StartReplyBuf {
    inner: StartReply,
}

impl View for StartReplyBuf {
    type V = StartReplyModel;

    closed spec fn view(&self) -> StartReplyModel {
        self.inner@
    }
}

impl StartReplyBuf {
    pub fn new() -> (r: StartReplyBuf)
        ensures
            r@ == (StartReplyModel { status: Status::GOOD, port: 0, byte_order: ByteOrder::LITTLE_ENDIAN, resource: Seq::empty() }),
    {
        StartReplyBuf { inner: StartReply { status: Status::GOOD, port: 0, byte_order: ByteOrder::LITTLE_ENDIAN, resource: CString::empty() } }
    }

    pub fn set_status(&mut self, status: Status)
        ensures
            final(self)@ == (StartReplyModel { status, ..old(self)@ }),
    {
        self.inner.status = status;
    }

    pub fn status(&self) -> (r: Status)
        ensures
            r == self@.status,
    {
        self.inner.status
    }

    pub fn set_port(&mut self, port: u16)
        ensures
            final(self)@ == (StartReplyModel { port, ..old(self)@ }),
    {
        self.inner.port = port;
    }

    pub fn port(&self) -> (r: u16)
        ensures
            r == self@.port,
    {
        self.inner.port
    }

    pub fn set_byte_order(&mut self, byte_order: ByteOrder)
        ensures
            final(self)@ == (StartReplyModel { byte_order, ..old(self)@ }),
    {
        self.inner.byte_order = byte_order;
    }

    pub fn byte_order(&self) -> (r: ByteOrder)
        ensures
            r == self@.byte_order,
    {
        self.inner.byte_order
    }

    pub fn set_resource(&mut self, resource: CString)
        ensures
            final(self)@ == (StartReplyModel { resource: resource@, ..old(self)@ }),
    {
        self.inner.resource = resource;
    }

    pub fn resource(&self) -> (r: &CString)
        ensures
            r@ == self@.resource,
    {
        &self.inner.resource
    }

    /// The message this buffer holds.
    pub fn as_ref(&self) -> (r: &StartReply)
        ensures
            r@ == self@,
    {
        &self.inner
    }
}

impl Encode for StartReplyBuf {
    open spec fn spec_wire(&self) -> Option<Seq<u8>> {
        if start_reply_fits(self@) {
            Some(start_reply_wire(self@))
        } else {
            None
        }
    }

    fn encode(&self, w: &mut Writer) -> (r: Result<(), EncodeError>) {
        self.inner.encode(w)
    }
}

impl Decode for StartReplyBuf {
    open spec fn spec_parse(d: Seq<u8>) -> Parsed<StartReplyModel> {
        parse_start_reply(d)
    }

    fn decode(r: &mut Reader) -> (res: Result<StartReplyBuf, DecodeError>) {
        let status = match r.read_word() {
            Ok(x) => Status::from_word(Word(x)),
            Err(e) => return Err(e),
        };
        let port = match r.read_word() {
            Ok(x) => (x % 0x10000) as u16,
            Err(e) => return Err(e),
        };
        let byte_order = match r.read_word() {
            Ok(x) => ByteOrder::from_word(Word(x)),
            Err(e) => return Err(e),
        };
        let resource = match r.read_string() {
            Ok(x) => x,
            Err(e) => return Err(e),
        };
        Ok(StartReplyBuf { inner: StartReply { status, port, byte_order, resource } })
    }
}

impl RoundTrip for StartReplyBuf {
    open spec fn valid(&self) -> bool {
        start_reply_valid(self@)
    }

    proof fn lemma_round_trip(&self, rest: Seq<u8>) {
        let m = self@;
        assert(start_reply_wire(m) + rest =~= (be32(m.status.code()) + (be32(m.port as u32) + (be32(m.byte_order.code()) + (string_wire(m.resource) + rest)))));
        lemma_word_prefix(m.status.code(), (be32(m.port as u32) + (be32(m.byte_order.code()) + (string_wire(m.resource) + rest))));
        lemma_word_prefix(m.port as u32, (be32(m.byte_order.code()) + (string_wire(m.resource) + rest)));
        lemma_word_prefix(m.byte_order.code(), (string_wire(m.resource) + rest));
        lemma_string_round_trip(m.resource, rest);
        assert((m.port as u32 % 0x10000) as u16 == m.port);
    }
}

} // verus!
