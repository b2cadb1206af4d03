//! `SANE_NET_CLOSE`: releases an open device.

use vstd::prelude::*;
use vstd::string::*;

use crate::net::io::{be32, lemma_be32_value, parse_word, Decode, DecodeError, Encode, EncodeError, Parsed, Reader, RoundTrip, Writer};
use crate::net::{handle_debug, handle_request_wire, lemma_handle_request_round_trip, parse_handle_request, read_handle_request, Handle, ProcedureNumber};

verus! {

/// `SANE_NET_CLOSE` request: the handle of the device to close.
#[derive(Clone, Copy, PartialEq, Eq, Structural, Debug)]
pub struct CloseRequest {
    handle: Handle,
}

impl View for CloseRequest {
    type V = Handle;

    closed spec fn view(&self) -> Handle {
        self.handle
    }
}

impl CloseRequest {
    pub fn handle(&self) -> (r: Handle)
        ensures
            r == self@,
    {
        self.handle
    }

    /// `CloseRequest { handle: Handle(n) }`, one field to a line.
    pub fn to_debug_string(&self) -> (r: String)
        ensures
            r@ == "CloseRequest {\n    handle: "@ + handle_debug(self@) + ",\n}"@,
    {
        let mut s = String::from_str("CloseRequest {\n    handle: ");
        let h = self.handle.to_debug_string();
        s.append(h.as_str());
        s.append(",\n}");
        s
    }
}

impl Encode for CloseRequest {
    open spec fn spec_wire(&self) -> Option<Seq<u8>> {
        Some(handle_request_wire(ProcedureNumber::CLOSE, self@))
    }

    fn encode(&self, w: &mut Writer) -> (r: Result<(), EncodeError>) {
        w.write_word(ProcedureNumber::CLOSE.as_word().0);
        w.write_word(self.handle.0);
        Ok(())
    }
}

/// An owned `CloseRequest`.
#[derive(Clone, Copy, PartialEq, Eq, Structural, Debug)]
pub struct CloseRequestBuf {
    inner: CloseRequest,
}

impl View for CloseRequestBuf {
    type V = Handle;

    closed spec fn view(&self) -> Handle {
        self.inner@
    }
}

impl CloseRequestBuf {
    /// A request for handle 0.
    pub fn new() -> (r: CloseRequestBuf)
        ensures
            r@ == Handle(0),
    {
        CloseRequestBuf { inner: CloseRequest { handle: Handle(0) } }
    }

    pub fn set_handle(&mut self, handle: Handle)
        ensures
            final(self)@ == handle,
    {
        self.inner.handle = handle;
    }

    pub fn handle(&self) -> (r: Handle)
        ensures
            r == self@,
    {
        self.inner.handle
    }

    /// The request this buffer holds.
    pub fn as_ref(&self) -> (r: &CloseRequest)
        ensures
            r@ == self@,
    {
        &self.inner
    }
}

impl Encode for CloseRequestBuf {
    open spec fn spec_wire(&self) -> Option<Seq<u8>> {
        Some(handle_request_wire(ProcedureNumber::CLOSE, self@))
    }

    fn encode(&self, w: &mut Writer) -> (r: Result<(), EncodeError>) {
        self.inner.encode(w)
    }
}

impl Decode for CloseRequestBuf {
    open spec fn spec_parse(d: Seq<u8>) -> Parsed<Handle> {
        parse_handle_request(d)
    }

    fn decode(r: &mut Reader) -> (res: Result<CloseRequestBuf, DecodeError>) {
        match read_handle_request(r) {
            Ok(handle) => Ok(CloseRequestBuf { inner: CloseRequest { handle } }),
            Err(e) => Err(e),
        }
    }
}

impl RoundTrip for CloseRequestBuf {
    open spec fn valid(&self) -> bool {
        true
    }

    proof fn lemma_round_trip(&self, rest: Seq<u8>) {
        lemma_handle_request_round_trip(ProcedureNumber::CLOSE, self@, rest);
    }
}

/// `SANE_NET_CLOSE` reply: a single word that carries nothing.
#[derive(Clone, Copy, PartialEq, Eq, Structural, Debug)]
pub struct CloseReply;

impl View for CloseReply {
    type V = CloseReply;

    open spec fn view(&self) -> CloseReply {
        *self
    }
}

impl CloseReply {
    /// `CloseReply`
    pub fn to_debug_string(&self) -> (r: String)
        ensures
            r@ == "CloseReply"@,
    {
        String::from_str("CloseReply")
    }
}

impl Encode for CloseReply {
    open spec fn spec_wire(&self) -> Option<Seq<u8>> {
        Some(be32(0))
    }

    fn encode(&self, w: &mut Writer) -> (r: Result<(), EncodeError>) {
        w.write_word(0);
        Ok(())
    }
}

/// An owned `CloseReply`.
#[derive(Clone, Copy, PartialEq, Eq, Structural, Debug)]
pub struct CloseReplyBuf {
    inner: CloseReply,
}

impl View for CloseReplyBuf {
    type V = CloseReply;

    open spec fn view(&self) -> CloseReply {
        CloseReply
    }
}

impl CloseReplyBuf {
    pub fn new() -> (r: CloseReplyBuf) {
        CloseReplyBuf { inner: CloseReply }
    }

    /// The reply this buffer holds.
    pub fn as_ref(&self) -> (r: &CloseReply) {
        &self.inner
    }
}

impl Encode for CloseReplyBuf {
    open spec fn spec_wire(&self) -> Option<Seq<u8>> {
        Some(be32(0))
    }

    fn encode(&self, w: &mut Writer) -> (r: Result<(), EncodeError>) {
        self.inner.encode(w)
    }
}

impl Decode for CloseReplyBuf {
    /// The word is read and its value ignored.
    open spec fn spec_parse(d: Seq<u8>) -> Parsed<CloseReply> {
        match parse_word(d) {
            Err(e) => Err(e),
            Ok((_, rest)) => Ok((CloseReply, rest)),
        }
    }

    fn decode(r: &mut Reader) -> (res: Result<CloseReplyBuf, DecodeError>) {
        match r.read_word() {
            Ok(_) => Ok(CloseReplyBuf::new()),
            Err(e) => Err(e),
        }
    }
}

impl RoundTrip for CloseReplyBuf {
    open spec fn valid(&self) -> bool {
        true
    }

    proof fn lemma_round_trip(&self, rest: Seq<u8>) {
        lemma_be32_value(0);
        assert((be32(0) + rest).skip(4) =~= rest);
    }
}

} // verus!
