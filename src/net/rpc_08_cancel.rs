//! `SANE_NET_CANCEL`: stops the scan in progress.

use vstd::prelude::*;
use vstd::string::*;

use crate::net::io::{be32, lemma_be32_value, parse_word, Decode, DecodeError, Encode, EncodeError, Parsed, Reader, RoundTrip, Writer};
use crate::net::{handle_debug, handle_request_wire, lemma_handle_request_round_trip, parse_handle_request, read_handle_request, Handle, ProcedureNumber};

verus! {

/// `SANE_NET_CANCEL` request: the handle of the device whose scan to stop.
#[derive(Clone, Copy, PartialEq, Eq, Structural, Debug)]
pub struct CancelRequest {
    handle: Handle,
}

impl View for CancelRequest {
    type V = Handle;

    closed spec fn view(&self) -> Handle {
        self.handle
    }
}

impl CancelRequest {
    pub fn handle(&self) -> (r: Handle)
        ensures
            r == self@,
    {
        self.handle
    }

    /// `CancelRequest { handle: Handle(n) }`, one field to a line.
    pub fn to_debug_string(&self) -> (r: String)
        ensures
            r@ == "CancelRequest {\n    handle: "@ + handle_debug(self@) + ",\n}"@,
    {
        let mut s = String::from_str("CancelRequest {\n    handle: ");
        let h = self.handle.to_debug_string();
        s.append(h.as_str());
        s.append(",\n}");
        s
    }
}

impl Encode for CancelRequest {
    open spec fn spec_wire(&self) -> Option<Seq<u8>> {
        Some(handle_request_wire(ProcedureNumber::CANCEL, self@))
    }

    fn encode(&self, w: &mut Writer) -> (r: Result<(), EncodeError>) {
        w.write_word(ProcedureNumber::CANCEL.as_word().0);
        w.write_word(self.handle.0);
        Ok(())
    }
}

/// An owned `CancelRequest`.
#[derive(Clone, Copy, PartialEq, Eq, Structural, Debug)]
pub struct CancelRequestBuf {
    inner: CancelRequest,
}

impl View for CancelRequestBuf {
    type V = Handle;

    closed spec fn view(&self) -> Handle {
        self.inner@
    }
}

impl CancelRequestBuf {
    /// A request for handle 0.
    pub fn new() -> (r: CancelRequestBuf)
        ensures
            r@ == Handle(0),
    {
        CancelRequestBuf { inner: CancelRequest { handle: Handle(0) } }
    }

    pub fn set_handle(&mut self, handle: Handle)
        ensures
            final(self)@ == handle,
    {
        self.inner.handle = handle;
    }

    pub fn handle(&self) -> (r: Handle)
        ensures
            r == self@,
    {
        self.inner.handle
    }

    /// The request this buffer holds.
    pub fn as_ref(&self) -> (r: &CancelRequest)
        ensures
            r@ == self@,
    {
        &self.inner
    }
}

impl Encode for CancelRequestBuf {
    open spec fn spec_wire(&self) -> Option<Seq<u8>> {
        Some(handle_request_wire(ProcedureNumber::CANCEL, self@))
    }

    fn encode(&self, w: &mut Writer) -> (r: Result<(), EncodeError>) {
        self.inner.encode(w)
    }
}

impl Decode for CancelRequestBuf {
    open spec fn spec_parse(d: Seq<u8>) -> Parsed<Handle> {
        parse_handle_request(d)
    }

    fn decode(r: &mut Reader) -> (res: Result<CancelRequestBuf, DecodeError>) {
        match read_handle_request(r) {
            Ok(handle) => Ok(CancelRequestBuf { inner: CancelRequest { handle } }),
            Err(e) => Err(e),
        }
    }
}

impl RoundTrip for CancelRequestBuf {
    open spec fn valid(&self) -> bool {
        true
    }

    proof fn lemma_round_trip(&self, rest: Seq<u8>) {
        lemma_handle_request_round_trip(ProcedureNumber::CANCEL, self@, rest);
    }
}

/// `SANE_NET_CANCEL` reply: a single word that carries nothing.
#[derive(Clone, Copy, PartialEq, Eq, Structural, Debug)]
pub struct CancelReply;

impl View for CancelReply {
    type V = CancelReply;

    open spec fn view(&self) -> CancelReply {
        *self
    }
}

impl CancelReply {
    /// `CancelReply`
    pub fn to_debug_string(&self) -> (r: String)
        ensures
            r@ == "CancelReply"@,
    {
        String::from_str("CancelReply")
    }
}

impl Encode for CancelReply {
    open spec fn spec_wire(&self) -> Option<Seq<u8>> {
        Some(be32(0))
    }

    fn encode(&self, w: &mut Writer) -> (r: Result<(), EncodeError>) {
        w.write_word(0);
        Ok(())
    }
}

/// An owned `CancelReply`.
#[derive(Clone, Copy, PartialEq, Eq, Structural, Debug)]
pub struct CancelReplyBuf {
    inner: CancelReply,
}

impl View for CancelReplyBuf {
    type V = CancelReply;

    open spec fn view(&self) -> CancelReply {
        CancelReply
    }
}

impl CancelReplyBuf {
    pub fn new() -> (r: CancelReplyBuf) {
        CancelReplyBuf { inner: CancelReply }
    }

    /// The reply this buffer holds.
    pub fn as_ref(&self) -> (r: &CancelReply) {
        &self.inner
    }
}

impl Encode for CancelReplyBuf {
    open spec fn spec_wire(&self) -> Option<Seq<u8>> {
        Some(be32(0))
    }

    fn encode(&self, w: &mut Writer) -> (r: Result<(), EncodeError>) {
        self.inner.encode(w)
    }
}

impl Decode for CancelReplyBuf {
    /// The word is read and its value ignored.
    open spec fn spec_parse(d: Seq<u8>) -> Parsed<CancelReply> {
        match parse_word(d) {
            Err(e) => Err(e),
            Ok((_, rest)) => Ok((CancelReply, rest)),
        }
    }

    fn decode(r: &mut Reader) -> (res: Result<CancelReplyBuf, DecodeError>) {
        match r.read_word() {
            Ok(_) => Ok(CancelReplyBuf::new()),
            Err(e) => Err(e),
        }
    }
}

impl RoundTrip for CancelReplyBuf {
    open spec fn valid(&self) -> bool {
        true
    }

    proof fn lemma_round_trip(&self, rest: Seq<u8>) {
        lemma_be32_value(0);
        assert((be32(0) + rest).skip(4) =~= rest);
    }
}

} // verus!
