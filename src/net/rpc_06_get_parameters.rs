//! `SANE_NET_GET_PARAMETERS`: asks for the parameters of the next frame.

use vstd::prelude::*;
use vstd::string::*;

use crate::debug::{debug_enum, pretty_field, push_field};
use crate::net::io::{
    be32, lemma_parameters_round_trip, lemma_word_prefix, parameters_valid, parameters_wire,
    parse_parameters, parse_word, Decode, DecodeError, Encode, EncodeError, Parsed, Reader, RoundTrip,
    Writer,
};
use crate::net::{
    handle_debug, handle_request_wire, lemma_handle_request_round_trip, parse_handle_request,
    read_handle_request, Handle, ProcedureNumber,
};
use crate::{Parameters, Status, Word};

verus! {

/// `SANE_NET_GET_PARAMETERS` request: the handle of the device.
#[derive(Clone, Copy, PartialEq, Eq, Structural, Debug)]
pub struct GetParametersRequest {
    handle: Handle,
}

impl View for GetParametersRequest {
    type V = Handle;

    closed spec fn view(&self) -> Handle {
        self.handle
    }
}

impl GetParametersRequest {
    pub fn handle(&self) -> (r: Handle)
        ensures
            r == self@,
    {
        self.handle
    }

    /// `GetParametersRequest { handle: Handle(n) }`, one field to a line.
    pub fn to_debug_string(&self) -> (r: String)
        ensures
            r@ == "GetParametersRequest {\n    handle: "@ + handle_debug(self@) + ",\n}"@,
    {
        let mut s = String::from_str("GetParametersRequest {\n    handle: ");
        let h = self.handle.to_debug_string();
        s.append(h.as_str());
        s.append(",\n}");
        s
    }
}

impl Encode for GetParametersRequest {
    open spec fn spec_wire(&self) -> Option<Seq<u8>> {
        Some(handle_request_wire(ProcedureNumber::GET_PARAMETERS, self@))
    }

    fn encode(&self, w: &mut Writer) -> (r: Result<(), EncodeError>) {
        w.write_word(ProcedureNumber::GET_PARAMETERS.as_word().0);
        w.write_word(self.handle.0);
        Ok(())
    }
}

/// An owned `GetParametersRequest`.
#[derive(Clone, Copy, PartialEq, Eq, Structural, Debug)]
pub struct GetParametersRequestBuf {
    inner: GetParametersRequest,
}

impl View for GetParametersRequestBuf {
    type V = Handle;

    closed spec fn view(&self) -> Handle {
        self.inner@
    }
}

impl GetParametersRequestBuf {
    /// A request for handle 0.
    pub fn new() -> (r: GetParametersRequestBuf)
        ensures
            r@ == Handle(0),
    {
        GetParametersRequestBuf { inner: GetParametersRequest { handle: Handle(0) } }
    }

    pub fn set_handle(&mut self, handle: Handle)
        ensures
            final(self)@ == handle,
    {
        self.inner.handle = handle;
    }

    pub fn handle(&self) -> (r: Handle)
        ensures
            r == self@,
    {
        self.inner.handle
    }

    /// The request this buffer holds.
    pub fn as_ref(&self) -> (r: &GetParametersRequest)
        ensures
            r@ == self@,
    {
        &self.inner
    }
}

impl Encode for GetParametersRequestBuf {
    open spec fn spec_wire(&self) -> Option<Seq<u8>> {
        Some(handle_request_wire(ProcedureNumber::GET_PARAMETERS, self@))
    }

    fn encode(&self, w: &mut Writer) -> (r: Result<(), EncodeError>) {
        self.inner.encode(w)
    }
}

impl Decode for GetParametersRequestBuf {
    open spec fn spec_parse(d: Seq<u8>) -> Parsed<Handle> {
        parse_handle_request(d)
    }

    fn decode(r: &mut Reader) -> (res: Result<GetParametersRequestBuf, DecodeError>) {
        match read_handle_request(r) {
            Ok(handle) => Ok(GetParametersRequestBuf { inner: GetParametersRequest { handle } }),
            Err(e) => Err(e),
        }
    }
}

impl RoundTrip for GetParametersRequestBuf {
    open spec fn valid(&self) -> bool {
        true
    }

    proof fn lemma_round_trip(&self, rest: Seq<u8>) {
        lemma_handle_request_round_trip(ProcedureNumber::GET_PARAMETERS, self@, rest);
    }
}

/// What a get-parameters reply holds.
pub struct GetParametersReplyModel {
    pub status: Status,
    pub parameters: Parameters,
}

/// `SANE_NET_GET_PARAMETERS` reply: the status and the frame parameters.
#[derive(PartialEq, Eq, Debug)]
pub struct GetParametersReply {
    status: Status,
    parameters: Parameters,
}

impl View for GetParametersReply {
    type V = GetParametersReplyModel;

    closed spec fn view(&self) -> GetParametersReplyModel {
        GetParametersReplyModel { status: self.status, parameters: self.parameters }
    }
}

pub open spec fn get_parameters_reply_wire(m: GetParametersReplyModel) -> Seq<u8> {
    be32(m.status.code()) + parameters_wire(m.parameters)
}

/// Every length in it fits a word.
pub open spec fn get_parameters_reply_fits(m: GetParametersReplyModel) -> bool {
    true
}

/// What a decoder can give back: canonical codes, strings without NUL.
pub open spec fn get_parameters_reply_valid(m: GetParametersReplyModel) -> bool {
    m.status.wf() && parameters_valid(m.parameters)
}

/// The fields in order.
pub open spec fn parse_get_parameters_reply(d: Seq<u8>) -> Parsed<GetParametersReplyModel> {
    match parse_word(d) {
        Err(e) => Err(e),
        Ok((x_status, d1)) => match parse_parameters(d1) {
            Err(e) => Err(e),
            Ok((parameters, d2)) => Ok((
                GetParametersReplyModel {
                    status: Status::from_code(x_status),
                    parameters,
                },
                d2,
            )),
        },
    }
}

impl GetParametersReply {
    pub fn status(&self) -> (r: Status)
        ensures
            r == self@.status,
    {
        self.status
    }

    pub fn parameters(&self) -> (r: Parameters)
        ensures
            r == self@.parameters,
    {
        self.parameters
    }
}

impl Encode for GetParametersReply {
    open spec fn spec_wire(&self) -> Option<Seq<u8>> {
        if get_parameters_reply_fits(self@) {
            Some(get_parameters_reply_wire(self@))
        } else {
            None
        }
    }

    fn encode(&self, w: &mut Writer) -> (r: Result<(), EncodeError>) {
        w.write_word(self.status.as_word().0);
        let _ = self.parameters.encode(w);
        assert(w@ =~= old(w)@ + get_parameters_reply_wire(self@));
        Ok(())
    }
}

/// The pretty debug form, one field to a line.
pub open spec fn get_parameters_reply_debug(m: GetParametersReplyModel) -> Seq<char> {
    "GetParametersReply {\n"@ + pretty_field(0, "status"@, debug_enum(m.status.spec_name(), "SANE_Status"@, m.status.code()))
        + pretty_field(0, "parameters"@, m.parameters.spec_pretty(4)) + "}"@
}

impl GetParametersReply {
    #[verifier::spinoff_prover]
    /// `GetParametersReply { .. }`, one field to a line.
    pub fn to_debug_string(&self) -> (r: String)
        ensures
            r@ == get_parameters_reply_debug(self@),
    {
        let mut s = String::from_str("GetParametersReply {\n");
        push_field(&mut s, 0, "status", self.status.to_debug_string().as_str());
        let mut v = String::new();
        self.parameters.push_pretty(&mut v, 4);
        push_field(&mut s, 0, "parameters", v.as_str());
        s.append("}");
        assert(s@ =~= get_parameters_reply_debug(self@));
        s
    }
}

/// An owned `GetParametersReply` that can be set field by field.
#[derive(PartialEq, Eq, Debug)]
pub struct GetParametersReplyBuf {
    inner: GetParametersReply,
}

impl View for GetParametersReplyBuf {
    type V = GetParametersReplyModel;

    closed spec fn view(&self) -> GetParametersReplyModel {
        self.inner@
    }
}

impl GetParametersReplyBuf {
    pub fn new() -> (r: GetParametersReplyBuf)
        ensures
            r@ == (GetParametersReplyModel { status: Status::GOOD, parameters: Parameters { format: crate::Frame::GRAY, last_frame: crate::Bool::FALSE, bytes_per_line: crate::Int(0), pixels_per_line: crate::Int(0), lines: crate::Int(0), depth: crate::Int(0) } }),
    {
        GetParametersReplyBuf { inner: GetParametersReply { status: Status::GOOD, parameters: Parameters::new() } }
    }

    pub fn set_status(&mut self, status: Status)
        ensures
            final(self)@ == (GetParametersReplyModel { status, ..old(self)@ }),
    {
        self.inner.status = status;
    }

    pub fn status(&self) -> (r: Status)
        ensures
            r == self@.status,
    {
        self.inner.status
    }

    pub fn set_parameters(&mut self, parameters: Parameters)
        ensures
            final(self)@ == (GetParametersReplyModel { parameters, ..old(self)@ }),
    {
        self.inner.parameters = parameters;
    }

    pub fn parameters(&self) -> (r: Parameters)
        ensures
            r == self@.parameters,
    {
        self.inner.parameters
    }

    /// The message this buffer holds.
    pub fn as_ref(&self) -> (r: &GetParametersReply)
        ensures
            r@ == self@,
    {
        &self.inner
    }
}

impl Encode for GetParametersReplyBuf {
    open spec fn spec_wire(&self) -> Option<Seq<u8>> {
        if get_parameters_reply_fits(self@) {
            Some(get_parameters_reply_wire(self@))
        } else {
            None
        }
    }

    fn encode(&self, w: &mut Writer) -> (r: Result<(), EncodeError>) {
        self.inner.encode(w)
    }
}

impl Decode for GetParametersReplyBuf {
    open spec fn spec_parse(d: Seq<u8>) -> Parsed<GetParametersReplyModel> {
        parse_get_parameters_reply(d)
    }

    fn decode(r: &mut Reader) -> (res: Result<GetParametersReplyBuf, DecodeError>) {
        let status = match r.read_word() {
            Ok(x) => Status::from_word(Word(x)),
            Err(e) => return Err(e),
        };
        let parameters = match Parameters::decode(r) {
            Ok(x) => x,
            Err(e) => return Err(e),
        };
        Ok(GetParametersReplyBuf { inner: GetParametersReply { status, parameters } })
    }
}

impl RoundTrip for GetParametersReplyBuf {
    open spec fn valid(&self) -> bool {
        get_parameters_reply_valid(self@)
    }

    proof fn lemma_round_trip(&self, rest: Seq<u8>) {
        let m = self@;
        assert(get_parameters_reply_wire(m) + rest =~= (be32(m.status.code()) + (parameters_wire(m.parameters) + rest)));
        lemma_word_prefix(m.status.code(), (parameters_wire(m.parameters) + rest));
        lemma_parameters_round_trip(m.parameters, rest);
    }
}

} // verus!
