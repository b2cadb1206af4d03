//! The SANE network protocol: its own enumerations, the connection handle,
//! and the ten remote procedures, each with a request and a reply.

use vstd::prelude::*;
use vstd::string::*;

pub mod io;
pub mod rpc_00_init;
pub mod rpc_01_get_devices;
pub mod rpc_02_open;
pub mod rpc_03_close;
pub mod rpc_04_get_option_descriptors;
pub mod rpc_05_control_option;
pub mod rpc_06_get_parameters;
pub mod rpc_07_start;
pub mod rpc_08_cancel;
pub mod rpc_09_authorize;

pub use rpc_00_init::{InitReply, InitReplyBuf, InitReplyModel, InitRequest, InitRequestBuf, InitRequestModel};
pub use rpc_01_get_devices::{GetDevicesReply, GetDevicesReplyBuf, GetDevicesReplyModel, GetDevicesRequest, GetDevicesRequestBuf};
pub use rpc_02_open::{OpenReply, OpenReplyBuf, OpenReplyModel, OpenRequest, OpenRequestBuf, OpenRequestModel};
pub use rpc_06_get_parameters::{GetParametersReply, GetParametersReplyBuf, GetParametersReplyModel, GetParametersRequest, GetParametersRequestBuf};
pub use rpc_07_start::{StartReply, StartReplyBuf, StartReplyModel, StartRequest, StartRequestBuf};
pub use rpc_09_authorize::{AuthorizeReply, AuthorizeReplyBuf, AuthorizeRequest, AuthorizeRequestBuf, AuthorizeRequestModel};
pub use rpc_03_close::{CloseReply, CloseReplyBuf, CloseRequest, CloseRequestBuf};
pub use rpc_08_cancel::{CancelReply, CancelReplyBuf, CancelRequest, CancelRequestBuf};
pub use rpc_04_get_option_descriptors::{GetOptionDescriptorsReply, GetOptionDescriptorsReplyBuf, GetOptionDescriptorsRequest, GetOptionDescriptorsRequestBuf};
pub use rpc_05_control_option::{
    ControlOptionReply, ControlOptionReplyBuf, ControlOptionReplyModel, ControlOptionRequest, ControlOptionRequestBuf,
    ControlOptionRequestModel, OptionValue, OptionValueBuf, OptionValueError, OptionValueModel,
};

use crate::debug::{debug_enum, debug_unknown, dec_digits, push_dec};
use crate::net::io::{be32, lemma_word_prefix, parse_word, reads, DecodeError, Parsed, Reader};
use crate::Word;

verus! {

/// The protocol version this codec speaks.
pub const VERSION_CODE: u32 = 0x01010003;

/// `SANE_Net_Byte_Order`
#[allow(non_camel_case_types)]
#[derive(Clone, Copy, PartialEq, Eq, Structural, Debug)]
pub enum ByteOrder {
    /// `SANE_NET_LITTLE_ENDIAN`
    LITTLE_ENDIAN,
    /// `SANE_NET_BIG_ENDIAN`
    BIG_ENDIAN,
    /// A code outside the named set, kept as it came.
    Unknown(u32),
}

impl ByteOrder {
    /// The code that stands for this value on the wire.
    pub open spec fn code(self) -> u32 {
        match self {
            ByteOrder::LITTLE_ENDIAN => 0x1234,
            ByteOrder::BIG_ENDIAN => 0x4321,
            ByteOrder::Unknown(c) => c,
        }
    }

    /// The value that a code stands for.
    pub open spec fn from_code(c: u32) -> ByteOrder {
        match c {
            0x1234 => ByteOrder::LITTLE_ENDIAN,
            0x4321 => ByteOrder::BIG_ENDIAN,
            _ => ByteOrder::Unknown(c),
        }
    }

    /// Canonical form: an `Unknown` value never holds a named code.
    pub open spec fn wf(self) -> bool {
        ByteOrder::from_code(self.code()) == self
    }

    /// The name that the debug form uses for a named value.
    pub open spec fn spec_name(self) -> Option<Seq<char>> {
        match self {
            ByteOrder::LITTLE_ENDIAN => Some("SANE_NET_LITTLE_ENDIAN"@),
            ByteOrder::BIG_ENDIAN => Some("SANE_NET_BIG_ENDIAN"@),
            ByteOrder::Unknown(_) => None,
        }
    }

    pub fn from_word(word: Word) -> (r: ByteOrder)
        ensures
            r == ByteOrder::from_code(word.0),
            r.code() == word.0,
            r.wf(),
    {
        match word.0 {
            0x1234 => ByteOrder::LITTLE_ENDIAN,
            0x4321 => ByteOrder::BIG_ENDIAN,
            c => ByteOrder::Unknown(c),
        }
    }

    pub fn as_word(self) -> (r: Word)
        ensures
            r.0 == self.code(),
    {
        match self {
            ByteOrder::LITTLE_ENDIAN => Word(0x1234),
            ByteOrder::BIG_ENDIAN => Word(0x4321),
            ByteOrder::Unknown(c) => Word(c),
        }
    }

    /// The debug form: the C name of a named value, else `SANE_Net_Byte_Order(0x..)`.
    pub fn to_debug_string(&self) -> (r: String)
        ensures
            r@ == debug_enum(self.spec_name(), "SANE_Net_Byte_Order"@, self.code()),
    {
        match self {
            ByteOrder::LITTLE_ENDIAN => String::from_str("SANE_NET_LITTLE_ENDIAN"),
            ByteOrder::BIG_ENDIAN => String::from_str("SANE_NET_BIG_ENDIAN"),
            ByteOrder::Unknown(c) => debug_unknown("SANE_Net_Byte_Order", *c),
        }
    }
}

/// `SANE_Net_Procedure_Number`
#[allow(non_camel_case_types)]
#[derive(Clone, Copy, PartialEq, Eq, Structural, Debug)]
pub enum ProcedureNumber {
    /// `SANE_NET_INIT`
    INIT,
    /// `SANE_NET_GET_DEVICES`
    GET_DEVICES,
    /// `SANE_NET_OPEN`
    OPEN,
    /// `SANE_NET_CLOSE`
    CLOSE,
    /// `SANE_NET_GET_OPTION_DESCRIPTORS`
    GET_OPTION_DESCRIPTORS,
    /// `SANE_NET_CONTROL_OPTION`
    CONTROL_OPTION,
    /// `SANE_NET_GET_PARAMETERS`
    GET_PARAMETERS,
    /// `SANE_NET_START`
    START,
    /// `SANE_NET_CANCEL`
    CANCEL,
    /// `SANE_NET_AUTHORIZE`
    AUTHORIZE,
    /// `SANE_NET_EXIT`
    EXIT,
    /// A code outside the named set, kept as it came.
    Unknown(u32),
}

impl ProcedureNumber {
    /// The code that stands for this value on the wire.
    pub open spec fn code(self) -> u32 {
        match self {
            ProcedureNumber::INIT => 0,
            ProcedureNumber::GET_DEVICES => 1,
            ProcedureNumber::OPEN => 2,
            ProcedureNumber::CLOSE => 3,
            ProcedureNumber::GET_OPTION_DESCRIPTORS => 4,
            ProcedureNumber::CONTROL_OPTION => 5,
            ProcedureNumber::GET_PARAMETERS => 6,
            ProcedureNumber::START => 7,
            ProcedureNumber::CANCEL => 8,
            ProcedureNumber::AUTHORIZE => 9,
            ProcedureNumber::EXIT => 10,
            ProcedureNumber::Unknown(c) => c,
        }
    }

    /// The value that a code stands for.
    pub open spec fn from_code(c: u32) -> ProcedureNumber {
        match c {
            0 => ProcedureNumber::INIT,
            1 => ProcedureNumber::GET_DEVICES,
            2 => ProcedureNumber::OPEN,
            3 => ProcedureNumber::CLOSE,
            4 => ProcedureNumber::GET_OPTION_DESCRIPTORS,
            5 => ProcedureNumber::CONTROL_OPTION,
            6 => ProcedureNumber::GET_PARAMETERS,
            7 => ProcedureNumber::START,
            8 => ProcedureNumber::CANCEL,
            9 => ProcedureNumber::AUTHORIZE,
            10 => ProcedureNumber::EXIT,
            _ => ProcedureNumber::Unknown(c),
        }
    }

    /// Canonical form: an `Unknown` value never holds a named code.
    pub open spec fn wf(self) -> bool {
        ProcedureNumber::from_code(self.code()) == self
    }

    /// The name that the debug form uses for a named value.
    pub open spec fn spec_name(self) -> Option<Seq<char>> {
        match self {
            ProcedureNumber::INIT => Some("SANE_NET_INIT"@),
            ProcedureNumber::GET_DEVICES => Some("SANE_NET_GET_DEVICES"@),
            ProcedureNumber::OPEN => Some("SANE_NET_OPEN"@),
            ProcedureNumber::CLOSE => Some("SANE_NET_CLOSE"@),
            ProcedureNumber::GET_OPTION_DESCRIPTORS => Some("SANE_NET_GET_OPTION_DESCRIPTORS"@),
            ProcedureNumber::CONTROL_OPTION => Some("SANE_NET_CONTROL_OPTION"@),
            ProcedureNumber::GET_PARAMETERS => Some("SANE_NET_GET_PARAMETERS"@),
            ProcedureNumber::START => Some("SANE_NET_START"@),
            ProcedureNumber::CANCEL => Some("SANE_NET_CANCEL"@),
            ProcedureNumber::AUTHORIZE => Some("SANE_NET_AUTHORIZE"@),
            ProcedureNumber::EXIT => Some("SANE_NET_EXIT"@),
            ProcedureNumber::Unknown(_) => None,
        }
    }

    pub fn from_word(word: Word) -> (r: ProcedureNumber)
        ensures
            r == ProcedureNumber::from_code(word.0),
            r.code() == word.0,
            r.wf(),
    {
        match word.0 {
            0 => ProcedureNumber::INIT,
            1 => ProcedureNumber::GET_DEVICES,
            2 => ProcedureNumber::OPEN,
            3 => ProcedureNumber::CLOSE,
            4 => ProcedureNumber::GET_OPTION_DESCRIPTORS,
            5 => ProcedureNumber::CONTROL_OPTION,
            6 => ProcedureNumber::GET_PARAMETERS,
            7 => ProcedureNumber::START,
            8 => ProcedureNumber::CANCEL,
            9 => ProcedureNumber::AUTHORIZE,
            10 => ProcedureNumber::EXIT,
            c => ProcedureNumber::Unknown(c),
        }
    }

    pub fn as_word(self) -> (r: Word)
        ensures
            r.0 == self.code(),
    {
        match self {
            ProcedureNumber::INIT => Word(0),
            ProcedureNumber::GET_DEVICES => Word(1),
            ProcedureNumber::OPEN => Word(2),
            ProcedureNumber::CLOSE => Word(3),
            ProcedureNumber::GET_OPTION_DESCRIPTORS => Word(4),
            ProcedureNumber::CONTROL_OPTION => Word(5),
            ProcedureNumber::GET_PARAMETERS => Word(6),
            ProcedureNumber::START => Word(7),
            ProcedureNumber::CANCEL => Word(8),
            ProcedureNumber::AUTHORIZE => Word(9),
            ProcedureNumber::EXIT => Word(10),
            ProcedureNumber::Unknown(c) => Word(c),
        }
    }

    /// The debug form: the C name of a named value, else `SANE_Net_Procedure_Number(0x..)`.
    pub fn to_debug_string(&self) -> (r: String)
        ensures
            r@ == debug_enum(self.spec_name(), "SANE_Net_Procedure_Number"@, self.code()),
    {
        match self {
            ProcedureNumber::INIT => String::from_str("SANE_NET_INIT"),
            ProcedureNumber::GET_DEVICES => String::from_str("SANE_NET_GET_DEVICES"),
            ProcedureNumber::OPEN => String::from_str("SANE_NET_OPEN"),
            ProcedureNumber::CLOSE => String::from_str("SANE_NET_CLOSE"),
            ProcedureNumber::GET_OPTION_DESCRIPTORS => String::from_str("SANE_NET_GET_OPTION_DESCRIPTORS"),
            ProcedureNumber::CONTROL_OPTION => String::from_str("SANE_NET_CONTROL_OPTION"),
            ProcedureNumber::GET_PARAMETERS => String::from_str("SANE_NET_GET_PARAMETERS"),
            ProcedureNumber::START => String::from_str("SANE_NET_START"),
            ProcedureNumber::CANCEL => String::from_str("SANE_NET_CANCEL"),
            ProcedureNumber::AUTHORIZE => String::from_str("SANE_NET_AUTHORIZE"),
            ProcedureNumber::EXIT => String::from_str("SANE_NET_EXIT"),
            ProcedureNumber::Unknown(c) => debug_unknown("SANE_Net_Procedure_Number", *c),
        }
    }
}

/// An open device on one connection; the server picks the number.
#[derive(Clone, Copy, PartialEq, Eq, Structural, Debug)]
pub struct Handle(pub u32);

/// `Handle(n)`, the debug form of a handle.
pub open spec fn handle_debug(h: Handle) -> Seq<char> {
    "Handle("@ + dec_digits(h.0 as nat) + ")"@
}

impl Handle {
    /// `Handle(n)`
    pub fn to_debug_string(&self) -> (r: String)
        ensures
            r@ == handle_debug(*self),
    {
        let mut s = String::from_str("Handle(");
        push_dec(&mut s, self.0 as u64);
        s.append(")");
        s
    }
}

impl View for ByteOrder {
    type V = ByteOrder;

    open spec fn view(&self) -> ByteOrder {
        *self
    }
}

impl View for ProcedureNumber {
    type V = ProcedureNumber;

    open spec fn view(&self) -> ProcedureNumber {
        *self
    }
}

impl View for Handle {
    type V = Handle;

    open spec fn view(&self) -> Handle {
        *self
    }
}

/// A request made of its procedure number and a handle.
pub open spec fn handle_request_wire(procedure: ProcedureNumber, h: Handle) -> Seq<u8> {
    be32(procedure.code()) + be32(h.0)
}

/// The handle of such a request; the procedure number is read, not checked.
pub open spec fn parse_handle_request(d: Seq<u8>) -> Parsed<Handle> {
    match parse_word(d) {
        Err(e) => Err(e),
        Ok((_, d1)) => match parse_word(d1) {
            Err(e) => Err(e),
            Ok((h, d2)) => Ok((Handle(h), d2)),
        },
    }
}

pub fn read_handle_request(r: &mut Reader) -> (res: Result<Handle, DecodeError>)
    ensures
        reads(res, parse_handle_request(old(r).remaining()), final(r).remaining()),
{
    match r.read_word() {
        Ok(_) => {},
        Err(e) => return Err(e),
    }
    match r.read_word() {
        Ok(h) => Ok(Handle(h)),
        Err(e) => Err(e),
    }
}

pub proof fn lemma_handle_request_round_trip(procedure: ProcedureNumber, h: Handle, rest: Seq<u8>)
    ensures
        parse_handle_request(handle_request_wire(procedure, h) + rest) == Ok::<(Handle, Seq<u8>), DecodeError>(
            (h, rest),
        ),
{
    assert(handle_request_wire(procedure, h) + rest =~= be32(procedure.code()) + (be32(h.0) + rest));
    lemma_word_prefix(procedure.code(), be32(h.0) + rest);
    lemma_word_prefix(h.0, rest);
}

} // verus!
