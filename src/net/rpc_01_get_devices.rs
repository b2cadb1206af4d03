//! `SANE_NET_GET_DEVICES`: lists the devices the server offers.

use vstd::prelude::*;
use vstd::string::*;

use crate::net::io::{
    all_encodable, all_round_trip, be32, item_wires, lemma_ptr_items_round_trip, lemma_word_prefix,
    parse_ptr_items, parse_word, ptr_items_wire, views, write_ptr_items, Decode, DecodeError, Encode,
    EncodeError, Parsed, Reader, RoundTrip, Writer,
};
use crate::debug::{debug_enum, list_lines, pretty_field, pretty_list, push_field, push_list, push_list_line};
use crate::net::ProcedureNumber;
use crate::util::device::{device_fits, device_pretty, device_wire, device_wf, DeviceBuf, DeviceModel};
use crate::{Status, Word};

verus! {

/// `SANE_NET_GET_DEVICES` request: the procedure number alone.
#[derive(Clone, Copy, PartialEq, Eq, Structural, Debug)]
pub struct GetDevicesRequest;

impl View for GetDevicesRequest {
    type V = GetDevicesRequest;

    open spec fn view(&self) -> GetDevicesRequest {
        *self
    }
}

impl GetDevicesRequest {
    /// `GetDevicesRequest`
    pub fn to_debug_string(&self) -> (r: String)
        ensures
            r@ == "GetDevicesRequest"@,
    {
        String::from_str("GetDevicesRequest")
    }
}

impl Encode for GetDevicesRequest {
    open spec fn spec_wire(&self) -> Option<Seq<u8>> {
        Some(be32(ProcedureNumber::GET_DEVICES.code()))
    }

    fn encode(&self, w: &mut Writer) -> (r: Result<(), EncodeError>) {
        w.write_word(ProcedureNumber::GET_DEVICES.as_word().0);
        Ok(())
    }
}

/// An owned `GetDevicesRequest`.
#[derive(Clone, Copy, PartialEq, Eq, Structural, Debug)]
pub struct GetDevicesRequestBuf {
    inner: GetDevicesRequest,
}

impl View for GetDevicesRequestBuf {
    type V = GetDevicesRequest;

    open spec fn view(&self) -> GetDevicesRequest {
        GetDevicesRequest
    }
}

impl GetDevicesRequestBuf {
    pub fn new() -> (r: GetDevicesRequestBuf) {
        GetDevicesRequestBuf { inner: GetDevicesRequest }
    }

    /// The request this buffer holds.
    pub fn as_ref(&self) -> (r: &GetDevicesRequest) {
        &self.inner
    }
}

impl Encode for GetDevicesRequestBuf {
    open spec fn spec_wire(&self) -> Option<Seq<u8>> {
        Some(be32(ProcedureNumber::GET_DEVICES.code()))
    }

    fn encode(&self, w: &mut Writer) -> (r: Result<(), EncodeError>) {
        self.inner.encode(w)
    }
}

impl Decode for GetDevicesRequestBuf {
    /// The procedure number is read, not checked.
    open spec fn spec_parse(d: Seq<u8>) -> Parsed<GetDevicesRequest> {
        match parse_word(d) {
            Err(e) => Err(e),
            Ok((_, rest)) => Ok((GetDevicesRequest, rest)),
        }
    }

    fn decode(r: &mut Reader) -> (res: Result<GetDevicesRequestBuf, DecodeError>) {
        match r.read_word() {
            Ok(_) => Ok(GetDevicesRequestBuf::new()),
            Err(e) => Err(e),
        }
    }
}

impl RoundTrip for GetDevicesRequestBuf {
    open spec fn valid(&self) -> bool {
        true
    }

    proof fn lemma_round_trip(&self, rest: Seq<u8>) {
        lemma_word_prefix(ProcedureNumber::GET_DEVICES.code(), rest);
    }
}

/// What a get-devices reply holds.
pub struct GetDevicesReplyModel {
    pub status: Status,
    pub devices: Seq<DeviceModel>,
}

/// `SANE_NET_GET_DEVICES` reply: the status and the devices.
#[derive(PartialEq, Eq, Debug)]
pub struct GetDevicesReply {
    status: Status,
    devices: Vec<DeviceBuf>,
}

impl View for GetDevicesReply {
    type V = GetDevicesReplyModel;

    closed spec fn view(&self) -> GetDevicesReplyModel {
        GetDevicesReplyModel { status: self.status, devices: views(self.devices@) }
    }
}

/// The status, the count of devices plus one, then the devices as a
/// flagged list.
pub open spec fn get_devices_reply_wire(m: GetDevicesReplyModel) -> Seq<u8> {
    be32(m.status.code()) + be32((m.devices.len() + 1) as u32) + ptr_items_wire(
        m.devices.map_values(|d: DeviceModel| device_wire(d)),
    )
}

/// The count and every device's fields fit words.
pub open spec fn get_devices_reply_fits(m: GetDevicesReplyModel) -> bool {
    m.devices.len() + 1 <= u32::MAX && forall|i: int| 0 <= i < m.devices.len() ==> device_fits(#[trigger] m.devices[i])
}

/// A canonical status and devices without NUL in their fields.
pub open spec fn get_devices_reply_valid(m: GetDevicesReplyModel) -> bool {
    m.status.wf() && forall|i: int| 0 <= i < m.devices.len() ==> device_wf(#[trigger] m.devices[i])
}

/// The status, the count plus one, then up to that many flagged devices;
/// a TRUE flag ends the list early.
pub open spec fn parse_get_devices_reply(d: Seq<u8>) -> Parsed<GetDevicesReplyModel> {
    match parse_word(d) {
        Err(e) => Err(e),
        Ok((status, d1)) => match parse_word(d1) {
            Err(e) => Err(e),
            Ok((n, d2)) => match parse_ptr_items::<DeviceBuf>(d2, n as nat) {
                Err(e) => Err(e),
                Ok((devices, d3)) => Ok((GetDevicesReplyModel { status: Status::from_code(status), devices }, d3)),
            },
        },
    }
}

proof fn lemma_device_wires(devices: Seq<DeviceBuf>)
    requires
        forall|i: int| 0 <= i < devices.len() ==> device_fits(#[trigger] devices[i]@),
    ensures
        all_encodable(devices),
        item_wires(devices) == views(devices).map_values(|d: DeviceModel| device_wire(d)),
{
    assert(item_wires(devices) =~= views(devices).map_values(|d: DeviceModel| device_wire(d)));
}

impl GetDevicesReply {
    pub fn status(&self) -> (r: Status)
        ensures
            r == self@.status,
    {
        self.status
    }

    pub fn devices(&self) -> (r: &[DeviceBuf])
        ensures
            views(r@) == self@.devices,
    {
        self.devices.as_slice()
    }
}

impl Encode for GetDevicesReply {
    open spec fn spec_wire(&self) -> Option<Seq<u8>> {
        if get_devices_reply_fits(self@) {
            Some(get_devices_reply_wire(self@))
        } else {
            None
        }
    }

    fn encode(&self, w: &mut Writer) -> (r: Result<(), EncodeError>) {
        w.write_word(self.status.as_word().0);
        match w.write_count_plus_one(self.devices.len()) {
            Ok(()) => {},
            Err(e) => return Err(e),
        }
        match write_ptr_items(w, self.devices.as_slice()) {
            Ok(()) => {},
            Err(e) => {
                assert(!get_devices_reply_fits(self@)) by {
                    if get_devices_reply_fits(self@) {
                        assert forall|i: int| 0 <= i < self.devices@.len() implies (
                        #[trigger] self.devices@[i]).spec_wire() is Some by {
                            assert(device_fits(self@.devices[i]));
                        }
                    }
                }
                return Err(e);
            },
        }
        proof {
            assert forall|i: int| 0 <= i < self.devices@.len() implies device_fits(#[trigger] self.devices@[i]@) by {
                assert(self.devices@[i].spec_wire() is Some);
            }
            lemma_device_wires(self.devices@);
            assert(get_devices_reply_fits(self@)) by {
                assert forall|i: int| 0 <= i < self@.devices.len() implies device_fits(#[trigger] self@.devices[i]) by {
                    assert(self@.devices[i] == self.devices@[i]@);
                }
            }
        }
        assert(w@ =~= old(w)@ + get_devices_reply_wire(self@));
        Ok(())
    }
}

/// An owned `GetDevicesReply` that can be set field by field.
#[derive(PartialEq, Eq, Debug)]
pub struct GetDevicesReplyBuf {
    inner: GetDevicesReply,
}

impl View for GetDevicesReplyBuf {
    type V = GetDevicesReplyModel;

    closed spec fn view(&self) -> GetDevicesReplyModel {
        self.inner@
    }
}

impl GetDevicesReplyBuf {
    /// A good status and no devices.
    pub fn new() -> (r: GetDevicesReplyBuf)
        ensures
            r@ == (GetDevicesReplyModel { status: Status::GOOD, devices: Seq::empty() }),
    {
        let r = GetDevicesReplyBuf { inner: GetDevicesReply { status: Status::GOOD, devices: Vec::new() } };
        assert(r@.devices =~= Seq::<DeviceModel>::empty());
        r
    }

    pub fn set_status(&mut self, status: Status)
        ensures
            final(self)@ == (GetDevicesReplyModel { status, ..old(self)@ }),
    {
        self.inner.status = status;
    }

    pub fn set_devices(&mut self, devices: Vec<DeviceBuf>)
        ensures
            final(self)@ == (GetDevicesReplyModel { devices: views(devices@), ..old(self)@ }),
    {
        self.inner.devices = devices;
    }

    pub fn status(&self) -> (r: Status)
        ensures
            r == self@.status,
    {
        self.inner.status
    }

    pub fn devices(&self) -> (r: &[DeviceBuf])
        ensures
            views(r@) == self@.devices,
    {
        self.inner.devices.as_slice()
    }

    /// Gives up the devices.
    pub fn into_devices(self) -> (r: Vec<DeviceBuf>)
        ensures
            views(r@) == self@.devices,
    {
        self.inner.devices
    }

    /// The reply this buffer holds.
    pub fn as_ref(&self) -> (r: &GetDevicesReply)
        ensures
            r@ == self@,
    {
        &self.inner
    }
}

impl Encode for GetDevicesReplyBuf {
    open spec fn spec_wire(&self) -> Option<Seq<u8>> {
        if get_devices_reply_fits(self@) {
            Some(get_devices_reply_wire(self@))
        } else {
            None
        }
    }

    fn encode(&self, w: &mut Writer) -> (r: Result<(), EncodeError>) {
        self.inner.encode(w)
    }
}

impl Decode for GetDevicesReplyBuf {
    open spec fn spec_parse(d: Seq<u8>) -> Parsed<GetDevicesReplyModel> {
        parse_get_devices_reply(d)
    }

    fn decode(r: &mut Reader) -> (res: Result<GetDevicesReplyBuf, DecodeError>) {
        let status = match r.read_word() {
            Ok(x) => Status::from_word(Word(x)),
            Err(e) => return Err(e),
        };
        let n = match r.read_word() {
            Ok(x) => x,
            Err(e) => return Err(e),
        };
        let devices = match r.read_ptr_items::<DeviceBuf>(n as usize) {
            Ok(devices) => devices,
            Err(e) => return Err(e),
        };
        Ok(GetDevicesReplyBuf { inner: GetDevicesReply { status, devices } })
    }
}

impl RoundTrip for GetDevicesReplyBuf {
    open spec fn valid(&self) -> bool {
        get_devices_reply_valid(self@)
    }

    proof fn lemma_round_trip(&self, rest: Seq<u8>) {
        let m = self@;
        let devices = self.inner.devices@;
        assert forall|i: int| 0 <= i < devices.len() implies device_fits(#[trigger] devices[i]@) by {
            assert(m.devices[i] == devices[i]@);
        }
        lemma_device_wires(devices);
        assert(all_round_trip(devices)) by {
            assert forall|i: int| 0 <= i < devices.len() implies (#[trigger] devices[i]).valid()
                && devices[i].spec_wire() is Some by {
                assert(m.devices[i] == devices[i]@);
            }
        }
        let items = ptr_items_wire(item_wires(devices));
        assert(get_devices_reply_wire(m) + rest =~= be32(m.status.code()) + (be32((m.devices.len() + 1) as u32) + (
        items + rest)));
        lemma_word_prefix(m.status.code(), be32((m.devices.len() + 1) as u32) + (items + rest));
        lemma_word_prefix((m.devices.len() + 1) as u32, items + rest);
        lemma_ptr_items_round_trip(devices, rest);
    }
}

/// The pretty debug form of a get-devices reply, one field to a line.
pub open spec fn get_devices_reply_debug(m: GetDevicesReplyModel) -> Seq<char> {
    "GetDevicesReply {\n"@ + pretty_field(0, "status"@, debug_enum(m.status.spec_name(), "SANE_Status"@, m.status.code()))
        + pretty_field(0, "devices"@, pretty_list(4, m.devices.map_values(|d: DeviceModel| device_pretty(d, 8))))
        + "}"@
}

impl GetDevicesReply {
    #[verifier::spinoff_prover]
    /// `GetDevicesReply { .. }`, one field to a line.
    pub fn to_debug_string(&self) -> (r: String)
        ensures
            r@ == get_devices_reply_debug(self@),
    {
        let mut s = String::from_str("GetDevicesReply {\n");
        push_field(&mut s, 0, "status", self.status.to_debug_string().as_str());
        let ghost items = self@.devices.map_values(|d: DeviceModel| device_pretty(d, 8));
        let mut body = String::new();
        let mut i: usize = 0;
        while i < self.devices.len()
            invariant
                i <= self.devices@.len(),
                items == self@.devices.map_values(|d: DeviceModel| device_pretty(d, 8)),
                self@.devices == views(self.devices@),
                body@ == list_lines(4, items.take(i as int)),
            decreases self.devices@.len() - i,
        {
            let mut item = String::new();
            self.devices[i].as_ref().push_pretty(&mut item, 8);
            assert(item@ == items[i as int]);
            push_list_line(&mut body, 4, item.as_str(), Ghost(items.take(i as int)));
            assert(items.take(i as int).push(items[i as int]) =~= items.take(i as int + 1));
            i = i + 1;
        }
        assert(items.take(i as int) =~= items);
        let mut v = String::new();
        push_list(&mut v, 4, body.as_str(), self.devices.len(), Ghost(items));
        push_field(&mut s, 0, "devices", v.as_str());
        s.append("}");
        assert(s@ =~= get_devices_reply_debug(self@));
        s
    }
}

} // verus!
