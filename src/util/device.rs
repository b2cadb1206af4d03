//! Device descriptors.

use vstd::prelude::*;
use vstd::string::*;

use crate::debug::{pretty_field, push_close, push_field, push_quoted, quoted, spaces};

use crate::cstring::{no_nul, CString};
use crate::net::io::{
    lemma_null_reads_as_empty, lemma_string_round_trip, opt_string_wire, parse_string, reads, string_wire,
    Decode, DecodeError, Encode, EncodeError, Parsed, Reader, RoundTrip, Writer,
};

verus! {

/// What a device descriptor holds.
pub struct DeviceModel {
    pub name: Seq<u8>,
    pub vendor: Seq<u8>,
    pub model: Seq<u8>,
    pub kind: Seq<u8>,
}

/// `SANE_Device`: a scanner known to the server.
#[derive(PartialEq, Eq, Debug)]
pub struct Device {
    name: CString,
    vendor: CString,
    model: CString,
    kind: CString,
}

impl View for Device {
    type V = DeviceModel;

    closed spec fn view(&self) -> DeviceModel {
        DeviceModel { name: self.name@, vendor: self.vendor@, model: self.model@, kind: self.kind@ }
    }
}

/// A device field on the wire: NULL when empty, else the string.
pub open spec fn device_string_wire(s: Seq<u8>) -> Seq<u8> {
    if s.len() == 0 {
        opt_string_wire(None)
    } else {
        string_wire(s)
    }
}

/// The four fields in the order `name`, `vendor`, `model`, `kind`.
pub open spec fn device_wire(m: DeviceModel) -> Seq<u8> {
    device_string_wire(m.name) + device_string_wire(m.vendor) + device_string_wire(m.model)
        + device_string_wire(m.kind)
}

/// Every field's length, with its NUL, fits a word.
pub open spec fn device_fits(m: DeviceModel) -> bool {
    &&& m.name.len() + 1 <= u32::MAX
    &&& m.vendor.len() + 1 <= u32::MAX
    &&& m.model.len() + 1 <= u32::MAX
    &&& m.kind.len() + 1 <= u32::MAX
}

/// No field holds a NUL.
pub open spec fn device_wf(m: DeviceModel) -> bool {
    no_nul(m.name) && no_nul(m.vendor) && no_nul(m.model) && no_nul(m.kind)
}

pub open spec fn parse_device(d: Seq<u8>) -> Parsed<DeviceModel> {
    match parse_string(d) {
        Err(e) => Err(e),
        Ok((name, d1)) => match parse_string(d1) {
            Err(e) => Err(e),
            Ok((vendor, d2)) => match parse_string(d2) {
                Err(e) => Err(e),
                Ok((model, d3)) => match parse_string(d3) {
                    Err(e) => Err(e),
                    Ok((kind, d4)) => Ok((DeviceModel { name, vendor, model, kind }, d4)),
                },
            },
        },
    }
}

/// A device field reads back as itself.
#[verifier::spinoff_prover]
pub proof fn lemma_device_string_round_trip(s: Seq<u8>, rest: Seq<u8>)
    requires
        s.len() + 1 <= u32::MAX,
        no_nul(s),
    ensures
        parse_string(device_string_wire(s) + rest) == Ok::<(Seq<u8>, Seq<u8>), DecodeError>((s, rest)),
{
    if s.len() == 0 {
        lemma_null_reads_as_empty(rest);
        assert(s =~= Seq::<u8>::empty());
    } else {
        lemma_string_round_trip(s, rest);
    }
}

/// A device reads back as itself, whatever follows it.
#[verifier::spinoff_prover]
pub proof fn lemma_device_round_trip(m: DeviceModel, rest: Seq<u8>)
    requires
        device_fits(m),
        device_wf(m),
    ensures
        parse_device(device_wire(m) + rest) == Ok::<(DeviceModel, Seq<u8>), DecodeError>((m, rest)),
{
    let (a, b, c, e) = (
        device_string_wire(m.name),
        device_string_wire(m.vendor),
        device_string_wire(m.model),
        device_string_wire(m.kind),
    );
    assert(device_wire(m) + rest =~= a + (b + (c + (e + rest))));
    lemma_device_string_round_trip(m.name, b + (c + (e + rest)));
    lemma_device_string_round_trip(m.vendor, c + (e + rest));
    lemma_device_string_round_trip(m.model, e + rest);
    lemma_device_string_round_trip(m.kind, rest);
}

/// Writes a device field: NULL when empty.
fn write_device_string(w: &mut Writer, s: &CString) -> (r: Result<(), EncodeError>)
    ensures
        r is Ok <==> s@.len() + 1 <= u32::MAX,
        r is Ok ==> final(w)@ == old(w)@ + device_string_wire(s@),
        no_nul(s@),
{
    if s.is_empty() {
        w.write_opt_string(None)
    } else {
        w.write_string(s)
    }
}

/// A device's pretty debug form at indent `k`, one field to a line.
pub open spec fn device_pretty(m: DeviceModel, k: nat) -> Seq<char> {
    "Device {\n"@ + pretty_field(k, "name"@, quoted(m.name)) + pretty_field(k, "vendor"@, quoted(m.vendor))
        + pretty_field(k, "model"@, quoted(m.model)) + pretty_field(k, "kind"@, quoted(m.kind)) + spaces(k) + "}"@
}

fn push_quoted_field(s: &mut String, k: usize, name: &str, value: &CString)
    requires
        k + 4 <= usize::MAX,
    ensures
        final(s)@ == old(s)@ + pretty_field(k as nat, name@, quoted(value@)),
{
    let mut v = String::new();
    push_quoted(&mut v, value.as_bytes());
    assert(v@ =~= quoted(value@));
    push_field(s, k, name, v.as_str());
}

impl Device {
    pub fn push_pretty(&self, s: &mut String, k: usize)
        requires
            k + 4 <= usize::MAX,
        ensures
            final(s)@ == old(s)@ + device_pretty(self@, k as nat),
    {
        s.append("Device {\n");
        push_quoted_field(s, k, "name", &self.name);
        push_quoted_field(s, k, "vendor", &self.vendor);
        push_quoted_field(s, k, "model", &self.model);
        push_quoted_field(s, k, "kind", &self.kind);
        push_close(s, k, "}");
        assert(final(s)@ =~= old(s)@ + device_pretty(self@, k as nat));
    }

    /// `Device { name: "..", vendor: "..", model: "..", kind: ".." }`, one
    /// field to a line.
    pub fn to_debug_string(&self) -> (r: String)
        ensures
            r@ == device_pretty(self@, 0),
    {
        let mut s = String::new();
        self.push_pretty(&mut s, 0);
        s
    }

    pub fn name(&self) -> (r: &CString)
        ensures
            r@ == self@.name,
    {
        &self.name
    }

    pub fn vendor(&self) -> (r: &CString)
        ensures
            r@ == self@.vendor,
    {
        &self.vendor
    }

    pub fn model(&self) -> (r: &CString)
        ensures
            r@ == self@.model,
    {
        &self.model
    }

    pub fn kind(&self) -> (r: &CString)
        ensures
            r@ == self@.kind,
    {
        &self.kind
    }
}

impl Encode for Device {
    open spec fn spec_wire(&self) -> Option<Seq<u8>> {
        if device_fits(self@) {
            Some(device_wire(self@))
        } else {
            None
        }
    }

    fn encode(&self, w: &mut Writer) -> (r: Result<(), EncodeError>) {
        match write_device_string(w, &self.name) {
            Ok(()) => {},
            Err(e) => return Err(e),
        }
        match write_device_string(w, &self.vendor) {
            Ok(()) => {},
            Err(e) => return Err(e),
        }
        match write_device_string(w, &self.model) {
            Ok(()) => {},
            Err(e) => return Err(e),
        }
        match write_device_string(w, &self.kind) {
            Ok(()) => {},
            Err(e) => return Err(e),
        }
        assert(w@ =~= old(w)@ + device_wire(self@));
        Ok(())
    }
}

/// An owned device descriptor that can be built up field by field.
#[derive(PartialEq, Eq, Debug)]
pub struct DeviceBuf {
    inner: Device,
}

impl View for DeviceBuf {
    type V = DeviceModel;

    closed spec fn view(&self) -> DeviceModel {
        self.inner@
    }
}

impl DeviceBuf {
    /// A device with the given name; the other fields empty.
    pub fn new(name: CString) -> (r: DeviceBuf)
        ensures
            r@ == (DeviceModel {
                name: name@,
                vendor: Seq::empty(),
                model: Seq::empty(),
                kind: Seq::empty(),
            }),
    {
        DeviceBuf {
            inner: Device { name, vendor: CString::empty(), model: CString::empty(), kind: CString::empty() },
        }
    }

    pub fn set_name(&mut self, name: CString)
        ensures
            final(self)@ == (DeviceModel { name: name@, ..old(self)@ }),
    {
        self.inner.name = name;
    }

    pub fn set_vendor(&mut self, vendor: CString)
        ensures
            final(self)@ == (DeviceModel { vendor: vendor@, ..old(self)@ }),
    {
        self.inner.vendor = vendor;
    }

    pub fn set_model(&mut self, model: CString)
        ensures
            final(self)@ == (DeviceModel { model: model@, ..old(self)@ }),
    {
        self.inner.model = model;
    }

    pub fn set_kind(&mut self, kind: CString)
        ensures
            final(self)@ == (DeviceModel { kind: kind@, ..old(self)@ }),
    {
        self.inner.kind = kind;
    }

    /// The descriptor this buffer holds.
    pub fn as_ref(&self) -> (r: &Device)
        ensures
            r@ == self@,
    {
        &self.inner
    }

    pub fn name(&self) -> (r: &CString)
        ensures
            r@ == self@.name,
    {
        &self.inner.name
    }

    pub fn vendor(&self) -> (r: &CString)
        ensures
            r@ == self@.vendor,
    {
        &self.inner.vendor
    }

    pub fn model(&self) -> (r: &CString)
        ensures
            r@ == self@.model,
    {
        &self.inner.model
    }

    pub fn kind(&self) -> (r: &CString)
        ensures
            r@ == self@.kind,
    {
        &self.inner.kind
    }

    /// A copy holding the same fields.
    pub fn duplicate(&self) -> (r: DeviceBuf)
        ensures
            r@ == self@,
    {
        DeviceBuf {
            inner: Device {
                name: self.inner.name.duplicate(),
                vendor: self.inner.vendor.duplicate(),
                model: self.inner.model.duplicate(),
                kind: self.inner.kind.duplicate(),
            },
        }
    }
}

impl Encode for DeviceBuf {
    open spec fn spec_wire(&self) -> Option<Seq<u8>> {
        if device_fits(self@) {
            Some(device_wire(self@))
        } else {
            None
        }
    }

    fn encode(&self, w: &mut Writer) -> (r: Result<(), EncodeError>) {
        self.inner.encode(w)
    }
}

impl Decode for DeviceBuf {
    open spec fn spec_parse(d: Seq<u8>) -> Parsed<DeviceModel> {
        parse_device(d)
    }

    fn decode(r: &mut Reader) -> (res: Result<DeviceBuf, DecodeError>) {
        let name = match r.read_string() {
            Ok(s) => s,
            Err(e) => return Err(e),
        };
        let vendor = match r.read_string() {
            Ok(s) => s,
            Err(e) => return Err(e),
        };
        let model = match r.read_string() {
            Ok(s) => s,
            Err(e) => return Err(e),
        };
        let kind = match r.read_string() {
            Ok(s) => s,
            Err(e) => return Err(e),
        };
        Ok(DeviceBuf { inner: Device { name, vendor, model, kind } })
    }
}

impl RoundTrip for DeviceBuf {
    open spec fn valid(&self) -> bool {
        device_wf(self@)
    }

    proof fn lemma_round_trip(&self, rest: Seq<u8>) {
        lemma_device_round_trip(self@, rest);
    }
}

/// A list of device descriptors.
#[derive(PartialEq, Eq, Debug)]
pub struct DevicesBuf {
    devices: Vec<DeviceBuf>,
}

impl View for DevicesBuf {
    type V = Seq<DeviceModel>;

    closed spec fn view(&self) -> Seq<DeviceModel> {
        self.devices@.map_values(|d: DeviceBuf| d@)
    }
}

impl DevicesBuf {
    pub fn new() -> (r: DevicesBuf)
        ensures
            r@ == Seq::<DeviceModel>::empty(),
    {
        let r = DevicesBuf { devices: Vec::new() };
        assert(r@ =~= Seq::<DeviceModel>::empty());
        r
    }

    pub fn len(&self) -> (r: usize)
        ensures
            r == self@.len(),
    {
        self.devices.len()
    }

    pub fn push(&mut self, dev: DeviceBuf)
        ensures
            final(self)@ == old(self)@.push(dev@),
    {
        let ghost d = dev@;
        self.devices.push(dev);
        assert(self@ =~= old(self)@.push(d));
    }

    /// The device at position `i`.
    pub fn get(&self, i: usize) -> (r: &DeviceBuf)
        requires
            i < self@.len(),
        ensures
            r@ == self@[i as int],
    {
        &self.devices[i]
    }

    /// Walks the devices in order.
    pub fn iter(&self) -> (r: DevicesIter<'_>)
        ensures
            r.pos() == 0,
            r.items() == self@,
    {
        DevicesIter { devices: self.devices.as_slice(), pos: 0 }
    }
}

/// A walk over a list of devices.
pub struct DevicesIter<'a> {
    devices: &'a [DeviceBuf],
    pos: usize,
}

impl<'a> DevicesIter<'a> {
    /// The devices walked over.
    pub closed spec fn items(&self) -> Seq<DeviceModel> {
        self.devices@.map_values(|d: DeviceBuf| d@)
    }

    /// How many have been handed out.
    pub closed spec fn pos(&self) -> int {
        self.pos as int
    }

    /// The next device, if any are left.
    pub fn next(&mut self) -> (r: Option<&'a DeviceBuf>)
        ensures
            final(self).items() == old(self).items(),
            old(self).pos() < old(self).items().len() ==> r is Some && r.unwrap()@ == old(
                self,
            ).items()[old(self).pos()] && final(self).pos() == old(self).pos() + 1,
            old(self).pos() >= old(self).items().len() ==> r is None && final(self).pos() == old(
                self,
            ).pos(),
    {
        if self.pos < self.devices.len() {
            let d = &self.devices[self.pos];
            self.pos = self.pos + 1;
            Some(d)
        } else {
            None
        }
    }
}

} // verus!
