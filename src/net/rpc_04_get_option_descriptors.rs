//! `SANE_NET_GET_OPTION_DESCRIPTORS`: lists the options of an open device.

use vstd::prelude::*;
use vstd::string::*;

use crate::net::io::{
    all_encodable, all_round_trip, be32, item_wires, lemma_ptr_items_round_trip, lemma_word_prefix,
    parse_ptr_items, parse_word, ptr_items_wire, views, write_ptr_items, Decode, DecodeError, Encode,
    EncodeError, Parsed, Reader, RoundTrip, Writer,
};
use crate::net::{
    handle_debug, handle_request_wire, lemma_handle_request_round_trip, parse_handle_request, read_handle_request,
    Handle, ProcedureNumber,
};
use crate::debug::{list_lines, pretty_field, pretty_list, push_field, push_list, push_list_line};
use crate::util::option_descriptor::{
    option_descriptor_fits, option_descriptor_pretty, option_descriptor_valid, option_descriptor_wire,
    OptionDescriptorBuf, OptionDescriptorModel,
};

verus! {

/// `SANE_NET_GET_OPTION_DESCRIPTORS` request: the handle of the device.
#[derive(Clone, Copy, PartialEq, Eq, Structural, Debug)]
pub struct GetOptionDescriptorsRequest {
    handle: Handle,
}

impl View for GetOptionDescriptorsRequest {
    type V = Handle;

    closed spec fn view(&self) -> Handle {
        self.handle
    }
}

impl GetOptionDescriptorsRequest {
    pub fn handle(&self) -> (r: Handle)
        ensures
            r == self@,
    {
        self.handle
    }

    /// `GetOptionDescriptorsRequest { handle: Handle(n) }`, one field to a line.
    pub fn to_debug_string(&self) -> (r: String)
        ensures
            r@ == "GetOptionDescriptorsRequest {\n    handle: "@ + handle_debug(self@) + ",\n}"@,
    {
        let mut s = String::from_str("GetOptionDescriptorsRequest {\n    handle: ");
        let h = self.handle.to_debug_string();
        s.append(h.as_str());
        s.append(",\n}");
        s
    }
}

impl Encode for GetOptionDescriptorsRequest {
    open spec fn spec_wire(&self) -> Option<Seq<u8>> {
        Some(handle_request_wire(ProcedureNumber::GET_OPTION_DESCRIPTORS, self@))
    }

    fn encode(&self, w: &mut Writer) -> (r: Result<(), EncodeError>) {
        w.write_word(ProcedureNumber::GET_OPTION_DESCRIPTORS.as_word().0);
        w.write_word(self.handle.0);
        Ok(())
    }
}

/// An owned `GetOptionDescriptorsRequest`.
#[derive(Clone, Copy, PartialEq, Eq, Structural, Debug)]
pub struct GetOptionDescriptorsRequestBuf {
    inner: GetOptionDescriptorsRequest,
}

impl View for GetOptionDescriptorsRequestBuf {
    type V = Handle;

    closed spec fn view(&self) -> Handle {
        self.inner@
    }
}

impl GetOptionDescriptorsRequestBuf {
    /// A request for handle 0.
    pub fn new() -> (r: GetOptionDescriptorsRequestBuf)
        ensures
            r@ == Handle(0),
    {
        GetOptionDescriptorsRequestBuf { inner: GetOptionDescriptorsRequest { handle: Handle(0) } }
    }

    pub fn set_handle(&mut self, handle: Handle)
        ensures
            final(self)@ == handle,
    {
        self.inner.handle = handle;
    }

    pub fn handle(&self) -> (r: Handle)
        ensures
            r == self@,
    {
        self.inner.handle
    }

    /// The request this buffer holds.
    pub fn as_ref(&self) -> (r: &GetOptionDescriptorsRequest)
        ensures
            r@ == self@,
    {
        &self.inner
    }
}

impl Encode for GetOptionDescriptorsRequestBuf {
    open spec fn spec_wire(&self) -> Option<Seq<u8>> {
        Some(handle_request_wire(ProcedureNumber::GET_OPTION_DESCRIPTORS, self@))
    }

    fn encode(&self, w: &mut Writer) -> (r: Result<(), EncodeError>) {
        self.inner.encode(w)
    }
}

impl Decode for GetOptionDescriptorsRequestBuf {
    open spec fn spec_parse(d: Seq<u8>) -> Parsed<Handle> {
        parse_handle_request(d)
    }

    fn decode(r: &mut Reader) -> (res: Result<GetOptionDescriptorsRequestBuf, DecodeError>) {
        match read_handle_request(r) {
            Ok(handle) => Ok(GetOptionDescriptorsRequestBuf { inner: GetOptionDescriptorsRequest { handle } }),
            Err(e) => Err(e),
        }
    }
}

impl RoundTrip for GetOptionDescriptorsRequestBuf {
    open spec fn valid(&self) -> bool {
        true
    }

    proof fn lemma_round_trip(&self, rest: Seq<u8>) {
        lemma_handle_request_round_trip(ProcedureNumber::GET_OPTION_DESCRIPTORS, self@, rest);
    }
}

/// `SANE_NET_GET_OPTION_DESCRIPTORS` reply: the option descriptors.
#[derive(PartialEq, Eq, Debug)]
pub struct GetOptionDescriptorsReply {
    option_descriptors: Vec<OptionDescriptorBuf>,
}

impl View for GetOptionDescriptorsReply {
    type V = Seq<OptionDescriptorModel>;

    closed spec fn view(&self) -> Seq<OptionDescriptorModel> {
        views(self.option_descriptors@)
    }
}

/// The count of descriptors plus one, then the descriptors as a flagged
/// list.
pub open spec fn get_option_descriptors_reply_wire(m: Seq<OptionDescriptorModel>) -> Seq<u8> {
    be32((m.len() + 1) as u32) + ptr_items_wire(m.map_values(|d: OptionDescriptorModel| option_descriptor_wire(d)))
}

/// The count and every descriptor's lengths fit words.
pub open spec fn get_option_descriptors_reply_fits(m: Seq<OptionDescriptorModel>) -> bool {
    m.len() + 1 <= u32::MAX && forall|i: int| 0 <= i < m.len() ==> option_descriptor_fits(#[trigger] m[i])
}

/// The count plus one, then up to that many flagged descriptors; a TRUE
/// flag ends the list early.
pub open spec fn parse_get_option_descriptors_reply(d: Seq<u8>) -> Parsed<Seq<OptionDescriptorModel>> {
    match parse_word(d) {
        Err(e) => Err(e),
        Ok((n, d1)) => parse_ptr_items::<OptionDescriptorBuf>(d1, n as nat),
    }
}

proof fn lemma_descriptor_wires(descs: Seq<OptionDescriptorBuf>)
    requires
        forall|i: int| 0 <= i < descs.len() ==> option_descriptor_fits(#[trigger] descs[i]@),
    ensures
        all_encodable(descs),
        item_wires(descs) == views(descs).map_values(|d: OptionDescriptorModel| option_descriptor_wire(d)),
{
    assert(item_wires(descs) =~= views(descs).map_values(|d: OptionDescriptorModel| option_descriptor_wire(d)));
}

impl GetOptionDescriptorsReply {
    pub fn option_descriptors(&self) -> (r: &[OptionDescriptorBuf])
        ensures
            views(r@) == self@,
    {
        self.option_descriptors.as_slice()
    }
}

impl Encode for GetOptionDescriptorsReply {
    open spec fn spec_wire(&self) -> Option<Seq<u8>> {
        if get_option_descriptors_reply_fits(self@) {
            Some(get_option_descriptors_reply_wire(self@))
        } else {
            None
        }
    }

    fn encode(&self, w: &mut Writer) -> (r: Result<(), EncodeError>) {
        match w.write_count_plus_one(self.option_descriptors.len()) {
            Ok(()) => {},
            Err(e) => return Err(e),
        }
        match write_ptr_items(w, self.option_descriptors.as_slice()) {
            Ok(()) => {},
            Err(e) => {
                assert(!get_option_descriptors_reply_fits(self@)) by {
                    if get_option_descriptors_reply_fits(self@) {
                        assert forall|i: int| 0 <= i < self.option_descriptors@.len() implies (
                        #[trigger] self.option_descriptors@[i]).spec_wire() is Some by {
                            assert(option_descriptor_fits(self@[i]));
                        }
                    }
                }
                return Err(e);
            },
        }
        proof {
            assert forall|i: int| 0 <= i < self.option_descriptors@.len() implies option_descriptor_fits(
                #[trigger] self.option_descriptors@[i]@,
            ) by {
                assert(self.option_descriptors@[i].spec_wire() is Some);
            }
            lemma_descriptor_wires(self.option_descriptors@);
            assert(get_option_descriptors_reply_fits(self@)) by {
                assert forall|i: int| 0 <= i < self@.len() implies option_descriptor_fits(#[trigger] self@[i]) by {
                    assert(self@[i] == self.option_descriptors@[i]@);
                }
            }
        }
        assert(w@ =~= old(w)@ + get_option_descriptors_reply_wire(self@));
        Ok(())
    }
}

/// An owned `GetOptionDescriptorsReply`.
#[derive(PartialEq, Eq, Debug)]
pub struct GetOptionDescriptorsReplyBuf {
    inner: GetOptionDescriptorsReply,
}

impl View for GetOptionDescriptorsReplyBuf {
    type V = Seq<OptionDescriptorModel>;

    closed spec fn view(&self) -> Seq<OptionDescriptorModel> {
        self.inner@
    }
}

impl GetOptionDescriptorsReplyBuf {
    /// A reply with no descriptors.
    pub fn new() -> (r: GetOptionDescriptorsReplyBuf)
        ensures
            r@ == Seq::<OptionDescriptorModel>::empty(),
    {
        let r = GetOptionDescriptorsReplyBuf { inner: GetOptionDescriptorsReply { option_descriptors: Vec::new() } };
        assert(r@ =~= Seq::<OptionDescriptorModel>::empty());
        r
    }

    pub fn set_option_descriptors(&mut self, option_descriptors: Vec<OptionDescriptorBuf>)
        ensures
            final(self)@ == views(option_descriptors@),
    {
        self.inner.option_descriptors = option_descriptors;
    }

    pub fn option_descriptors(&self) -> (r: &[OptionDescriptorBuf])
        ensures
            views(r@) == self@,
    {
        self.inner.option_descriptors.as_slice()
    }

    /// Gives up the descriptors.
    pub fn into_option_descriptors(self) -> (r: Vec<OptionDescriptorBuf>)
        ensures
            views(r@) == self@,
    {
        self.inner.option_descriptors
    }

    /// The reply this buffer holds.
    pub fn as_ref(&self) -> (r: &GetOptionDescriptorsReply)
        ensures
            r@ == self@,
    {
        &self.inner
    }
}

impl Encode for GetOptionDescriptorsReplyBuf {
    open spec fn spec_wire(&self) -> Option<Seq<u8>> {
        if get_option_descriptors_reply_fits(self@) {
            Some(get_option_descriptors_reply_wire(self@))
        } else {
            None
        }
    }

    fn encode(&self, w: &mut Writer) -> (r: Result<(), EncodeError>) {
        self.inner.encode(w)
    }
}

impl Decode for GetOptionDescriptorsReplyBuf {
    open spec fn spec_parse(d: Seq<u8>) -> Parsed<Seq<OptionDescriptorModel>> {
        parse_get_option_descriptors_reply(d)
    }

    fn decode(r: &mut Reader) -> (res: Result<GetOptionDescriptorsReplyBuf, DecodeError>) {
        let n = match r.read_word() {
            Ok(x) => x,
            Err(e) => return Err(e),
        };
        let option_descriptors = match r.read_ptr_items::<OptionDescriptorBuf>(n as usize) {
            Ok(v) => v,
            Err(e) => return Err(e),
        };
        Ok(GetOptionDescriptorsReplyBuf { inner: GetOptionDescriptorsReply { option_descriptors } })
    }
}

impl RoundTrip for GetOptionDescriptorsReplyBuf {
    /// Every descriptor is one a decoder can give back.
    open spec fn valid(&self) -> bool {
        forall|i: int| 0 <= i < self@.len() ==> option_descriptor_valid(#[trigger] self@[i])
    }

    #[verifier::spinoff_prover]
    #[verifier::rlimit(50)]
    proof fn lemma_round_trip(&self, rest: Seq<u8>) {
        let m = self@;
        let descs = self.inner.option_descriptors@;
        assert forall|i: int| 0 <= i < descs.len() implies option_descriptor_fits(#[trigger] descs[i]@) by {
            assert(m[i] == descs[i]@);
        }
        lemma_descriptor_wires(descs);
        assert(all_round_trip(descs)) by {
            assert forall|i: int| 0 <= i < descs.len() implies (#[trigger] descs[i]).valid()
                && descs[i].spec_wire() is Some by {
                assert(m[i] == descs[i]@);
            }
        }
        let items = ptr_items_wire(item_wires(descs));
        assert(get_option_descriptors_reply_wire(m) + rest =~= be32((m.len() + 1) as u32) + (items + rest));
        lemma_word_prefix((m.len() + 1) as u32, items + rest);
        lemma_ptr_items_round_trip(descs, rest);
    }
}

/// The pretty debug form of a get-option-descriptors reply.
pub open spec fn get_option_descriptors_reply_debug(m: Seq<OptionDescriptorModel>) -> Seq<char> {
    "GetOptionDescriptorsReply {\n"@ + pretty_field(
        0,
        "option_descriptors"@,
        pretty_list(4, m.map_values(|d: OptionDescriptorModel| option_descriptor_pretty(d, 8))),
    ) + "}"@
}

impl GetOptionDescriptorsReply {
    #[verifier::spinoff_prover]
    /// `GetOptionDescriptorsReply { .. }`, one field to a line.
    pub fn to_debug_string(&self) -> (r: String)
        ensures
            r@ == get_option_descriptors_reply_debug(self@),
    {
        let mut s = String::from_str("GetOptionDescriptorsReply {\n");
        let ghost items = self@.map_values(|d: OptionDescriptorModel| option_descriptor_pretty(d, 8));
        let mut body = String::new();
        let mut i: usize = 0;
        while i < self.option_descriptors.len()
            invariant
                i <= self.option_descriptors@.len(),
                items == self@.map_values(|d: OptionDescriptorModel| option_descriptor_pretty(d, 8)),
                self@ == views(self.option_descriptors@),
                body@ == list_lines(4, items.take(i as int)),
            decreases self.option_descriptors@.len() - i,
        {
            let mut item = String::new();
            self.option_descriptors[i].as_ref().push_pretty(&mut item, 8);
            assert(item@ == items[i as int]);
            push_list_line(&mut body, 4, item.as_str(), Ghost(items.take(i as int)));
            assert(items.take(i as int).push(items[i as int]) =~= items.take(i as int + 1));
            i = i + 1;
        }
        assert(items.take(i as int) =~= items);
        let mut v = String::new();
        push_list(&mut v, 4, body.as_str(), self.option_descriptors.len(), Ghost(items));
        push_field(&mut s, 0, "option_descriptors", v.as_str());
        s.append("}");
        assert(s@ =~= get_option_descriptors_reply_debug(self@));
        s
    }
}

} // verus!
