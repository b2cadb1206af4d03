use sane::net::io::{Codec, Decode, DecodeError, Encode, IoError};
use sane::net::{ControlOptionRequestBuf, OptionValueBuf};
use sane::util::{self, Capabilities, IntOptionBuilder, OptionDescriptorBuf};
use sane::{Bool, CString, ConstraintType, Status, ValueType, Word};

fn cstr(bytes: &[u8]) -> CString {
    CString::new(bytes.to_vec()).unwrap()
}

fn encode_ok<T: Encode>(value: &T) -> Vec<u8> {
    let mut w = Codec::BINARY_V3.writer();
    value.encode(&mut w).unwrap();
    w.into_bytes()
}

fn decode<T: Decode>(bytes: &[u8]) -> Result<T, DecodeError> {
    let mut r = Codec::BINARY_V3.reader(bytes.to_vec());
    T::decode(&mut r)
}

fn descriptor_bytes(value_type: u32, size: u32, constraint: &[u8]) -> Vec<u8> {
    let mut out = Vec::new();
    out.extend_from_slice(&[0, 0, 0, 2, b'n', 0]);
    out.extend_from_slice(&[0, 0, 0, 0]);
    out.extend_from_slice(&[0, 0, 0, 0]);
    out.extend_from_slice(&value_type.to_be_bytes());
    out.extend_from_slice(&[0, 0, 0, 0]);
    out.extend_from_slice(&size.to_be_bytes());
    out.extend_from_slice(&[0, 0, 0, 0]);
    out.extend_from_slice(constraint);
    out
}

#[test]
fn unknown_status_code_is_kept() {
    let status = Status::from_word(Word::new(0x12345678));
    assert_eq!(status, Status::Unknown(0x12345678));
    assert_eq!(encode_ok(&status), vec![0x12, 0x34, 0x56, 0x78]);
    assert_eq!(decode::<Status>(&[0x12, 0x34, 0x56, 0x78]), Ok(status));
    assert_eq!(status.to_debug_string(), "SANE_Status(0x12345678)");
    assert_eq!(Status::from_word(Word::new(11)), Status::ACCESS_DENIED);
}

#[test]
fn bool_rejects_other_words() {
    assert_eq!(decode::<Bool>(&[0, 0, 0, 2]), Err(DecodeError::InvalidBool(Word::new(2))));
    assert_eq!(decode::<Bool>(&[0xff, 0, 0, 0]), Err(DecodeError::InvalidBool(Word::new(0xff000000))));
}

#[test]
fn null_and_empty_strings() {
    let mut w = Codec::BINARY_V3.writer();
    w.write_opt_string(None).unwrap();
    assert_eq!(w.into_bytes(), vec![0, 0, 0, 0]);
    assert_eq!(encode_ok(&CString::empty()), vec![0, 0, 0, 1, 0]);
    assert_eq!(decode::<CString>(&[0, 0, 0, 0]), Ok(CString::empty()));
}

#[test]
fn embedded_nul_truncates() {
    assert_eq!(decode::<CString>(b"\x00\x00\x00\x06abc\x00d\x00"), Ok(cstr(b"abc")));
    assert_eq!(decode::<CString>(b"\x00\x00\x00\x02a"), Err(DecodeError::IoError(IoError::UnexpectedEof)));
}

#[test]
fn soft_select_keeps_soft_detect() {
    let mut caps = Capabilities::soft_select();
    caps.set_soft_detect(false);
    assert!(caps.can_soft_detect());
    assert_eq!(caps, Capabilities::soft_select());
    caps.set_emulated(true);
    caps.set_active(false);
    assert!(caps.can_soft_select() && caps.can_soft_detect());
}

#[test]
fn int_value_size_must_match_count() {
    let mut r = Codec::BINARY_V3.reader(vec![0, 0, 0, 1, 0, 0, 0, 8, 0, 0, 0, 1, 1, 2, 3, 4, 5, 6, 7, 8]);
    assert_eq!(OptionValueBuf::read(&mut r), Err(DecodeError::InvalidOptionType));
    let mut r = Codec::BINARY_V3.reader(vec![0, 0, 0, 2, 0, 0, 0, 4, 0, 0, 0, 2, 1, 2, 3, 4]);
    assert_eq!(OptionValueBuf::read(&mut r), Err(DecodeError::InvalidOptionType));
    let mut r = Codec::BINARY_V3.reader(vec![0, 0, 0, 1, 0, 0, 0, 8, 0, 0, 0, 2, 1, 2, 3, 4, 5, 6, 7, 8]);
    assert_eq!(OptionValueBuf::read(&mut r).unwrap().as_bytes(), &[1, 2, 3, 4, 5, 6, 7, 8]);
}

#[test]
fn option_value_errors() {
    let mut r = Codec::BINARY_V3.reader(vec![0, 0, 0, 3, 0, 0, 0, 2, b'a', b'b']);
    assert_eq!(OptionValueBuf::read(&mut r), Err(DecodeError::InvalidString));
    let mut r = Codec::BINARY_V3.reader(vec![0, 0, 0, 9]);
    assert_eq!(OptionValueBuf::read(&mut r), Err(DecodeError::InvalidOptionType));
    let mut r = Codec::BINARY_V3.reader(vec![0, 0, 0, 4, 0, 0, 0, 1]);
    assert_eq!(OptionValueBuf::read(&mut r), Err(DecodeError::InvalidOptionType));
    let mut r = Codec::BINARY_V3.reader(vec![0, 0, 0, 0, 0, 0, 0, 4, 0, 0, 0, 1, 0, 0, 0, 7]);
    assert_eq!(OptionValueBuf::read(&mut r), Err(DecodeError::InvalidBool(Word::new(7))));
}

#[test]
fn option_value_accessors() {
    let v = OptionValueBuf::from_bool(true);
    assert_eq!(v.as_ref().to_bool(), Ok(true));
    assert!(v.as_ref().to_fixed().is_ok());
    let v = OptionValueBuf::from_i32_list(&[-1, 7]);
    assert_eq!(v.as_ref().to_i32_list(), Ok(vec![-1, 7]));
    assert_eq!(v.as_ref().to_i32().is_err(), true);
    let v = OptionValueBuf::from_i32(-5);
    assert_eq!(v.as_ref().to_i32(), Ok(-5));
    assert!(v.as_ref().to_bool().is_err());
    let v = OptionValueBuf::from_cstring_with_size(cstr(b"ab"), 5);
    assert_eq!(v.as_ref().to_cstring(), Ok(cstr(b"ab")));
    assert!(v.as_ref().to_i32_list().is_err());
    let v = OptionValueBuf::from_fixed_list(&[sane::Fixed::new(1, 32768)]);
    assert_eq!(v.as_ref().to_fixed_list(), Ok(vec![sane::Fixed::new(1, 32768)]));
}

#[test]
fn descriptor_errors() {
    // unknown value type
    let bytes = descriptor_bytes(9, 4, &[0, 0, 0, 0]);
    assert_eq!(decode::<OptionDescriptorBuf>(&bytes), Err(DecodeError::InvalidValueType(ValueType::Unknown(9))));

    // a range on a boolean option
    let bytes = descriptor_bytes(0, 4, &[0, 0, 0, 1]);
    assert_eq!(
        decode::<OptionDescriptorBuf>(&bytes),
        Err(DecodeError::InvalidConstraint(ValueType::BOOL, ConstraintType::RANGE)),
    );

    // a word list on a button, naming the button's type
    let bytes = descriptor_bytes(4, 0, &[0, 0, 0, 2]);
    assert_eq!(
        decode::<OptionDescriptorBuf>(&bytes),
        Err(DecodeError::InvalidConstraint(ValueType::BUTTON, ConstraintType::WORD_LIST)),
    );

    // a null range pointer
    let bytes = descriptor_bytes(1, 4, &[0, 0, 0, 1, 0, 0, 0, 1]);
    assert_eq!(decode::<OptionDescriptorBuf>(&bytes), Err(DecodeError::NullPtr));

    // integer sizes must be whole words, at least one
    let bytes = descriptor_bytes(1, 6, &[0, 0, 0, 0]);
    assert_eq!(decode::<OptionDescriptorBuf>(&bytes), Err(DecodeError::InvalidOptionType));
    let bytes = descriptor_bytes(2, 0, &[0, 0, 0, 0]);
    assert_eq!(decode::<OptionDescriptorBuf>(&bytes), Err(DecodeError::InvalidOptionType));

    // a boolean option's size is four
    let bytes = descriptor_bytes(0, 8, &[0, 0, 0, 0]);
    assert_eq!(decode::<OptionDescriptorBuf>(&bytes), Err(DecodeError::InvalidOptionType));

    // a string list constraint on a string option decodes
    let bytes = descriptor_bytes(3, 8, &[0, 0, 0, 3, 0, 0, 0, 2, 0, 0, 0, 2, b'x', 0, 0, 0, 0, 0]);
    let d = decode::<OptionDescriptorBuf>(&bytes).unwrap();
    assert_eq!(d.size(), 8);
}

#[test]
fn descriptor_word_list_stops_at_count() {
    // An empty word list travels as a count of zero.
    let bytes = descriptor_bytes(1, 4, &[0, 0, 0, 2, 0, 0, 0, 0]);
    let d = decode::<OptionDescriptorBuf>(&bytes).unwrap();
    match d.constraint() {
        util::Constraint::IntList(l) => assert_eq!(l.len(), 0),
        other => panic!("unexpected constraint {:?}", other),
    }
}

#[test]
fn device_list_ends_at_null_flag() {
    // Three announced, one present, then the NULL flag.
    let mut bytes = vec![0, 0, 0, 0, 0, 0, 0, 4, 0, 0, 0, 0];
    bytes.extend_from_slice(&[0, 0, 0, 2, b'd', 0, 0, 0, 0, 0, 0, 0, 0, 0, 0, 0, 0, 0]);
    bytes.extend_from_slice(&[0, 0, 0, 1]);
    let reply = decode::<sane::net::GetDevicesReplyBuf>(&bytes).unwrap();
    assert_eq!(reply.devices().len(), 1);
    assert_eq!(reply.devices()[0].name().as_bytes(), b"d");
}

#[test]
fn round_trips() {
    let d = IntOptionBuilder::new(cstr(b"resolution")).count(2).values(&[75, 150, 300]).build();
    let bytes = encode_ok(&d);
    assert_eq!(decode::<OptionDescriptorBuf>(&bytes), Ok(d));

    let mut req = ControlOptionRequestBuf::new();
    req.set_action(sane::Action::SET_VALUE);
    req.set_value(OptionValueBuf::from_fixed(sane::Fixed::new(-3, 5)));
    let bytes = encode_ok(&req);
    assert_eq!(decode::<ControlOptionRequestBuf>(&bytes), Ok(req));

    let mut dev = util::DeviceBuf::new(cstr(b"n"));
    dev.set_kind(cstr(b"k"));
    let bytes = encode_ok(&dev);
    assert_eq!(bytes, vec![0, 0, 0, 2, b'n', 0, 0, 0, 0, 0, 0, 0, 0, 0, 0, 0, 0, 2, b'k', 0]);
    assert_eq!(decode::<util::DeviceBuf>(&bytes), Ok(dev));
}

#[test]
fn decoding_leaves_what_follows() {
    let mut r = Codec::BINARY_V3.reader(vec![0, 0, 0, 1, 9, 9]);
    assert_eq!(Bool::decode(&mut r), Ok(Bool::TRUE));
    assert_eq!(r.remaining_len(), 2);
}
