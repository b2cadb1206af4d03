use sane::net::io::{Codec, Decode, DecodeError, Encode, IoError};
use sane::net::{
    self, AuthorizeReplyBuf, AuthorizeRequestBuf, ByteOrder, CancelReplyBuf, CancelRequestBuf, CloseReplyBuf,
    CloseRequestBuf, ControlOptionReplyBuf, ControlOptionRequestBuf, GetDevicesReplyBuf, GetDevicesRequestBuf,
    GetOptionDescriptorsReplyBuf, GetOptionDescriptorsRequestBuf, GetParametersReplyBuf, GetParametersRequestBuf,
    InitReplyBuf, InitRequestBuf, OpenReplyBuf, OpenRequestBuf, OptionValueBuf, ProcedureNumber, StartReplyBuf,
    StartRequestBuf,
};
use sane::util::{self, Capabilities};
use sane::{Bool, CString, Fixed, Int, Word};

fn cstr(bytes: &[u8]) -> CString {
    CString::new(bytes.to_vec()).unwrap()
}

fn cat(parts: &[&[u8]]) -> Vec<u8> {
    let mut out = Vec::new();
    for p in parts {
        out.extend_from_slice(p);
    }
    out
}

fn encode_ok<T: Encode>(value: &T) -> Vec<u8> {
    let mut w = Codec::BINARY_V3.writer();
    value.encode(&mut w).unwrap();
    w.into_bytes()
}

fn decode_ok<T: Decode>(bytes: &[u8]) -> T {
    let mut r = Codec::BINARY_V3.reader(bytes.to_vec());
    match T::decode(&mut r) {
        Ok(v) => v,
        Err(e) => panic!("decode failed: {:?}", e),
    }
}

fn decode_err<T: Decode>(bytes: &[u8]) -> DecodeError {
    let mut r = Codec::BINARY_V3.reader(bytes.to_vec());
    match T::decode(&mut r) {
        Ok(_) => panic!("decode succeeded"),
        Err(e) => e,
    }
}

const DEV_NAME: &[u8] = b"device-name";
const DEV_VENDOR: &[u8] = b"device-vendor";
const DEV_MODEL: &[u8] = b"device-model";
const DEV_TYPE: &[u8] = b"device-type";

const OPT_NAME: &[u8] = b"option-name";
const OPT_TITLE: &[u8] = b"option-title";
const OPT_DESC: &[u8] = b"option-description";

#[test]
fn sane_net_byte_order() {
    assert_eq!(ByteOrder::LITTLE_ENDIAN.to_debug_string(), "SANE_NET_LITTLE_ENDIAN");
    assert_eq!(ByteOrder::BIG_ENDIAN.to_debug_string(), "SANE_NET_BIG_ENDIAN");
    assert_eq!(
        ByteOrder::from_word(Word::new(0x12345678)).to_debug_string(),
        "SANE_Net_Byte_Order(0x12345678)",
    );
}

#[test]
fn sane_net_procedure_number() {
    assert_eq!(ProcedureNumber::INIT.to_debug_string(), "SANE_NET_INIT");
    assert_eq!(
        ProcedureNumber::from_word(Word::new(0x12345678)).to_debug_string(),
        "SANE_Net_Procedure_Number(0x12345678)",
    );
}

#[test]
fn sane_net_handle() {
    assert_eq!(decode_ok::<net::Handle>(b"\x12\x34\x56\x78"), net::Handle(0x12345678));
    assert_eq!(encode_ok(&net::Handle(0x12345678)), b"\x12\x34\x56\x78");
}

#[test]
fn net_test_sane_word() {
    assert_eq!(decode_ok::<Word>(b"\x12\x34\x56\x78"), Word::new(0x12345678));
    assert_eq!(encode_ok(&Word::new(0x12345678)), b"\x12\x34\x56\x78");
}

#[test]
fn net_test_sane_bool() {
    assert_eq!(decode_ok::<Bool>(b"\x00\x00\x00\x00"), Bool::FALSE);
    assert_eq!(encode_ok(&Bool::FALSE), b"\x00\x00\x00\x00");

    assert_eq!(decode_ok::<Bool>(b"\x00\x00\x00\x01"), Bool::TRUE);
    assert_eq!(encode_ok(&Bool::TRUE), b"\x00\x00\x00\x01");

    let err = decode_err::<Bool>(b"\x00\x00\x00\x02");
    assert!(format!("{:?}", err).contains("InvalidBool"));
    assert_eq!(err, DecodeError::InvalidBool(Word::new(2)));
}

#[test]
fn net_test_sane_int() {
    assert_eq!(decode_ok::<Int>(b"\xFF\xFF\xFF\xFF"), Int::new(-1));
    assert_eq!(encode_ok(&Int::new(-1)), b"\xFF\xFF\xFF\xFF");

    assert_eq!(decode_ok::<Int>(b"\x00\x00\x00\x01"), Int::new(1));
    assert_eq!(encode_ok(&Int::new(1)), b"\x00\x00\x00\x01");
}

#[test]
fn net_test_sane_fixed() {
    assert_eq!(decode_ok::<Fixed>(b"\xFF\xFF\x00\x00"), Fixed::new(-1, 0));
    assert_eq!(encode_ok(&Fixed::new(-1, 0)), b"\xFF\xFF\x00\x00");

    assert_eq!(decode_ok::<Fixed>(b"\x00\x01\x00\x00"), Fixed::new(1, 0));
    assert_eq!(encode_ok(&Fixed::new(1, 0)), b"\x00\x01\x00\x00");
}

#[test]
fn sane_enums() {
    assert_eq!(decode_ok::<sane::Status>(b"\x00\x00\x00\x00"), sane::Status::GOOD);
    assert_eq!(encode_ok(&sane::Status::GOOD), b"\x00\x00\x00\x00");

    assert_eq!(decode_ok::<sane::ValueType>(b"\x00\x00\x00\x00"), sane::ValueType::BOOL);
    assert_eq!(encode_ok(&sane::ValueType::BOOL), b"\x00\x00\x00\x00");

    assert_eq!(decode_ok::<sane::Unit>(b"\x00\x00\x00\x00"), sane::Unit::NONE);
    assert_eq!(encode_ok(&sane::Unit::NONE), b"\x00\x00\x00\x00");

    assert_eq!(decode_ok::<sane::ConstraintType>(b"\x00\x00\x00\x00"), sane::ConstraintType::NONE);
    assert_eq!(encode_ok(&sane::ConstraintType::NONE), b"\x00\x00\x00\x00");

    assert_eq!(decode_ok::<sane::Action>(b"\x00\x00\x00\x00"), sane::Action::GET_VALUE);
    assert_eq!(encode_ok(&sane::Action::GET_VALUE), b"\x00\x00\x00\x00");

    assert_eq!(decode_ok::<sane::Frame>(b"\x00\x00\x00\x00"), sane::Frame::GRAY);
    assert_eq!(encode_ok(&sane::Frame::GRAY), b"\x00\x00\x00\x00");
}

#[test]
fn sane_net_enums() {
    assert_eq!(decode_ok::<ByteOrder>(b"\x00\x00\x12\x34"), ByteOrder::LITTLE_ENDIAN);
    assert_eq!(encode_ok(&ByteOrder::LITTLE_ENDIAN), b"\x00\x00\x12\x34");

    assert_eq!(decode_ok::<ByteOrder>(b"\x00\x00\x43\x21"), ByteOrder::BIG_ENDIAN);
    assert_eq!(encode_ok(&ByteOrder::BIG_ENDIAN), b"\x00\x00\x43\x21");

    assert_eq!(decode_ok::<ProcedureNumber>(b"\x00\x00\x00\x00"), ProcedureNumber::INIT);
    assert_eq!(encode_ok(&ProcedureNumber::INIT), b"\x00\x00\x00\x00");
}

fn read_opt_string(bytes: &[u8]) -> Result<Option<CString>, DecodeError> {
    let mut r = Codec::BINARY_V3.reader(bytes.to_vec());
    r.read_opt_string()
}

fn write_opt_string(s: Option<&CString>) -> Vec<u8> {
    let mut w = Codec::BINARY_V3.writer();
    w.write_opt_string(s).unwrap();
    w.into_bytes()
}

#[test]
fn strings() {
    // (char*)(NULL) encodes as len=0
    assert_eq!(write_opt_string(None), b"\x00\x00\x00\x00");

    // len=0 strings can be decoded to an Option (preserving NULL)
    assert_eq!(read_opt_string(b"\x00\x00\x00\x00"), Ok(None));

    // len=0 strings can be decoded to a CString (NULL -> "")
    assert_eq!(decode_ok::<CString>(b"\x00\x00\x00\x00"), CString::empty());

    // (char*)("") encodes as len=1 data="\x00"
    assert_eq!(write_opt_string(Some(&CString::empty())), b"\x00\x00\x00\x01\x00");
    assert_eq!(encode_ok(&CString::empty()), b"\x00\x00\x00\x01\x00");

    assert_eq!(decode_ok::<CString>(b"\x00\x00\x00\x01\x00"), CString::empty());
    assert_eq!(read_opt_string(b"\x00\x00\x00\x01\x00"), Ok(Some(CString::empty())));

    // (char*)("abc") encodes as len=4 data="abc\x00"
    assert_eq!(encode_ok(&cstr(b"abc")), b"\x00\x00\x00\x04abc\x00");

    // Strings are terminated by an embedded NUL.
    assert_eq!(decode_ok::<CString>(b"\x00\x00\x00\x06abc\x00d\x00"), cstr(b"abc"));

    // missing NUL
    let err = decode_err::<CString>(b"\x00\x00\x00\x01a");
    assert!(format!("{:?}", err).contains("InvalidString"));
}

#[test]
fn net_test_sane_range() {
    let mut range = sane::Range::new();
    range.min = Word::new(0x11111111);
    range.max = Word::new(0x22222222);
    range.quant = Word::new(0x33333333);

    let bytes = encode_ok(&range);
    assert_eq!(bytes, cat(&[&[0x11; 4], &[0x22; 4], &[0x33; 4]]));

    let decoded: sane::Range = decode_ok(&bytes);
    assert_eq!(range, decoded);
}

#[test]
fn net_test_sane_parameters() {
    let mut params = sane::Parameters::new();
    params.format = sane::Frame::BLUE;
    params.last_frame = Bool::TRUE;
    params.bytes_per_line = Int::new(0x11111111);
    params.pixels_per_line = Int::new(0x22222222);
    params.lines = Int::new(0x33333333);
    params.depth = Int::new(0x44444444);

    let bytes = encode_ok(&params);
    assert_eq!(
        bytes,
        cat(&[&[0, 0, 0, 4], &[0, 0, 0, 1], &[0x11; 4], &[0x22; 4], &[0x33; 4], &[0x44; 4]]),
    );

    let decoded: sane::Parameters = decode_ok(&bytes);
    assert_eq!(params, decoded);
}

fn device_1() -> util::DeviceBuf {
    let mut dev = util::DeviceBuf::new(cstr(DEV_NAME));
    dev.set_vendor(cstr(DEV_VENDOR));
    dev.set_model(cstr(DEV_MODEL));
    dev.set_kind(cstr(DEV_TYPE));
    dev
}

#[test]
fn net_test_util_device() {
    let device_buf = device_1();

    let bytes = encode_ok(&device_buf);
    assert_eq!(
        bytes,
        cat(&[
            &[0, 0, 0, 12],
            b"device-name\x00",
            &[0, 0, 0, 14],
            b"device-vendor\x00",
            &[0, 0, 0, 13],
            b"device-model\x00",
            &[0, 0, 0, 12],
            b"device-type\x00",
        ]),
    );

    let decoded: util::DeviceBuf = decode_ok(&bytes);
    assert_eq!(device_buf, decoded);
}

fn header(name: &[u8], title: &[u8], desc: &[u8]) -> Vec<u8> {
    let mut out = Vec::new();
    for s in [name, title, desc] {
        out.extend_from_slice(&((s.len() + 1) as u32).to_be_bytes());
        out.extend_from_slice(s);
        out.push(0);
    }
    out
}

#[test]
fn util_option_descriptor_bool() {
    let option_buf = util::BoolOptionBuilder::new(cstr(OPT_NAME))
        .title(cstr(OPT_TITLE))
        .description(cstr(OPT_DESC))
        .capabilities(Capabilities::soft_select())
        .build();

    let bytes = encode_ok(&option_buf);
    assert_eq!(
        bytes,
        cat(&[
            &[0, 0, 0, 12],
            b"option-name\x00",
            &[0, 0, 0, 13],
            b"option-title\x00",
            &[0, 0, 0, 19],
            b"option-description\x00",
            &[0, 0, 0, 0],     // ValueType::BOOL
            &[0, 0, 0, 0],     // Unit::NONE
            &[0, 0, 0, 4],     // size_of::<Bool>()
            &[0, 0, 0, 0b101], // CAP_SOFT_SELECT | CAP_SOFT_DETECT
            &[0, 0, 0, 0],     // ConstraintType::NONE
        ]),
    );

    let decoded_buf: util::OptionDescriptorBuf = decode_ok(&bytes);
    assert_eq!(option_buf, decoded_buf);
}

#[test]
fn util_option_descriptor_int() {
    let option_buf = util::IntOptionBuilder::new(cstr(OPT_NAME))
        .title(cstr(OPT_TITLE))
        .description(cstr(OPT_DESC))
        .unit(sane::Unit::PIXEL)
        .capabilities(Capabilities::soft_select())
        .build();

    let bytes = encode_ok(&option_buf);
    assert_eq!(
        bytes,
        cat(&[
            &header(OPT_NAME, OPT_TITLE, OPT_DESC),
            &[0, 0, 0, 1],     // ValueType::INT
            &[0, 0, 0, 1],     // Unit::PIXEL
            &[0, 0, 0, 4],     // size_of::<Int>()
            &[0, 0, 0, 0b101], // CAP_SOFT_SELECT | CAP_SOFT_DETECT
            &[0, 0, 0, 0],     // ConstraintType::NONE
        ]),
    );

    let decoded_buf: util::OptionDescriptorBuf = decode_ok(&bytes);
    assert_eq!(option_buf, decoded_buf);
}

#[test]
fn util_option_descriptor_int_range() {
    let option_buf = util::IntOptionBuilder::new(cstr(OPT_NAME)).range(0x11111111, 0x22222222, 0x33333333).build();

    let bytes = encode_ok(&option_buf);
    assert_eq!(
        bytes,
        cat(&[
            &[0, 0, 0, 12],
            b"option-name\x00",
            &[0, 0, 0, 1],
            b"\x00",
            &[0, 0, 0, 1],
            b"\x00",
            &[0, 0, 0, 1],
            &[0, 0, 0, 0],
            &[0, 0, 0, 4],
            &[0, 0, 0, 0],
            &[0, 0, 0, 1], // ConstraintType::RANGE
            &[0, 0, 0, 0], // is_null
            &[0x11; 4],    // range.min
            &[0x22; 4],    // range.max
            &[0x33; 4],    // range.quant
        ]),
    );

    let decoded_buf: util::OptionDescriptorBuf = decode_ok(&bytes);
    assert_eq!(option_buf, decoded_buf);
}

#[test]
fn util_option_descriptor_int_enum() {
    let values = [0x11111111, 0x22222222, 0x33333333];
    let option_buf = util::IntOptionBuilder::new(cstr(OPT_NAME)).values(&values).build();

    let bytes = encode_ok(&option_buf);
    assert_eq!(
        bytes,
        cat(&[
            &[0, 0, 0, 12],
            b"option-name\x00",
            &[0, 0, 0, 1],
            b"\x00",
            &[0, 0, 0, 1],
            b"\x00",
            &[0, 0, 0, 1],
            &[0, 0, 0, 0],
            &[0, 0, 0, 4],
            &[0, 0, 0, 0],
            &[0, 0, 0, 2], // ConstraintType::WORD_LIST
            &[0, 0, 0, 4], // words.len() + 1
            &[0, 0, 0, 3], // words.len()
            &[0x11; 4],
            &[0x22; 4],
            &[0x33; 4],
        ]),
    );

    let decoded_buf: util::OptionDescriptorBuf = decode_ok(&bytes);
    assert_eq!(option_buf, decoded_buf);
}

#[test]
fn util_option_descriptor_fixed() {
    let option_buf = util::FixedOptionBuilder::new(cstr(OPT_NAME))
        .title(cstr(OPT_TITLE))
        .description(cstr(OPT_DESC))
        .unit(sane::Unit::PIXEL)
        .capabilities(Capabilities::soft_select())
        .build();

    let bytes = encode_ok(&option_buf);
    assert_eq!(
        bytes,
        cat(&[
            &header(OPT_NAME, OPT_TITLE, OPT_DESC),
            &[0, 0, 0, 2],     // ValueType::FIXED
            &[0, 0, 0, 1],     // Unit::PIXEL
            &[0, 0, 0, 4],     // size_of::<Fixed>()
            &[0, 0, 0, 0b101], // CAP_SOFT_SELECT | CAP_SOFT_DETECT
            &[0, 0, 0, 0],     // ConstraintType::NONE
        ]),
    );

    let decoded_buf: util::OptionDescriptorBuf = decode_ok(&bytes);
    assert_eq!(option_buf, decoded_buf);
}

#[test]
fn util_option_descriptor_fixed_range() {
    let option_buf = util::FixedOptionBuilder::new(cstr(OPT_NAME))
        .range(Fixed::new(0x1111, 0x1111), Fixed::new(0x2222, 0x2222), Fixed::new(0x3333, 0x3333))
        .build();

    let bytes = encode_ok(&option_buf);
    assert_eq!(
        bytes,
        cat(&[
            &[0, 0, 0, 12],
            b"option-name\x00",
            &[0, 0, 0, 1],
            b"\x00",
            &[0, 0, 0, 1],
            b"\x00",
            &[0, 0, 0, 2],
            &[0, 0, 0, 0],
            &[0, 0, 0, 4],
            &[0, 0, 0, 0],
            &[0, 0, 0, 1], // ConstraintType::RANGE
            &[0, 0, 0, 0], // is_null
            &[0x11; 4],
            &[0x22; 4],
            &[0x33; 4],
        ]),
    );

    let decoded_buf: util::OptionDescriptorBuf = decode_ok(&bytes);
    assert_eq!(option_buf, decoded_buf);
}

#[test]
fn util_option_descriptor_fixed_enum() {
    let values = [Fixed::new(0x1111, 0x1111), Fixed::new(0x2222, 0x2222), Fixed::new(0x3333, 0x3333)];
    let option_buf = util::FixedOptionBuilder::new(cstr(OPT_NAME)).values(&values).build();

    let bytes = encode_ok(&option_buf);
    assert_eq!(
        bytes,
        cat(&[
            &[0, 0, 0, 12],
            b"option-name\x00",
            &[0, 0, 0, 1],
            b"\x00",
            &[0, 0, 0, 1],
            b"\x00",
            &[0, 0, 0, 2],
            &[0, 0, 0, 0],
            &[0, 0, 0, 4],
            &[0, 0, 0, 0],
            &[0, 0, 0, 2], // ConstraintType::WORD_LIST
            &[0, 0, 0, 4], // words.len() + 1
            &[0, 0, 0, 3], // words.len()
            &[0x11; 4],
            &[0x22; 4],
            &[0x33; 4],
        ]),
    );

    let decoded_buf: util::OptionDescriptorBuf = decode_ok(&bytes);
    assert_eq!(option_buf, decoded_buf);
}

#[test]
fn util_option_descriptor_string() {
    let option_buf = util::StringOptionBuilder::new(cstr(OPT_NAME), 123)
        .title(cstr(OPT_TITLE))
        .description(cstr(OPT_DESC))
        .unit(sane::Unit::PIXEL)
        .capabilities(Capabilities::soft_select())
        .build();

    let bytes = encode_ok(&option_buf);
    assert_eq!(
        bytes,
        cat(&[
            &header(OPT_NAME, OPT_TITLE, OPT_DESC),
            &[0, 0, 0, 3],     // ValueType::STRING
            &[0, 0, 0, 1],     // Unit::PIXEL
            &[0, 0, 0, 123],   // size
            &[0, 0, 0, 0b101], // CAP_SOFT_SELECT | CAP_SOFT_DETECT
            &[0, 0, 0, 0],     // ConstraintType::NONE
        ]),
    );

    let decoded_buf: util::OptionDescriptorBuf = decode_ok(&bytes);
    assert_eq!(option_buf, decoded_buf);
}

#[test]
fn util_option_descriptor_string_enum() {
    let option_buf = util::StringOptionBuilder::new(cstr(OPT_NAME), 123)
        .values(vec![cstr(b"aaa"), cstr(b"bbb"), cstr(b"ccc")])
        .build();

    let bytes = encode_ok(&option_buf);
    assert_eq!(
        bytes,
        cat(&[
            &[0, 0, 0, 12],
            b"option-name\x00",
            &[0, 0, 0, 1],
            b"\x00",
            &[0, 0, 0, 1],
            b"\x00",
            &[0, 0, 0, 3],
            &[0, 0, 0, 0],
            &[0, 0, 0, 123],
            &[0, 0, 0, 0],
            &[0, 0, 0, 3], // ConstraintType::STRING_LIST
            &[0, 0, 0, 4], // strings.len() + 1
            &[0, 0, 0, 4],
            b"aaa\x00",
            &[0, 0, 0, 4],
            b"bbb\x00",
            &[0, 0, 0, 4],
            b"ccc\x00",
            &[0, 0, 0, 0], // NULL
        ]),
    );

    let decoded_buf: util::OptionDescriptorBuf = decode_ok(&bytes);
    assert_eq!(option_buf, decoded_buf);
}

#[test]
fn util_option_descriptor_button() {
    let option_buf = util::ButtonOptionBuilder::new(cstr(OPT_NAME))
        .title(cstr(OPT_TITLE))
        .description(cstr(OPT_DESC))
        .capabilities(Capabilities::soft_select())
        .build();

    let bytes = encode_ok(&option_buf);
    assert_eq!(
        bytes,
        cat(&[
            &header(OPT_NAME, OPT_TITLE, OPT_DESC),
            &[0, 0, 0, 4],     // ValueType::BUTTON
            &[0, 0, 0, 0],     // Unit::NONE
            &[0, 0, 0, 0],     // size
            &[0, 0, 0, 0b101], // CAP_SOFT_SELECT | CAP_SOFT_DETECT
            &[0, 0, 0, 0],     // ConstraintType::NONE
        ]),
    );

    let decoded_buf: util::OptionDescriptorBuf = decode_ok(&bytes);
    assert_eq!(option_buf, decoded_buf);
}

#[test]
fn util_option_descriptor_group() {
    let option_buf = util::GroupOptionBuilder::new().title(cstr(OPT_TITLE)).description(cstr(OPT_DESC)).build();

    let bytes = encode_ok(&option_buf);
    assert_eq!(
        bytes,
        cat(&[
            &[0, 0, 0, 1],
            b"\x00",
            &[0, 0, 0, 13],
            b"option-title\x00",
            &[0, 0, 0, 19],
            b"option-description\x00",
            &[0, 0, 0, 5], // ValueType::GROUP
            &[0, 0, 0, 0], // Unit::NONE
            &[0, 0, 0, 0], // size
            &[0, 0, 0, 0], // capabilities
            &[0, 0, 0, 0], // ConstraintType::NONE
        ]),
    );

    let decoded_buf: util::OptionDescriptorBuf = decode_ok(&bytes);
    assert_eq!(option_buf, decoded_buf);
}

#[test]
fn init_request() {
    let mut request_buf = InitRequestBuf::new();
    request_buf.set_version_code(0x11223344);
    request_buf.set_username(cstr(b"aaa"));
    let request = request_buf.as_ref();

    assert_eq!(request.to_debug_string(), "InitRequest {\n    version_code: 287454020,\n    username: \"aaa\",\n}");



    let bytes = encode_ok(request);
    assert_eq!(bytes, cat(&[&[0, 0, 0, 0], &[0x11, 0x22, 0x33, 0x44], &[0, 0, 0, 4], b"aaa\x00"]));

    let decoded: InitRequestBuf = decode_ok(&bytes);
    assert_eq!(request_buf, decoded);
}

#[test]
fn init_reply() {
    let mut reply_buf = InitReplyBuf::new();
    reply_buf.set_status(sane::Status::ACCESS_DENIED);
    reply_buf.set_version_code(0x11223344);
    let reply = reply_buf.as_ref();

    assert_eq!(reply.to_debug_string(), "InitReply {\n    status: SANE_STATUS_ACCESS_DENIED,\n    version_code: 287454020,\n}");



    let bytes = encode_ok(reply);
    assert_eq!(bytes, cat(&[&[0, 0, 0, 11], &[0x11, 0x22, 0x33, 0x44]]));

    let decoded: InitReplyBuf = decode_ok(&bytes);
    assert_eq!(reply_buf, decoded);
}

#[test]
fn get_devices_request() {
    let request_buf = GetDevicesRequestBuf::new();
    let request = request_buf.as_ref();

    assert_eq!(request.to_debug_string(), "GetDevicesRequest");

    let bytes = encode_ok(request);
    assert_eq!(bytes, &[0, 0, 0, 1]);

    let decoded: GetDevicesRequestBuf = decode_ok(&bytes);
    assert_eq!(request_buf, decoded);
}

#[test]
fn get_devices_reply() {
    let device_2 = util::DeviceBuf::new(cstr(b"device-name-2"));

    let mut reply_buf = GetDevicesReplyBuf::new();
    reply_buf.set_status(sane::Status::ACCESS_DENIED);
    reply_buf.set_devices(vec![device_1(), device_2]);
    let reply = reply_buf.as_ref();

    assert_eq!(reply.to_debug_string(), "GetDevicesReply {\n    status: SANE_STATUS_ACCESS_DENIED,\n    devices: [\n        Device {\n            name: \"device-name\",\n            vendor: \"device-vendor\",\n            model: \"device-model\",\n            kind: \"device-type\",\n        },\n        Device {\n            name: \"device-name-2\",\n            vendor: \"\",\n            model: \"\",\n            kind: \"\",\n        },\n    ],\n}");



    let bytes = encode_ok(reply);
    // An empty device field travels as NULL.
    assert_eq!(
        bytes,
        cat(&[
            &[0, 0, 0, 11], // Status::ACCESS_DENIED
            &[0, 0, 0, 3],  // device_list.len() + 1
            &[0, 0, 0, 0],  // device_list[0].is_null()
            &[0, 0, 0, 12],
            b"device-name\x00",
            &[0, 0, 0, 14],
            b"device-vendor\x00",
            &[0, 0, 0, 13],
            b"device-model\x00",
            &[0, 0, 0, 12],
            b"device-type\x00",
            &[0, 0, 0, 0], // device_list[1].is_null()
            &[0, 0, 0, 14],
            b"device-name-2\x00",
            &[0, 0, 0, 0],
            &[0, 0, 0, 0],
            &[0, 0, 0, 0],
            &[0, 0, 0, 1], // device_list[2].is_null()
        ]),
    );

    let decoded: GetDevicesReplyBuf = decode_ok(&bytes);
    assert_eq!(reply_buf, decoded);
}

#[test]
fn open_request() {
    let mut request_buf = OpenRequestBuf::new();
    request_buf.set_device_name(cstr(DEV_NAME));
    let request = request_buf.as_ref();

    assert_eq!(request.to_debug_string(), "OpenRequest {\n    device_name: \"device-name\",\n}");



    let bytes = encode_ok(request);
    assert_eq!(bytes, cat(&[&[0, 0, 0, 2], &[0, 0, 0, 12], b"device-name\x00"]));

    let decoded: OpenRequestBuf = decode_ok(&bytes);
    assert_eq!(request_buf, decoded);
}

#[test]
fn open_reply() {
    let mut reply_buf = OpenReplyBuf::new();
    reply_buf.set_status(sane::Status::ACCESS_DENIED);
    reply_buf.set_handle(net::Handle(0x11223344));
    reply_buf.set_resource(cstr(b"open-resource"));
    let reply = reply_buf.as_ref();

    assert_eq!(reply.to_debug_string(), "OpenReply {\n    status: SANE_STATUS_ACCESS_DENIED,\n    handle: Handle(287454020),\n    resource: \"open-resource\",\n}");



    let bytes = encode_ok(reply);
    assert_eq!(bytes, cat(&[&[0, 0, 0, 11], &[0x11, 0x22, 0x33, 0x44], &[0, 0, 0, 14], b"open-resource\x00"]));

    let decoded: OpenReplyBuf = decode_ok(&bytes);
    assert_eq!(reply_buf, decoded);
}

#[test]
fn close_request() {
    let mut request_buf = CloseRequestBuf::new();
    request_buf.set_handle(net::Handle(0x11223344));
    let request = request_buf.as_ref();

    assert_eq!(request.to_debug_string(), "CloseRequest {\n    handle: Handle(287454020),\n}");

    let bytes = encode_ok(request);
    assert_eq!(bytes, cat(&[&[0, 0, 0, 3], &[0x11, 0x22, 0x33, 0x44]]));

    let decoded: CloseRequestBuf = decode_ok(&bytes);
    assert_eq!(request_buf, decoded);
}

#[test]
fn close_reply() {
    let reply_buf = CloseReplyBuf::new();
    let reply = reply_buf.as_ref();

    assert_eq!(reply.to_debug_string(), "CloseReply");

    let bytes = encode_ok(reply);
    assert_eq!(bytes, &[0, 0, 0, 0]);

    let decoded: CloseReplyBuf = decode_ok(&bytes);
    assert_eq!(reply_buf, decoded);
}

#[test]
fn get_option_descriptors_request() {
    let mut request_buf = GetOptionDescriptorsRequestBuf::new();
    request_buf.set_handle(net::Handle(0x11223344));
    let request = request_buf.as_ref();

    assert_eq!(
        request.to_debug_string(),
        "GetOptionDescriptorsRequest {\n    handle: Handle(287454020),\n}",
    );

    let bytes = encode_ok(request);
    assert_eq!(bytes, cat(&[&[0, 0, 0, 4], &[0x11, 0x22, 0x33, 0x44]]));

    let decoded: GetOptionDescriptorsRequestBuf = decode_ok(&bytes);
    assert_eq!(request_buf, decoded);
}

#[test]
fn get_option_descriptors_reply() {
    let options = vec![
        util::ButtonOptionBuilder::new(cstr(OPT_NAME)).title(cstr(OPT_TITLE)).description(cstr(OPT_DESC)).build(),
        util::ButtonOptionBuilder::new(cstr(b"option-name-2")).build(),
    ];

    let mut reply_buf = GetOptionDescriptorsReplyBuf::new();
    reply_buf.set_option_descriptors(options);
    let reply = reply_buf.as_ref();

    assert_eq!(reply.to_debug_string(), "GetOptionDescriptorsReply {\n    option_descriptors: [\n        OptionDescriptor {\n            name: \"option-name\",\n            title: \"option-title\",\n            description: \"option-description\",\n            value_type: SANE_TYPE_BUTTON,\n            unit: SANE_UNIT_NONE,\n            size: 0,\n            capabilities: Capabilities {},\n            constraint: None,\n        },\n        OptionDescriptor {\n            name: \"option-name-2\",\n            title: \"\",\n            description: \"\",\n            value_type: SANE_TYPE_BUTTON,\n            unit: SANE_UNIT_NONE,\n            size: 0,\n            capabilities: Capabilities {},\n            constraint: None,\n        },\n    ],\n}");



    let bytes = encode_ok(reply);
    assert_eq!(
        bytes,
        cat(&[
            &[0, 0, 0, 3], // option_descriptors.len() + 1
            &[0, 0, 0, 0], // option_descriptors[0].is_null()
            &header(OPT_NAME, OPT_TITLE, OPT_DESC),
            &[0, 0, 0, 4], // BUTTON
            &[0, 0, 0, 0],
            &[0, 0, 0, 0],
            &[0, 0, 0, 0],
            &[0, 0, 0, 0],
            &[0, 0, 0, 0], // option_descriptors[1].is_null()
            &[0, 0, 0, 14],
            b"option-name-2\x00",
            &[0, 0, 0, 1],
            b"\x00",
            &[0, 0, 0, 1],
            b"\x00",
            &[0, 0, 0, 4], // BUTTON
            &[0, 0, 0, 0],
            &[0, 0, 0, 0],
            &[0, 0, 0, 0],
            &[0, 0, 0, 0],
            &[0, 0, 0, 1], // (NULL).is_null()
        ]),
    );

    let decoded: GetOptionDescriptorsReplyBuf = decode_ok(&bytes);
    assert_eq!(reply_buf, decoded);
}

#[test]
fn control_option_request_set_int() {
    let mut request_buf = ControlOptionRequestBuf::new();
    request_buf.set_handle(net::Handle(0x11223344));
    request_buf.set_option(0x55555555);
    request_buf.set_action(sane::Action::SET_VALUE);
    request_buf.set_value(OptionValueBuf::from_i32(0x66778899));
    let request = request_buf.as_ref();

    assert_eq!(request.to_debug_string(), "ControlOptionRequest {\n    handle: Handle(287454020),\n    option: 1431655765,\n    action: SANE_ACTION_SET_VALUE,\n    value_type: SANE_TYPE_INT,\n    value: [\n        102,\n        119,\n        136,\n        153,\n    ],\n}");



    let bytes = encode_ok(request);
    assert_eq!(
        bytes,
        cat(&[
            &[0, 0, 0, 5],             // SANE_NET_CONTROL_OPTION
            &[0x11, 0x22, 0x33, 0x44], // handle
            &[0x55, 0x55, 0x55, 0x55], // option
            &[0, 0, 0, 1],             // SANE_ACTION_SET_VALUE
            &[0, 0, 0, 1],             // value_type: INT
            &[0, 0, 0, 4],             // value size
            &[0, 0, 0, 1],             // value[-1]: word list length
            &[0x66, 0x77, 0x88, 0x99], // value[0]
        ]),
    );

    let decoded: ControlOptionRequestBuf = decode_ok(&bytes);
    assert_eq!(request_buf, decoded);
}

#[test]
fn control_option_request_set_string() {
    let mut request_buf = ControlOptionRequestBuf::new();
    request_buf.set_handle(net::Handle(0x11223344));
    request_buf.set_option(0x55555555);
    request_buf.set_action(sane::Action::SET_VALUE);
    request_buf.set_value(OptionValueBuf::from_cstring(cstr(b"abcd")));
    let request = request_buf.as_ref();

    assert_eq!(request.to_debug_string(), "ControlOptionRequest {\n    handle: Handle(287454020),\n    option: 1431655765,\n    action: SANE_ACTION_SET_VALUE,\n    value_type: SANE_TYPE_STRING,\n    value: [\n        97,\n        98,\n        99,\n        100,\n        0,\n    ],\n}");



    let bytes = encode_ok(request);
    assert_eq!(
        bytes,
        cat(&[
            &[0, 0, 0, 5],
            &[0x11, 0x22, 0x33, 0x44],
            &[0x55, 0x55, 0x55, 0x55],
            &[0, 0, 0, 1],
            &[0, 0, 0, 3], // value_type: STRING
            &[0, 0, 0, 5], // value size
            b"abcd\x00",
        ]),
    );

    let decoded: ControlOptionRequestBuf = decode_ok(&bytes);
    assert_eq!(request_buf, decoded);
}

#[test]
fn control_option_request_set_auto() {
    let mut request_buf = ControlOptionRequestBuf::new();
    request_buf.set_handle(net::Handle(0x11223344));
    request_buf.set_option(0x55555555);
    request_buf.set_action(sane::Action::SET_AUTO);
    let request = request_buf.as_ref();

    assert_eq!(request.to_debug_string(), "ControlOptionRequest {\n    handle: Handle(287454020),\n    option: 1431655765,\n    action: SANE_ACTION_SET_AUTO,\n    value_type: SANE_TYPE_BUTTON,\n    value: [],\n}");



    let bytes = encode_ok(request);
    assert_eq!(bytes, cat(&[&[0, 0, 0, 5], &[0x11, 0x22, 0x33, 0x44], &[0x55, 0x55, 0x55, 0x55], &[0, 0, 0, 2]]));

    let decoded: ControlOptionRequestBuf = decode_ok(&bytes);
    assert_eq!(request_buf, decoded);
}

#[test]
fn control_option_reply() {
    let mut reply_buf = ControlOptionReplyBuf::new();
    reply_buf.set_status(sane::Status::ACCESS_DENIED);
    reply_buf.set_info(0x55555555);
    reply_buf.set_value(OptionValueBuf::from_i32(0x66778899));
    reply_buf.set_resource(cstr(b"set-value-resource"));
    let reply = reply_buf.as_ref();

    assert_eq!(reply.to_debug_string(), "ControlOptionReply {\n    status: SANE_STATUS_ACCESS_DENIED,\n    info: 1431655765,\n    value_type: SANE_TYPE_INT,\n    value: [\n        102,\n        119,\n        136,\n        153,\n    ],\n    resource: \"set-value-resource\",\n}");



    let bytes = encode_ok(reply);
    assert_eq!(
        bytes,
        cat(&[
            &[0, 0, 0, 11],
            &[0x55, 0x55, 0x55, 0x55],
            &[0, 0, 0, 1],
            &[0, 0, 0, 4],
            &[0, 0, 0, 1],
            &[0x66, 0x77, 0x88, 0x99],
            &[0, 0, 0, 19],
            b"set-value-resource\x00",
        ]),
    );

    let decoded: ControlOptionReplyBuf = decode_ok(&bytes);
    assert_eq!(reply_buf, decoded);
}

fn encode_option_value(value: &OptionValueBuf) -> Vec<u8> {
    let mut request_buf = ControlOptionRequestBuf::new();
    request_buf.set_value(value.duplicate());
    let request_bytes = encode_ok(&request_buf);
    Vec::from(&request_bytes[16..])
}

fn decode_option_value(mut value_bytes: Vec<u8>) -> OptionValueBuf {
    let mut request_bytes = vec![0u8; 16];
    request_bytes.append(&mut value_bytes);
    let request_buf: ControlOptionRequestBuf = decode_ok(&request_bytes);
    let value = request_buf.value();
    let mut r = Codec::BINARY_V3.reader(encode_option_value_view(value));
    OptionValueBuf::read(&mut r).unwrap()
}

fn encode_option_value_view(value: net::OptionValue<'_>) -> Vec<u8> {
    let mut w = Codec::BINARY_V3.writer();
    value.encode(&mut w).unwrap();
    w.into_bytes()
}

#[test]
fn option_value_bool() {
    let value = OptionValueBuf::from_bool(true);
    assert_eq!(value.as_bytes(), &[0, 0, 0, 1]);

    let bytes = encode_option_value(&value);
    assert_eq!(bytes, cat(&[&[0, 0, 0, 0], &[0, 0, 0, 4], &[0, 0, 0, 1], &[0, 0, 0, 1]]));

    let decoded = decode_option_value(bytes);
    assert_eq!(value, decoded);
}

#[test]
fn option_value_int() {
    let value = OptionValueBuf::from_i32(0x11223344);
    assert_eq!(value.as_bytes(), &[0x11, 0x22, 0x33, 0x44]);

    let bytes = encode_option_value(&value);
    assert_eq!(bytes, cat(&[&[0, 0, 0, 1], &[0, 0, 0, 4], &[0, 0, 0, 1], &[0x11, 0x22, 0x33, 0x44]]));

    let decoded = decode_option_value(bytes);
    assert_eq!(value, decoded);
}

#[test]
fn option_value_int_list() {
    let value = OptionValueBuf::from_i32_list(&[0x11223344, 0x55667788]);
    assert_eq!(value.as_bytes(), cat(&[&[0x11, 0x22, 0x33, 0x44], &[0x55, 0x66, 0x77, 0x88]]));

    let bytes = encode_option_value(&value);
    assert_eq!(
        bytes,
        cat(&[&[0, 0, 0, 1], &[0, 0, 0, 8], &[0, 0, 0, 2], &[0x11, 0x22, 0x33, 0x44], &[0x55, 0x66, 0x77, 0x88]]),
    );

    let decoded = decode_option_value(bytes);
    assert_eq!(value, decoded);
}

#[test]
fn option_value_fixed() {
    let value = OptionValueBuf::from_fixed(Fixed::new(0x1122, 0x3344));
    assert_eq!(value.as_bytes(), &[0x11, 0x22, 0x33, 0x44]);

    let bytes = encode_option_value(&value);
    assert_eq!(bytes, cat(&[&[0, 0, 0, 2], &[0, 0, 0, 4], &[0, 0, 0, 1], &[0x11, 0x22, 0x33, 0x44]]));

    let decoded = decode_option_value(bytes);
    assert_eq!(value, decoded);
}

#[test]
fn option_value_fixed_list() {
    let value = OptionValueBuf::from_fixed_list(&[Fixed::new(0x1122, 0x3344), Fixed::new(0x5566, 0x7788)]);
    assert_eq!(value.as_bytes(), cat(&[&[0x11, 0x22, 0x33, 0x44], &[0x55, 0x66, 0x77, 0x88]]));

    let bytes = encode_option_value(&value);
    assert_eq!(
        bytes,
        cat(&[&[0, 0, 0, 2], &[0, 0, 0, 8], &[0, 0, 0, 2], &[0x11, 0x22, 0x33, 0x44], &[0x55, 0x66, 0x77, 0x88]]),
    );

    let decoded = decode_option_value(bytes);
    assert_eq!(value, decoded);
}

#[test]
fn option_value_string() {
    let value = OptionValueBuf::from_cstring(cstr(b"abcde"));
    assert_eq!(value.as_bytes(), b"abcde\x00");

    let bytes = encode_option_value(&value);
    assert_eq!(bytes, cat(&[&[0, 0, 0, 3], &[0, 0, 0, 6], b"abcde\x00"]));

    let decoded = decode_option_value(bytes);
    assert_eq!(value, decoded);
}

#[test]
fn option_value_string_size_extend() {
    let value = OptionValueBuf::from_cstring_with_size(cstr(b"a"), 6);
    assert_eq!(value.as_bytes(), b"a\x00\x00\x00\x00\x00");

    let bytes = encode_option_value(&value);
    assert_eq!(bytes, cat(&[&[0, 0, 0, 3], &[0, 0, 0, 6], b"a\x00\x00\x00\x00\x00"]));

    let decoded = decode_option_value(bytes);
    assert_eq!(value, decoded);
}

#[test]
fn get_parameters_request() {
    let mut request_buf = GetParametersRequestBuf::new();
    request_buf.set_handle(net::Handle(0x11223344));
    let request = request_buf.as_ref();

    assert_eq!(
        request.to_debug_string(),
        "GetParametersRequest {\n    handle: Handle(287454020),\n}",
    );

    let bytes = encode_ok(request);
    assert_eq!(bytes, cat(&[&[0, 0, 0, 6], &[0x11, 0x22, 0x33, 0x44]]));

    let decoded: GetParametersRequestBuf = decode_ok(&bytes);
    assert_eq!(request_buf, decoded);
}

#[test]
fn get_parameters_reply() {
    let mut params = sane::Parameters::new();
    params.format = sane::Frame::BLUE;
    params.last_frame = Bool::TRUE;
    params.bytes_per_line = Int::new(0x11111111);
    params.pixels_per_line = Int::new(0x22222222);
    params.lines = Int::new(0x33333333);
    params.depth = Int::new(0x44444444);

    let mut reply_buf = GetParametersReplyBuf::new();
    reply_buf.set_status(sane::Status::ACCESS_DENIED);
    reply_buf.set_parameters(params);
    let reply = reply_buf.as_ref();

    assert_eq!(reply.to_debug_string(), "GetParametersReply {\n    status: SANE_STATUS_ACCESS_DENIED,\n    parameters: SANE_Parameters {\n        format: SANE_FRAME_BLUE,\n        last_frame: SANE_TRUE,\n        bytes_per_line: SANE_Int(286331153),\n        pixels_per_line: SANE_Int(572662306),\n        lines: SANE_Int(858993459),\n        depth: SANE_Int(1145324612),\n    },\n}");



    let bytes = encode_ok(reply);
    assert_eq!(
        bytes,
        cat(&[
            &[0, 0, 0, 11],
            &[0, 0, 0, 4],
            &[0, 0, 0, 1],
            &[0x11; 4],
            &[0x22; 4],
            &[0x33; 4],
            &[0x44; 4],
        ]),
    );

    let decoded: GetParametersReplyBuf = decode_ok(&bytes);
    assert_eq!(reply_buf, decoded);
}

#[test]
fn start_request() {
    let mut request_buf = StartRequestBuf::new();
    request_buf.set_handle(net::Handle(0x11223344));
    let request = request_buf.as_ref();

    assert_eq!(request.to_debug_string(), "StartRequest {\n    handle: Handle(287454020),\n}");

    let bytes = encode_ok(request);
    assert_eq!(bytes, cat(&[&[0, 0, 0, 7], &[0x11, 0x22, 0x33, 0x44]]));

    let decoded: StartRequestBuf = decode_ok(&bytes);
    assert_eq!(request_buf, decoded);
}

#[test]
fn start_reply() {
    let mut reply_buf = StartReplyBuf::new();
    reply_buf.set_status(sane::Status::ACCESS_DENIED);
    reply_buf.set_port(0x2233);
    reply_buf.set_byte_order(ByteOrder::LITTLE_ENDIAN);
    reply_buf.set_resource(cstr(b"start-resource"));
    let reply = reply_buf.as_ref();

    let bytes = encode_ok(reply);
    assert_eq!(
        bytes,
        cat(&[&[0, 0, 0, 11], &[0, 0, 0x22, 0x33], &[0, 0, 0x12, 0x34], &[0, 0, 0, 15], b"start-resource\x00"]),
    );

    let decoded: StartReplyBuf = decode_ok(&bytes);
    assert_eq!(reply_buf, decoded);
}

#[test]
fn cancel_request() {
    let mut request_buf = CancelRequestBuf::new();
    request_buf.set_handle(net::Handle(0x11223344));
    let request = request_buf.as_ref();

    assert_eq!(request.to_debug_string(), "CancelRequest {\n    handle: Handle(287454020),\n}");

    let bytes = encode_ok(request);
    assert_eq!(bytes, cat(&[&[0, 0, 0, 8], &[0x11, 0x22, 0x33, 0x44]]));

    let decoded: CancelRequestBuf = decode_ok(&bytes);
    assert_eq!(request_buf, decoded);
}

#[test]
fn cancel_reply() {
    let reply_buf = CancelReplyBuf::new();
    let reply = reply_buf.as_ref();

    assert_eq!(reply.to_debug_string(), "CancelReply");

    let bytes = encode_ok(reply);
    assert_eq!(bytes, &[0, 0, 0, 0]);

    let decoded: CancelReplyBuf = decode_ok(&bytes);
    assert_eq!(reply_buf, decoded);
}

#[test]
fn authorize_request() {
    let mut request_buf = AuthorizeRequestBuf::new();
    request_buf.set_resource(cstr(b"auth-resource"));
    request_buf.set_username(cstr(b"auth-username"));
    request_buf.set_password(cstr(b"auth-password"));
    let request = request_buf.as_ref();

    assert_eq!(request.to_debug_string(), "AuthorizeRequest {\n    resource: \"auth-resource\",\n    username: \"auth-username\",\n    password: \"auth-password\",\n}");



    let bytes = encode_ok(request);
    assert_eq!(
        bytes,
        cat(&[
            &[0, 0, 0, 9],
            &[0, 0, 0, 14],
            b"auth-resource\x00",
            &[0, 0, 0, 14],
            b"auth-username\x00",
            &[0, 0, 0, 14],
            b"auth-password\x00",
        ]),
    );

    let decoded: AuthorizeRequestBuf = decode_ok(&bytes);
    assert_eq!(request_buf, decoded);
}

#[test]
fn authorize_reply() {
    let reply_buf = AuthorizeReplyBuf::new();
    let reply = reply_buf.as_ref();

    assert_eq!(reply.to_debug_string(), "AuthorizeReply");

    let bytes = encode_ok(reply);
    assert_eq!(bytes, &[0, 0, 0, 0]);

    let decoded: AuthorizeReplyBuf = decode_ok(&bytes);
    assert_eq!(reply_buf, decoded);
}

#[test]
fn short_input_is_an_io_error() {
    let err = decode_err::<Word>(b"\x12\x34");
    assert_eq!(err, DecodeError::IoError(IoError::UnexpectedEof));
}
