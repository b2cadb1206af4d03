use sane::util::{
    self, BoolOptionBuilder, ButtonOptionBuilder, Capabilities, Constraint, FixedOptionBuilder, GroupOptionBuilder,
    IntOptionBuilder, StringOptionBuilder,
};
use sane::{CString, Fixed, Unit, ValueType, Word};

fn cstr(bytes: &[u8]) -> CString {
    CString::new(bytes.to_vec()).unwrap()
}

const DEV_NAME: &[u8] = b"device-name";
const DEV_VENDOR: &[u8] = b"device-vendor";
const DEV_MODEL: &[u8] = b"device-model";
const DEV_TYPE: &[u8] = b"device-type";

const OPT_NAME: &[u8] = b"option-name";
const OPT_TITLE: &[u8] = b"option-title";
const OPT_DESC: &[u8] = b"option-description";

fn cap(bits: u32) -> Capabilities {
    Capabilities::from_word(Word::new(bits))
}

#[test]
fn util_test_util_device() {
    let mut device = util::DeviceBuf::new(cstr(DEV_NAME));
    device.set_vendor(cstr(DEV_VENDOR));
    device.set_model(cstr(DEV_MODEL));
    device.set_kind(cstr(DEV_TYPE));
    let device = device.as_ref();

    assert_eq!(device.name().as_bytes(), DEV_NAME);
    assert_eq!(device.vendor().as_bytes(), DEV_VENDOR);
    assert_eq!(device.model().as_bytes(), DEV_MODEL);
    assert_eq!(device.kind().as_bytes(), DEV_TYPE);

    assert_eq!(device.to_debug_string(), "Device {\n    name: \"device-name\",\n    vendor: \"device-vendor\",\n    model: \"device-model\",\n    kind: \"device-type\",\n}");
}

#[test]
fn util_device_buf() {
    let mut device = util::DeviceBuf::new(cstr(DEV_NAME));
    assert_eq!(device.name().as_bytes(), DEV_NAME);

    device.set_name(cstr(b"device-name-2"));
    assert_eq!(device.name().as_bytes(), b"device-name-2");

    device.set_vendor(cstr(DEV_VENDOR));
    assert_eq!(device.vendor().as_bytes(), DEV_VENDOR);

    device.set_model(cstr(DEV_MODEL));
    assert_eq!(device.model().as_bytes(), DEV_MODEL);

    device.set_kind(cstr(DEV_TYPE));
    assert_eq!(device.kind().as_bytes(), DEV_TYPE);
}

#[test]
fn util_devices_buf() {
    let mut devices_buf = util::DevicesBuf::new();
    assert_eq!(devices_buf.len(), 0);

    let mut device = util::DeviceBuf::new(cstr(DEV_NAME));
    device.set_vendor(cstr(DEV_VENDOR));
    device.set_model(cstr(DEV_MODEL));
    device.set_kind(cstr(DEV_TYPE));
    devices_buf.push(device);
    devices_buf.push(util::DeviceBuf::new(cstr(b"device-name-2")));
    assert_eq!(devices_buf.len(), 2);

    let mut iter = devices_buf.iter();
    let first = iter.next().unwrap();
    assert_eq!(first.name().as_bytes(), DEV_NAME);
    assert_eq!(first.kind().as_bytes(), DEV_TYPE);
    let second = iter.next().unwrap();
    assert_eq!(second.name().as_bytes(), b"device-name-2");
    assert_eq!(second.vendor().as_bytes(), b"");
    assert!(iter.next().is_none());
}

#[test]
fn util_option_descriptor() {
    let option = IntOptionBuilder::new(cstr(OPT_NAME))
        .title(cstr(OPT_TITLE))
        .description(cstr(OPT_DESC))
        .unit(Unit::PIXEL)
        .build();
    let option = option.as_ref();

    assert_eq!(option.name().as_bytes(), OPT_NAME);
    assert_eq!(option.title().as_bytes(), OPT_TITLE);
    assert_eq!(option.description().as_bytes(), OPT_DESC);
    assert_eq!(option.value_type(), ValueType::INT);
    assert_eq!(option.unit(), Unit::PIXEL);
    assert_eq!(option.size(), 4);
    assert_eq!(option.capabilities(), Capabilities::none());
    assert_eq!(option.constraint(), &Constraint::Unconstrained);
    assert_eq!(option.to_debug_string(), "OptionDescriptor {\n    name: \"option-name\",\n    title: \"option-title\",\n    description: \"option-description\",\n    value_type: SANE_TYPE_INT,\n    unit: SANE_UNIT_PIXEL,\n    size: 4,\n    capabilities: Capabilities {},\n    constraint: None,\n}");
}

#[test]
fn bool_option_builder() {
    let mut caps = Capabilities::none();
    caps.set_emulated(true);
    let option = BoolOptionBuilder::new(cstr(OPT_NAME))
        .title(cstr(OPT_TITLE))
        .description(cstr(OPT_DESC))
        .capabilities(caps)
        .build();

    assert_eq!(option.name().as_bytes(), OPT_NAME);
    assert_eq!(option.title().as_bytes(), OPT_TITLE);
    assert_eq!(option.description().as_bytes(), OPT_DESC);
    assert_eq!(option.value_type(), ValueType::BOOL);
    assert_eq!(option.unit(), Unit::NONE);
    assert_eq!(option.size(), 4);
    assert_eq!(option.capabilities().to_debug_string(), "Capabilities {SANE_CAP_EMULATED}");
    assert_eq!(option.constraint(), &Constraint::Unconstrained);
    assert_eq!(option.to_debug_string(), "OptionDescriptor {\n    name: \"option-name\",\n    title: \"option-title\",\n    description: \"option-description\",\n    value_type: SANE_TYPE_BOOL,\n    unit: SANE_UNIT_NONE,\n    size: 4,\n    capabilities: Capabilities {\n        SANE_CAP_EMULATED,\n    },\n    constraint: None,\n}");
}

#[test]
fn int_option_builder() {
    let mut caps = Capabilities::none();
    caps.set_emulated(true);
    let option = IntOptionBuilder::new(cstr(OPT_NAME))
        .title(cstr(OPT_TITLE))
        .description(cstr(OPT_DESC))
        .unit(Unit::PIXEL)
        .capabilities(caps)
        .build();

    assert_eq!(option.name().as_bytes(), OPT_NAME);
    assert_eq!(option.value_type(), ValueType::INT);
    assert_eq!(option.unit(), Unit::PIXEL);
    assert_eq!(option.size(), 4);
    assert!(option.capabilities().is_emulated());
    assert_eq!(option.constraint(), &Constraint::Unconstrained);
    assert_eq!(option.to_debug_string(), "OptionDescriptor {\n    name: \"option-name\",\n    title: \"option-title\",\n    description: \"option-description\",\n    value_type: SANE_TYPE_INT,\n    unit: SANE_UNIT_PIXEL,\n    size: 4,\n    capabilities: Capabilities {\n        SANE_CAP_EMULATED,\n    },\n    constraint: None,\n}");
}

#[test]
fn int_option_builder_count() {
    let option = IntOptionBuilder::new(cstr(OPT_NAME)).count(123).build();
    assert_eq!(option.size(), 123 * 4);
}

#[test]
fn int_option_builder_range() {
    let option = IntOptionBuilder::new(cstr(OPT_NAME)).range(0, 100, 1).build();
    assert_eq!(
        option.constraint().to_debug_string(),
        "Range {\n    min: SANE_Int(0),\n    max: SANE_Int(100),\n    quant: SANE_Int(1),\n}",
    );
    match option.constraint() {
        Constraint::IntRange(range) => {
            assert_eq!(range.min, Word::new(0));
            assert_eq!(range.max, Word::new(100));
            assert_eq!(range.quant, Word::new(1));
        },
        other => panic!("unexpected constraint {:?}", other),
    }
}

#[test]
fn int_option_builder_values() {
    let option = IntOptionBuilder::new(cstr(OPT_NAME)).values(&[1, 2, 3]).build();
    assert_eq!(option.constraint().to_debug_string(), "[\n    SANE_Int(1),\n    SANE_Int(2),\n    SANE_Int(3),\n]");
    match option.constraint() {
        Constraint::IntList(values) => {
            assert_eq!(values.len(), 3);
            assert_eq!(values.get(0), Word::new(1));
            assert_eq!(values.get(1), Word::new(2));
            assert_eq!(values.get(2), Word::new(3));
        },
        other => panic!("unexpected constraint {:?}", other),
    }
}

#[test]
fn fixed_option_builder() {
    let mut caps = Capabilities::none();
    caps.set_emulated(true);
    let option = FixedOptionBuilder::new(cstr(OPT_NAME))
        .title(cstr(OPT_TITLE))
        .description(cstr(OPT_DESC))
        .unit(Unit::PIXEL)
        .capabilities(caps)
        .build();

    assert_eq!(option.value_type(), ValueType::FIXED);
    assert_eq!(option.unit(), Unit::PIXEL);
    assert_eq!(option.size(), 4);
    assert!(option.capabilities().is_emulated());
    assert_eq!(option.constraint(), &Constraint::Unconstrained);
    assert_eq!(option.to_debug_string(), "OptionDescriptor {\n    name: \"option-name\",\n    title: \"option-title\",\n    description: \"option-description\",\n    value_type: SANE_TYPE_FIXED,\n    unit: SANE_UNIT_PIXEL,\n    size: 4,\n    capabilities: Capabilities {\n        SANE_CAP_EMULATED,\n    },\n    constraint: None,\n}");
}

#[test]
fn fixed_option_builder_count() {
    let option = FixedOptionBuilder::new(cstr(OPT_NAME)).count(123).build();
    assert_eq!(option.size(), 123 * 4);
}

#[test]
fn fixed_option_builder_range() {
    let option = FixedOptionBuilder::new(cstr(OPT_NAME))
        .range(Fixed::new(0, 0), Fixed::new(100, 0), Fixed::new(1, 0))
        .build();
    assert_eq!(
        option.constraint().to_debug_string(),
        "Range {\n    min: SANE_Fixed(0.0),\n    max: SANE_Fixed(100.0),\n    quant: SANE_Fixed(1.0),\n}",
    );
    match option.constraint() {
        Constraint::FixedRange(range) => {
            assert_eq!(Fixed::from_word(range.min).to_debug_string(), "SANE_Fixed(0.0)");
            assert_eq!(Fixed::from_word(range.max).to_debug_string(), "SANE_Fixed(100.0)");
            assert_eq!(Fixed::from_word(range.quant).to_debug_string(), "SANE_Fixed(1.0)");
        },
        other => panic!("unexpected constraint {:?}", other),
    }
}

#[test]
fn fixed_option_builder_values() {
    let option = FixedOptionBuilder::new(cstr(OPT_NAME))
        .values(&[Fixed::new(1, 0), Fixed::new(2, 0), Fixed::new(3, 0)])
        .build();
    assert_eq!(
        option.constraint().to_debug_string(),
        "[\n    SANE_Fixed(1.0),\n    SANE_Fixed(2.0),\n    SANE_Fixed(3.0),\n]",
    );
    match option.constraint() {
        Constraint::FixedList(values) => {
            let mut iter = values.iter();
            assert_eq!(Fixed::from_word(iter.next().unwrap()).to_debug_string(), "SANE_Fixed(1.0)");
            assert_eq!(Fixed::from_word(iter.next().unwrap()).to_debug_string(), "SANE_Fixed(2.0)");
            assert_eq!(Fixed::from_word(iter.next().unwrap()).to_debug_string(), "SANE_Fixed(3.0)");
            assert!(iter.next().is_none());
        },
        other => panic!("unexpected constraint {:?}", other),
    }
}

#[test]
fn string_option_builder() {
    let mut caps = Capabilities::none();
    caps.set_emulated(true);
    let option = StringOptionBuilder::new(cstr(OPT_NAME), 1234)
        .title(cstr(OPT_TITLE))
        .description(cstr(OPT_DESC))
        .unit(Unit::PIXEL)
        .capabilities(caps)
        .build();

    assert_eq!(option.value_type(), ValueType::STRING);
    assert_eq!(option.unit(), Unit::PIXEL);
    assert_eq!(option.size(), 1234);
    assert!(option.capabilities().is_emulated());
    assert_eq!(option.constraint(), &Constraint::Unconstrained);
    assert_eq!(option.to_debug_string(), "OptionDescriptor {\n    name: \"option-name\",\n    title: \"option-title\",\n    description: \"option-description\",\n    value_type: SANE_TYPE_STRING,\n    unit: SANE_UNIT_PIXEL,\n    size: 1234,\n    capabilities: Capabilities {\n        SANE_CAP_EMULATED,\n    },\n    constraint: None,\n}");
}

#[test]
fn string_option_builder_values() {
    let option = StringOptionBuilder::new(cstr(OPT_NAME), 1234)
        .values(vec![cstr(b"aaa"), cstr(b"bbb"), cstr(b"ccc")])
        .build();
    assert_eq!(option.constraint().to_debug_string(), "[\n    \"aaa\",\n    \"bbb\",\n    \"ccc\",\n]");
    match option.constraint() {
        Constraint::StringList(values) => {
            let mut iter = values.iter();
            assert_eq!(iter.next().unwrap().as_bytes(), b"aaa");
            assert_eq!(iter.next().unwrap().as_bytes(), b"bbb");
            assert_eq!(iter.next().unwrap().as_bytes(), b"ccc");
            assert!(iter.next().is_none());
        },
        other => panic!("unexpected constraint {:?}", other),
    }
}

#[test]
fn button_option_builder() {
    let mut caps = Capabilities::none();
    caps.set_emulated(true);
    let option = ButtonOptionBuilder::new(cstr(OPT_NAME))
        .title(cstr(OPT_TITLE))
        .description(cstr(OPT_DESC))
        .capabilities(caps)
        .build();

    assert_eq!(option.value_type(), ValueType::BUTTON);
    assert_eq!(option.unit(), Unit::NONE);
    assert_eq!(option.size(), 0);
    assert!(option.capabilities().is_emulated());
    assert_eq!(option.constraint(), &Constraint::Unconstrained);
    assert_eq!(option.to_debug_string(), "OptionDescriptor {\n    name: \"option-name\",\n    title: \"option-title\",\n    description: \"option-description\",\n    value_type: SANE_TYPE_BUTTON,\n    unit: SANE_UNIT_NONE,\n    size: 0,\n    capabilities: Capabilities {\n        SANE_CAP_EMULATED,\n    },\n    constraint: None,\n}");
}

#[test]
fn group_option_builder() {
    let option = GroupOptionBuilder::new().title(cstr(OPT_TITLE)).description(cstr(OPT_DESC)).build();

    assert_eq!(option.name().as_bytes(), b"");
    assert_eq!(option.title().as_bytes(), OPT_TITLE);
    assert_eq!(option.description().as_bytes(), OPT_DESC);
    assert_eq!(option.value_type(), ValueType::GROUP);
    assert_eq!(option.unit(), Unit::NONE);
    assert_eq!(option.size(), 0);
    assert_eq!(option.capabilities().to_debug_string(), "Capabilities {}");
    assert_eq!(option.constraint(), &Constraint::Unconstrained);
    assert_eq!(option.to_debug_string(), "OptionDescriptor {\n    name: \"\",\n    title: \"option-title\",\n    description: \"option-description\",\n    value_type: SANE_TYPE_GROUP,\n    unit: SANE_UNIT_NONE,\n    size: 0,\n    capabilities: Capabilities {},\n    constraint: None,\n}");
}

#[test]
fn util_capabilities() {
    assert!(Capabilities::soft_select().can_soft_select());
    assert!(Capabilities::soft_select().can_soft_detect());

    assert!(Capabilities::hard_select().can_hard_select());

    // Interactions between SOFT_SELECT, HARD_SELECT, and SOFT_DETECT
    {
        let mut caps;

        caps = Capabilities::soft_select();
        assert!(caps.can_soft_detect());
        caps.set_soft_detect(false); // ignored for SOFT_SELECT
        assert!(caps.can_soft_detect());

        caps = Capabilities::hard_select();
        assert!(!caps.can_soft_detect());
        caps.set_soft_detect(true);
        assert!(caps.can_soft_detect());
        caps.set_soft_detect(false);
        assert!(!caps.can_soft_detect());

        caps = Capabilities::none();
        assert!(!caps.can_soft_detect());
        caps.set_soft_detect(true);
        assert!(caps.can_soft_detect());
        caps.set_soft_detect(false);
        assert!(!caps.can_soft_detect());
    }

    // Bits are set appropriately
    {
        let mut caps;

        caps = Capabilities::none();
        assert!(!caps.is_emulated());
        caps.set_emulated(true);
        assert!(caps.is_emulated());

        caps = Capabilities::none();
        assert!(!caps.is_automatic());
        caps.set_automatic(true);
        assert!(caps.is_automatic());

        caps = Capabilities::none();
        assert!(caps.is_active());
        caps.set_active(false);
        assert!(!caps.is_active());

        caps = Capabilities::none();
        assert!(!caps.is_advanced());
        caps.set_advanced(true);
        assert!(caps.is_advanced());
    }

    assert_eq!(cap(0).to_debug_string(), "Capabilities {}");
    assert_eq!(cap(sane::CAP_SOFT_SELECT).to_debug_string(), "Capabilities {SANE_CAP_SOFT_SELECT}");
    assert_eq!(cap(sane::CAP_HARD_SELECT).to_debug_string(), "Capabilities {SANE_CAP_HARD_SELECT}");
    assert_eq!(cap(sane::CAP_SOFT_DETECT).to_debug_string(), "Capabilities {SANE_CAP_SOFT_DETECT}");
    assert_eq!(cap(sane::CAP_EMULATED).to_debug_string(), "Capabilities {SANE_CAP_EMULATED}");
    assert_eq!(cap(sane::CAP_AUTOMATIC).to_debug_string(), "Capabilities {SANE_CAP_AUTOMATIC}");
    assert_eq!(cap(sane::CAP_INACTIVE).to_debug_string(), "Capabilities {SANE_CAP_INACTIVE}");
    assert_eq!(cap(sane::CAP_ADVANCED).to_debug_string(), "Capabilities {SANE_CAP_ADVANCED}");
    assert_eq!(cap(1u32 << 31).to_debug_string(), "Capabilities {0x80000000}");
}

#[test]
fn capabilities_several_bits() {
    assert_eq!(Capabilities::soft_select().to_debug_string(), "Capabilities {SANE_CAP_SOFT_SELECT, SANE_CAP_SOFT_DETECT}");
    assert_eq!(cap(0x80).to_debug_string(), "Capabilities {0x00000080}");
    assert_eq!(Capabilities::soft_select().as_word(), Word::new(0b101));
}

#[test]
fn util_word_list() {
    let option = IntOptionBuilder::new(cstr(OPT_NAME)).values(&[10, 20, 30]).build();
    match option.constraint() {
        Constraint::IntList(values) => {
            let mut iter = values.iter();
            assert_eq!(iter.next(), Some(Word::new(10)));
            assert_eq!(iter.next(), Some(Word::new(20)));
            assert_eq!(iter.next(), Some(Word::new(30)));
            assert_eq!(iter.next(), None);
        },
        other => panic!("unexpected constraint {:?}", other),
    }
}

#[test]
fn util_string_list() {
    let option = StringOptionBuilder::new(cstr(OPT_NAME), 4)
        .values(vec![cstr(b"aaa"), cstr(b"bbb"), cstr(b"ccc")])
        .build();
    match option.constraint() {
        Constraint::StringList(values) => {
            assert_eq!(values.len(), 3);
            assert_eq!(values.get(0).as_bytes(), b"aaa");
            assert_eq!(values.get(1).as_bytes(), b"bbb");
            assert_eq!(values.get(2).as_bytes(), b"ccc");
        },
        other => panic!("unexpected constraint {:?}", other),
    }
}

#[test]
fn debug_escapes_bytes() {
    let mut dev = util::DeviceBuf::new(cstr(b"a\"b\\c\td\x7f\xc3"));
    dev.set_kind(cstr(b"'"));
    assert_eq!(
        dev.as_ref().to_debug_string(),
        "Device {\n    name: \"a\\\"b\\\\c\\td\\x7f\\xc3\",\n    vendor: \"\",\n    model: \"\",\n    kind: \"\\'\",\n}",
    );
}

#[test]
fn cstring_rejects_nul() {
    let err = CString::new(b"ab\x00c".to_vec()).unwrap_err();
    assert_eq!(err, sane::NulError(2));
    assert!(CString::new(Vec::new()).unwrap().is_empty());
}
