use sane::{Action, Bool, ConstraintType, Fixed, Frame, Int, Status, Unit, ValueType, Word};

#[test]
fn version_code() {
    assert_eq!(sane::version_code(0x12, 0x34, 0x5678), 0x12345678);

    assert_eq!(sane::version_major(0x12345678), 0x12);
    assert_eq!(sane::version_minor(0x12345678), 0x34);
    assert_eq!(sane::version_build(0x12345678), 0x5678);
}

#[test]
fn sane_test_sane_word() {
    let word_0 = Word::new(0);
    assert_eq!(word_0.as_u32(), 0u32);
    assert_eq!(word_0.to_debug_string(), "SANE_Word(0)");

    let word_max = Word::new(u32::MAX);
    assert_eq!(word_max.as_u32(), u32::MAX);
    assert_eq!(word_max.to_debug_string(), "SANE_Word(4294967295)");

    assert_eq!(Word::from(u32::MAX), Word::new(u32::MAX));
}

#[test]
fn sane_test_sane_bool() {
    assert_eq!(Bool::from(false), Bool::FALSE);
    assert_eq!(Bool::from(true), Bool::TRUE);

    assert_eq!(Bool::FALSE.to_debug_string(), "SANE_FALSE");
    assert_eq!(Bool::TRUE.to_debug_string(), "SANE_TRUE");

    assert_eq!(Bool::TRUE.as_word(), Word::new(1));
}

#[test]
fn sane_test_sane_int() {
    assert_eq!(Int::new(0).to_debug_string(), "SANE_Int(0)");
    assert_eq!(Int::new(-1).to_debug_string(), "SANE_Int(-1)");

    assert_eq!(Int::from(i32::MAX), Int::new(i32::MAX));
    assert_eq!(Int::from(i32::MAX).as_i32(), i32::MAX);
    assert_eq!(Int::from(i32::MAX).as_word(), Word::new(i32::MAX as u32));
}

fn as_f64(f: Fixed) -> f64 {
    f.as_raw() as f64 / 65536.0
}

#[test]
fn sane_test_sane_fixed() {
    assert_eq!(0.0_f64, as_f64(Fixed::new(0, 0)));
    assert_eq!(1.0_f64, as_f64(Fixed::new(1, 0)));
    assert_eq!(-1.0_f64, as_f64(Fixed::new(-1, 0)));

    assert_eq!(1.0_f64 / 65536_f64, as_f64(Fixed::new(0, 1)));
    assert_eq!(1.5_f64, as_f64(Fixed::new(1, 32768)));

    assert_eq!(Fixed::new(0, 0).to_debug_string(), "SANE_Fixed(0.0)");
    assert_eq!(Fixed::new(1, 0).to_debug_string(), "SANE_Fixed(1.0)");
    assert_eq!(Fixed::new(-1, 0).to_debug_string(), "SANE_Fixed(-1.0)");
    assert_eq!(Fixed::new(0, 1).to_debug_string(), "SANE_Fixed(0.0000152587890625)");
    assert_eq!(Fixed::new(1, 32768).to_debug_string(), "SANE_Fixed(1.5)");

    assert_eq!(Fixed::new(1, 32768).as_word(), Word::new((1 << 16) | 32768));
}

#[test]
fn fixed_raw_values() {
    assert_eq!(Fixed::new(1, 32768).as_raw(), 98304);
    assert_eq!(Fixed::new(0, 1).as_raw(), 1);
    assert_eq!(Fixed::new(-1, 0).as_raw(), -65536);
    assert_eq!(Fixed::new(-32768, 0).as_raw(), i32::MIN);
    assert_eq!(Fixed::new(32767, 65535).as_raw(), i32::MAX);
    assert_eq!(Fixed::new(100, 0).to_debug_string(), "SANE_Fixed(100.0)");
    assert_eq!(Fixed::new(-10, 0).to_debug_string(), "SANE_Fixed(-10.0)");
    assert_eq!(Fixed::new(0, 32768).to_debug_string(), "SANE_Fixed(0.5)");
}

#[test]
fn sane_status() {
    assert_eq!(Status::GOOD, Status::GOOD);
    assert_eq!(Status::GOOD.to_debug_string(), "SANE_STATUS_GOOD");

    let status_unknown_word = Word::new(0x12345678);
    let status_unknown = Status::from_word(status_unknown_word);
    assert_eq!(status_unknown.as_word(), status_unknown_word);
    assert_eq!(status_unknown.to_debug_string(), "SANE_Status(0x12345678)");
}

#[test]
fn sane_value_type() {
    assert_eq!(ValueType::BOOL, ValueType::BOOL);
    assert_eq!(ValueType::BOOL.to_debug_string(), "SANE_TYPE_BOOL");

    let unknown_word = Word::new(0x12345678);
    let unknown = ValueType::from_word(unknown_word);
    assert_eq!(unknown.as_word(), unknown_word);
    assert_eq!(unknown.to_debug_string(), "SANE_Value_Type(0x12345678)");
}

#[test]
fn sane_unit() {
    assert_eq!(Unit::NONE, Unit::NONE);
    assert_eq!(Unit::NONE.to_debug_string(), "SANE_UNIT_NONE");

    let unknown_word = Word::new(0x12345678);
    let unknown = Unit::from_word(unknown_word);
    assert_eq!(unknown.as_word(), unknown_word);
    assert_eq!(unknown.to_debug_string(), "SANE_Unit(0x12345678)");
}

#[test]
fn sane_constraint_type() {
    assert_eq!(ConstraintType::NONE, ConstraintType::NONE);
    assert_eq!(ConstraintType::NONE.to_debug_string(), "SANE_CONSTRAINT_NONE");

    let unknown_word = Word::new(0x12345678);
    let unknown = ConstraintType::from_word(unknown_word);
    assert_eq!(unknown.as_word(), unknown_word);
    assert_eq!(unknown.to_debug_string(), "SANE_Constraint_Type(0x12345678)");
}

#[test]
fn sane_action() {
    assert_eq!(Action::GET_VALUE, Action::GET_VALUE);
    assert_eq!(Action::GET_VALUE.to_debug_string(), "SANE_ACTION_GET_VALUE");

    let unknown_word = Word::new(0x12345678);
    let unknown = Action::from_word(unknown_word);
    assert_eq!(unknown.as_word(), unknown_word);
    assert_eq!(unknown.to_debug_string(), "SANE_Action(0x12345678)");
}

#[test]
fn sane_frame() {
    assert_eq!(Frame::GRAY, Frame::GRAY);
    assert_eq!(Frame::GRAY.to_debug_string(), "SANE_FRAME_GRAY");

    let unknown_word = Word::new(0x12345678);
    let unknown = Frame::from_word(unknown_word);
    assert_eq!(unknown.as_word(), unknown_word);
    assert_eq!(unknown.to_debug_string(), "SANE_Frame(0x12345678)");
}

#[test]
fn sane_test_sane_range() {
    let mut range = sane::Range::new();
    range.min = Word::new(100);
    range.max = Word::new(200);
    range.quant = Word::new(10);
    assert_eq!(range.min.as_u32(), 100);
    assert_eq!(range.max.as_u32(), 200);
    assert_eq!(range.quant.as_u32(), 10);
    assert_eq!(range.to_debug_string(), "SANE_Range {\n    min: SANE_Word(100),\n    max: SANE_Word(200),\n    quant: SANE_Word(10),\n}");
    assert_eq!(range, range.clone());
}

#[test]
fn sane_test_sane_parameters() {
    let params = sane::Parameters::new();
    assert_eq!(params.format, Frame::GRAY);
    assert_eq!(params.last_frame, Bool::FALSE);
    assert_eq!(params.bytes_per_line, Int::new(0));
    assert_eq!(params.pixels_per_line, Int::new(0));
    assert_eq!(params.lines, Int::new(0));
    assert_eq!(params.depth, Int::new(0));
    assert_eq!(
        params.to_debug_string(),
        "SANE_Parameters {\n    format: SANE_FRAME_GRAY,\n    last_frame: SANE_FALSE,\n    bytes_per_line: SANE_Int(0),\n    pixels_per_line: SANE_Int(0),\n    lines: SANE_Int(0),\n    depth: SANE_Int(0),\n}",
    );
}

#[test]
fn version_parts_edges() {
    assert_eq!(sane::version_code(0, 0, 0), 0);
    assert_eq!(sane::version_code(0xFF, 0xFF, 0xFFFF), u32::MAX);
    assert_eq!(sane::version_code(1, 1, 3), sane::net::VERSION_CODE);
    assert_eq!(sane::version_major(sane::net::VERSION_CODE), 1);
    assert_eq!(sane::version_minor(sane::net::VERSION_CODE), 1);
    assert_eq!(sane::version_build(sane::net::VERSION_CODE), 3);
}
