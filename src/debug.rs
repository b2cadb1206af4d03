//! Text forms of protocol values, as their debug output shows them.

use vstd::prelude::*;
use vstd::string::*;

verus! {

/// The character of a digit below sixteen, upper case.
pub open spec fn digit_char(d: nat) -> char {
    if d == 0 {
        '0'
    } else if d == 1 {
        '1'
    } else if d == 2 {
        '2'
    } else if d == 3 {
        '3'
    } else if d == 4 {
        '4'
    } else if d == 5 {
        '5'
    } else if d == 6 {
        '6'
    } else if d == 7 {
        '7'
    } else if d == 8 {
        '8'
    } else if d == 9 {
        '9'
    } else if d == 10 {
        'A'
    } else if d == 11 {
        'B'
    } else if d == 12 {
        'C'
    } else if d == 13 {
        'D'
    } else if d == 14 {
        'E'
    } else {
        'F'
    }
}

/// Digits of `n` in base 16, upper case, without leading zeros.
pub open spec fn hex_digits(n: nat) -> Seq<char>
    decreases n,
{
    if n < 16 {
        seq![digit_char(n)]
    } else {
        hex_digits(n / 16).push(digit_char(n % 16))
    }
}

/// Digits of `n` in base 10, without leading zeros.
pub open spec fn dec_digits(n: nat) -> Seq<char>
    decreases n,
{
    if n < 10 {
        seq![digit_char(n)]
    } else {
        dec_digits(n / 10).push(digit_char(n % 10))
    }
}

/// A signed integer in base 10, with a leading `-` when negative.
pub open spec fn dec_signed(n: int) -> Seq<char> {
    if n < 0 {
        seq!['-'] + dec_digits((-n) as nat)
    } else {
        dec_digits(n as nat)
    }
}

/// `n` as Rust's `{:#X}` writes it.
pub open spec fn hex_prefixed(n: nat) -> Seq<char> {
    seq!['0', 'x'] + hex_digits(n)
}

/// The debug form of an enumerated value: its name when it has one, else
/// the type's name around the code in hexadecimal.
pub open spec fn debug_enum(name: Option<Seq<char>>, kind_name: Seq<char>, code: u32) -> Seq<char> {
    match name {
        Some(n) => n,
        None => kind_name + seq!['('] + hex_prefixed(code as nat) + seq![')'],
    }
}

pub(crate) fn digit_str(d: u32) -> (r: &'static str)
    requires
        d < 16,
    ensures
        r@ == seq![digit_char(d as nat)],
{
    match d {
        0 => {
            proof { reveal_strlit("0"); }
            "0"
        },
        1 => {
            proof { reveal_strlit("1"); }
            "1"
        },
        2 => {
            proof { reveal_strlit("2"); }
            "2"
        },
        3 => {
            proof { reveal_strlit("3"); }
            "3"
        },
        4 => {
            proof { reveal_strlit("4"); }
            "4"
        },
        5 => {
            proof { reveal_strlit("5"); }
            "5"
        },
        6 => {
            proof { reveal_strlit("6"); }
            "6"
        },
        7 => {
            proof { reveal_strlit("7"); }
            "7"
        },
        8 => {
            proof { reveal_strlit("8"); }
            "8"
        },
        9 => {
            proof { reveal_strlit("9"); }
            "9"
        },
        10 => {
            proof { reveal_strlit("A"); }
            "A"
        },
        11 => {
            proof { reveal_strlit("B"); }
            "B"
        },
        12 => {
            proof { reveal_strlit("C"); }
            "C"
        },
        13 => {
            proof { reveal_strlit("D"); }
            "D"
        },
        14 => {
            proof { reveal_strlit("E"); }
            "E"
        },
        _ => {
            proof { reveal_strlit("F"); }
            "F"
        },
    }
}

/// Appends the hexadecimal digits of `n`.
pub fn push_hex(s: &mut String, n: u32)
    ensures
        final(s)@ == old(s)@ + hex_digits(n as nat),
    decreases n,
{
    if n < 16 {
        s.append(digit_str(n));
    } else {
        push_hex(s, n / 16);
        s.append(digit_str(n % 16));
    }
    assert(final(s)@ =~= old(s)@ + hex_digits(n as nat));
}

/// Appends the decimal digits of `n`.
pub fn push_dec(s: &mut String, n: u64)
    ensures
        final(s)@ == old(s)@ + dec_digits(n as nat),
    decreases n,
{
    if n < 10 {
        s.append(digit_str(n as u32));
    } else {
        push_dec(s, n / 10);
        s.append(digit_str((n % 10) as u32));
    }
    assert(final(s)@ =~= old(s)@ + dec_digits(n as nat));
}

/// Appends `n` in base 10, with a sign when negative.
pub fn push_signed(s: &mut String, n: i64)
    requires
        n > i64::MIN,
    ensures
        final(s)@ == old(s)@ + dec_signed(n as int),
{
    if n < 0 {
        proof { reveal_strlit("-"); }
        s.append("-");
        push_dec(s, (-n) as u64);
    } else {
        push_dec(s, n as u64);
    }
    assert(final(s)@ =~= old(s)@ + dec_signed(n as int));
}

/// Ten to the power `e`.
pub open spec fn pow10(e: nat) -> nat
    decreases e,
{
    if e == 0 {
        1
    } else {
        10 * pow10((e - 1) as nat)
    }
}

/// `n` written with exactly sixteen decimal digits, as `{:016}` writes a
/// number below ten to the sixteenth.
pub open spec fn digits16(n: nat) -> Seq<char> {
    Seq::new(16, |i: int| digit_char(n / pow10((15 - i) as nat) % 10))
}

/// `s` without its trailing `'0'` characters.
pub open spec fn trim_zeros(s: Seq<char>) -> Seq<char>
    decreases s.len(),
{
    if s.len() > 0 && s.last() == '0' {
        trim_zeros(s.drop_last())
    } else {
        s
    }
}

/// Trimming stops at the last character that is not `'0'`.
pub proof fn lemma_trim_zeros(s: Seq<char>, len: int)
    requires
        0 <= len <= s.len(),
        len == 0 || s[len - 1] != '0',
        forall|i: int| len <= i < s.len() ==> s[i] == '0',
    ensures
        trim_zeros(s) == s.take(len),
    decreases s.len(),
{
    if s.len() > len {
        lemma_trim_zeros(s.drop_last(), len);
        assert(s.drop_last().take(len) =~= s.take(len));
    } else {
        assert(s.take(len) =~= s);
        if s.len() > 0 {
            assert(s.last() == s[len - 1]);
        }
    }
}

/// `kind_name(0x..)`, the debug form of a code outside a named set.
pub fn debug_unknown(kind_name: &str, code: u32) -> (r: String)
    ensures
        r@ == debug_enum(None, kind_name@, code),
{
    let mut s = String::from_str(kind_name);
    proof { reveal_strlit("(0x"); reveal_strlit(")"); }
    s.append("(0x");
    push_hex(&mut s, code);
    s.append(")");
    assert(s@ =~= debug_enum(None, kind_name@, code));
    s
}

/// One byte as `escape_ascii` writes it: the usual escapes for tab,
/// return, newline, backslash and quotes, printable ASCII as itself, and
/// `\xNN` with two lower-case hex digits for the rest.
pub open spec fn escape_byte(b: u8) -> Seq<char> {
    if b == 9 {
        seq!['\\', 't']
    } else if b == 13 {
        seq!['\\', 'r']
    } else if b == 10 {
        seq!['\\', 'n']
    } else if b == 0x5c {
        seq!['\\', '\\']
    } else if b == 0x27 {
        seq!['\\', '\'']
    } else if b == 0x22 {
        seq!['\\', '"']
    } else if 0x20 <= b < 0x7f {
        seq![b as char]
    } else {
        seq!['\\', 'x', lower_hex_char((b / 16) as nat), lower_hex_char((b % 16) as nat)]
    }
}

/// A digit below sixteen, lower case.
pub open spec fn lower_hex_char(d: nat) -> char {
    if d < 10 {
        digit_char(d)
    } else if d == 10 {
        'a'
    } else if d == 11 {
        'b'
    } else if d == 12 {
        'c'
    } else if d == 13 {
        'd'
    } else if d == 14 {
        'e'
    } else {
        'f'
    }
}

/// Every byte escaped, in order.
pub open spec fn escape_bytes(s: Seq<u8>) -> Seq<char>
    decreases s.len(),
{
    if s.len() == 0 {
        Seq::empty()
    } else {
        escape_bytes(s.drop_last()) + escape_byte(s.last())
    }
}

/// A byte string as its debug form shows it: quoted and escaped.
pub open spec fn quoted(s: Seq<u8>) -> Seq<char> {
    seq!['"'] + escape_bytes(s) + seq!['"']
}

fn lower_hex_str(d: u8) -> (r: &'static str)
    requires
        d < 16,
    ensures
        r@ == seq![lower_hex_char(d as nat)],
{
    if d < 10 {
        digit_str(d as u32)
    } else if d == 10 {
        proof { reveal_strlit("a"); }
        "a"
    } else if d == 11 {
        proof { reveal_strlit("b"); }
        "b"
    } else if d == 12 {
        proof { reveal_strlit("c"); }
        "c"
    } else if d == 13 {
        proof { reveal_strlit("d"); }
        "d"
    } else if d == 14 {
        proof { reveal_strlit("e"); }
        "e"
    } else {
        proof { reveal_strlit("f"); }
        "f"
    }
}

fn printable_str(b: u8) -> (r: &'static str)
    requires
        0x20 <= b < 0x7f,
        b != 0x22 && b != 0x27 && b != 0x5c,
    ensures
        r@ == seq![b as char],
{
    match b {
        32 => {
            proof { reveal_strlit(" "); }
            " "
        },
        33 => {
            proof { reveal_strlit("!"); }
            "!"
        },
        35 => {
            proof { reveal_strlit("#"); }
            "#"
        },
        36 => {
            proof { reveal_strlit("$"); }
            "$"
        },
        37 => {
            proof { reveal_strlit("%"); }
            "%"
        },
        38 => {
            proof { reveal_strlit("&"); }
            "&"
        },
        40 => {
            proof { reveal_strlit("("); }
            "("
        },
        41 => {
            proof { reveal_strlit(")"); }
            ")"
        },
        42 => {
            proof { reveal_strlit("*"); }
            "*"
        },
        43 => {
            proof { reveal_strlit("+"); }
            "+"
        },
        44 => {
            proof { reveal_strlit(","); }
            ","
        },
        45 => {
            proof { reveal_strlit("-"); }
            "-"
        },
        46 => {
            proof { reveal_strlit("."); }
            "."
        },
        47 => {
            proof { reveal_strlit("/"); }
            "/"
        },
        48 => {
            proof { reveal_strlit("0"); }
            "0"
        },
        49 => {
            proof { reveal_strlit("1"); }
            "1"
        },
        50 => {
            proof { reveal_strlit("2"); }
            "2"
        },
        51 => {
            proof { reveal_strlit("3"); }
            "3"
        },
        52 => {
            proof { reveal_strlit("4"); }
            "4"
        },
        53 => {
            proof { reveal_strlit("5"); }
            "5"
        },
        54 => {
            proof { reveal_strlit("6"); }
            "6"
        },
        55 => {
            proof { reveal_strlit("7"); }
            "7"
        },
        56 => {
            proof { reveal_strlit("8"); }
            "8"
        },
        57 => {
            proof { reveal_strlit("9"); }
            "9"
        },
        58 => {
            proof { reveal_strlit(":"); }
            ":"
        },
        59 => {
            proof { reveal_strlit(";"); }
            ";"
        },
        60 => {
            proof { reveal_strlit("<"); }
            "<"
        },
        61 => {
            proof { reveal_strlit("="); }
            "="
        },
        62 => {
            proof { reveal_strlit(">"); }
            ">"
        },
        63 => {
            proof { reveal_strlit("?"); }
            "?"
        },
        64 => {
            proof { reveal_strlit("@"); }
            "@"
        },
        65 => {
            proof { reveal_strlit("A"); }
            "A"
        },
        66 => {
            proof { reveal_strlit("B"); }
            "B"
        },
        67 => {
            proof { reveal_strlit("C"); }
            "C"
        },
        68 => {
            proof { reveal_strlit("D"); }
            "D"
        },
        69 => {
            proof { reveal_strlit("E"); }
            "E"
        },
        70 => {
            proof { reveal_strlit("F"); }
            "F"
        },
        71 => {
            proof { reveal_strlit("G"); }
            "G"
        },
        72 => {
            proof { reveal_strlit("H"); }
            "H"
        },
        73 => {
            proof { reveal_strlit("I"); }
            "I"
        },
        74 => {
            proof { reveal_strlit("J"); }
            "J"
        },
        75 => {
            proof { reveal_strlit("K"); }
            "K"
        },
        76 => {
            proof { reveal_strlit("L"); }
            "L"
        },
        77 => {
            proof { reveal_strlit("M"); }
            "M"
        },
        78 => {
            proof { reveal_strlit("N"); }
            "N"
        },
        79 => {
            proof { reveal_strlit("O"); }
            "O"
        },
        80 => {
            proof { reveal_strlit("P"); }
            "P"
        },
        81 => {
            proof { reveal_strlit("Q"); }
            "Q"
        },
        82 => {
            proof { reveal_strlit("R"); }
            "R"
        },
        83 => {
            proof { reveal_strlit("S"); }
            "S"
        },
        84 => {
            proof { reveal_strlit("T"); }
            "T"
        },
        85 => {
            proof { reveal_strlit("U"); }
            "U"
        },
        86 => {
            proof { reveal_strlit("V"); }
            "V"
        },
        87 => {
            proof { reveal_strlit("W"); }
            "W"
        },
        88 => {
            proof { reveal_strlit("X"); }
            "X"
        },
        89 => {
            proof { reveal_strlit("Y"); }
            "Y"
        },
        90 => {
            proof { reveal_strlit("Z"); }
            "Z"
        },
        91 => {
            proof { reveal_strlit("["); }
            "["
        },
        93 => {
            proof { reveal_strlit("]"); }
            "]"
        },
        94 => {
            proof { reveal_strlit("^"); }
            "^"
        },
        95 => {
            proof { reveal_strlit("_"); }
            "_"
        },
        96 => {
            proof { reveal_strlit("`"); }
            "`"
        },
        97 => {
            proof { reveal_strlit("a"); }
            "a"
        },
        98 => {
            proof { reveal_strlit("b"); }
            "b"
        },
        99 => {
            proof { reveal_strlit("c"); }
            "c"
        },
        100 => {
            proof { reveal_strlit("d"); }
            "d"
        },
        101 => {
            proof { reveal_strlit("e"); }
            "e"
        },
        102 => {
            proof { reveal_strlit("f"); }
            "f"
        },
        103 => {
            proof { reveal_strlit("g"); }
            "g"
        },
        104 => {
            proof { reveal_strlit("h"); }
            "h"
        },
        105 => {
            proof { reveal_strlit("i"); }
            "i"
        },
        106 => {
            proof { reveal_strlit("j"); }
            "j"
        },
        107 => {
            proof { reveal_strlit("k"); }
            "k"
        },
        108 => {
            proof { reveal_strlit("l"); }
            "l"
        },
        109 => {
            proof { reveal_strlit("m"); }
            "m"
        },
        110 => {
            proof { reveal_strlit("n"); }
            "n"
        },
        111 => {
            proof { reveal_strlit("o"); }
            "o"
        },
        112 => {
            proof { reveal_strlit("p"); }
            "p"
        },
        113 => {
            proof { reveal_strlit("q"); }
            "q"
        },
        114 => {
            proof { reveal_strlit("r"); }
            "r"
        },
        115 => {
            proof { reveal_strlit("s"); }
            "s"
        },
        116 => {
            proof { reveal_strlit("t"); }
            "t"
        },
        117 => {
            proof { reveal_strlit("u"); }
            "u"
        },
        118 => {
            proof { reveal_strlit("v"); }
            "v"
        },
        119 => {
            proof { reveal_strlit("w"); }
            "w"
        },
        120 => {
            proof { reveal_strlit("x"); }
            "x"
        },
        121 => {
            proof { reveal_strlit("y"); }
            "y"
        },
        122 => {
            proof { reveal_strlit("z"); }
            "z"
        },
        123 => {
            proof { reveal_strlit("{"); }
            "{"
        },
        124 => {
            proof { reveal_strlit("|"); }
            "|"
        },
        125 => {
            proof { reveal_strlit("}"); }
            "}"
        },
        126 => {
            proof { reveal_strlit("~"); }
            "~"
        },
        _ => {
            proof { reveal_strlit("~"); }
            "~"
        },
    }
}

/// Appends one escaped byte.
fn push_escaped(s: &mut String, b: u8)
    ensures
        final(s)@ == old(s)@ + escape_byte(b),
{
    if b == 9 {
        proof { reveal_strlit("\\t"); }
        s.append("\\t");
    } else if b == 13 {
        proof { reveal_strlit("\\r"); }
        s.append("\\r");
    } else if b == 10 {
        proof { reveal_strlit("\\n"); }
        s.append("\\n");
    } else if b == 0x5c {
        proof { reveal_strlit("\\\\"); }
        s.append("\\\\");
    } else if b == 0x27 {
        proof { reveal_strlit("\\'"); }
        s.append("\\'");
    } else if b == 0x22 {
        proof { reveal_strlit("\\\""); }
        s.append("\\\"");
    } else if 0x20 <= b && b < 0x7f {
        s.append(printable_str(b));
    } else {
        proof { reveal_strlit("\\x"); }
        s.append("\\x");
        s.append(lower_hex_str(b / 16));
        s.append(lower_hex_str(b % 16));
    }
    assert(final(s)@ =~= old(s)@ + escape_byte(b));
}

/// Appends a byte string quoted and escaped.
pub fn push_quoted(s: &mut String, bytes: &[u8])
    ensures
        final(s)@ == old(s)@ + quoted(bytes@),
{
    proof { reveal_strlit("\""); }
    s.append("\"");
    let ghost start = s@;
    let mut i: usize = 0;
    while i < bytes.len()
        invariant
            i <= bytes@.len(),
            s@ == start + escape_bytes(bytes@.take(i as int)),
        decreases bytes@.len() - i,
    {
        push_escaped(s, bytes[i]);
        assert(bytes@.take(i as int + 1).drop_last() =~= bytes@.take(i as int));
        assert(s@ =~= start + escape_bytes(bytes@.take(i as int + 1)));
        i = i + 1;
    }
    assert(bytes@.take(i as int) =~= bytes@);
    s.append("\"");
    assert(final(s)@ =~= old(s)@ + quoted(bytes@));
}

/// `n` spaces.
pub open spec fn spaces(n: nat) -> Seq<char> {
    Seq::new(n, |i: int| ' ')
}

/// Appends `n` spaces.
pub fn push_spaces(s: &mut String, n: usize)
    ensures
        final(s)@ == old(s)@ + spaces(n as nat),
{
    let mut i: usize = 0;
    while i < n
        invariant
            i <= n,
            s@ == old(s)@ + spaces(i as nat),
        decreases n - i,
    {
        proof { reveal_strlit(" "); }
        s.append(" ");
        assert(s@ =~= old(s)@ + spaces((i + 1) as nat));
        i = i + 1;
    }
}

/// One field of a struct's pretty debug form, at indent `k`.
pub open spec fn pretty_field(k: nat, name: Seq<char>, value: Seq<char>) -> Seq<char> {
    spaces(k + 4) + name + ": "@ + value + ",\n"@
}

/// Appends the start of a field: the indent, the name and a colon.
pub fn push_field_start(s: &mut String, k: usize, name: &str)
    requires
        k + 4 <= usize::MAX,
    ensures
        final(s)@ == old(s)@ + spaces(k as nat + 4) + name@ + ": "@,
{
    push_spaces(s, k + 4);
    s.append(name);
    s.append(": ");
}

/// Appends one field of a struct's pretty debug form.
pub fn push_field(s: &mut String, k: usize, name: &str, value: &str)
    requires
        k + 4 <= usize::MAX,
    ensures
        final(s)@ == old(s)@ + pretty_field(k as nat, name@, value@),
{
    push_field_start(s, k, name);
    s.append(value);
    push_field_end(s);
    assert(final(s)@ =~= old(s)@ + pretty_field(k as nat, name@, value@));
}

/// Appends the end of a field.
pub fn push_field_end(s: &mut String)
    ensures
        final(s)@ == old(s)@ + ",\n"@,
{
    s.append(",\n");
}

/// Appends the closing brace of a struct at indent `k`.
pub fn push_close(s: &mut String, k: usize, close: &str)
    ensures
        final(s)@ == old(s)@ + spaces(k as nat) + close@,
{
    push_spaces(s, k);
    s.append(close);
}

/// Pieces of text one after the other.
pub open spec fn concat_chars(parts: Seq<Seq<char>>) -> Seq<char>
    decreases parts.len(),
{
    if parts.len() == 0 {
        Seq::empty()
    } else {
        concat_chars(parts.drop_last()) + parts.last()
    }
}

/// The items of a list, each on its own line at indent `k + 4`.
pub open spec fn list_lines(k: nat, items: Seq<Seq<char>>) -> Seq<char> {
    concat_chars(items.map_values(|it: Seq<char>| spaces(k + 4) + it + ",\n"@))
}

/// A list's pretty debug form at indent `k`: `[]` when empty.
pub open spec fn pretty_list(k: nat, items: Seq<Seq<char>>) -> Seq<char> {
    if items.len() == 0 {
        "[]"@
    } else {
        "[\n"@ + list_lines(k, items) + spaces(k) + "]"@
    }
}

/// Appends a list whose lines are already written out in `body`.
pub fn push_list(s: &mut String, k: usize, body: &str, n: usize, Ghost(items): Ghost<Seq<Seq<char>>>)
    requires
        body@ == list_lines(k as nat, items),
        n == items.len(),
    ensures
        final(s)@ == old(s)@ + pretty_list(k as nat, items),
{
    if n == 0 {
        s.append("[]");
    } else {
        s.append("[\n");
        s.append(body);
        push_close(s, k, "]");
    }
    assert(final(s)@ =~= old(s)@ + pretty_list(k as nat, items));
}

/// Appends one line of a list: the indent, the item, a comma.
pub fn push_list_line(body: &mut String, k: usize, item: &str, Ghost(items): Ghost<Seq<Seq<char>>>)
    requires
        k + 4 <= usize::MAX,
        old(body)@ == list_lines(k as nat, items),
    ensures
        final(body)@ == list_lines(k as nat, items.push(item@)),
{
    push_spaces(body, k + 4);
    body.append(item);
    body.append(",\n");
    proof { lemma_list_lines_push(k as nat, items, item@); }
    assert(final(body)@ =~= list_lines(k as nat, items.push(item@)));
}

/// Adding one item adds one line.
pub proof fn lemma_list_lines_push(k: nat, items: Seq<Seq<char>>, it: Seq<char>)
    ensures
        list_lines(k, items.push(it)) == list_lines(k, items) + spaces(k + 4) + it + ",\n"@,
{
    let f = |x: Seq<char>| spaces(k + 4) + x + ",\n"@;
    assert(items.push(it).map_values(f) =~= items.map_values(f).push(f(it)));
    assert(items.map_values(f).push(f(it)).drop_last() =~= items.map_values(f));
    assert(list_lines(k, items.push(it)) =~= list_lines(k, items) + spaces(k + 4) + it + ",\n"@);
}

} // verus!
