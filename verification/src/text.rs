//! The text of the attribute files: names of kinds, flags and the
//! hexadecimal mask of hard-block reasons.

use crate::base::{HardBlockReasons, Kind};
use vstd::prelude::*;
use vstd::string::StrSliceExecFns;

verus! {

/// The text is not the name of a kind.
#[derive(Debug, Clone, Copy, PartialEq, Eq, Hash, Structural)]
pub struct ParseKindError;

/// The text is not a hexadecimal number of eight bits.
#[derive(Debug, Clone, Copy, PartialEq, Eq, Hash, Structural)]
pub struct ParseReasonsError;

/// Whether two texts are the same, character by character.
pub fn same_text(left: &str, right: &str) -> (same: bool)
    ensures
        same == (left@ == right@),
{
    let len = left.unicode_len();
    if len != right.unicode_len() {
        return false;
    }
    let mut i: usize = 0;
    while i < len
        invariant
            i <= len,
            len == left@.len(),
            len == right@.len(),
            forall|j: int| 0 <= j < i ==> left@[j] == right@[j],
        decreases len - i,
    {
        if left.get_char(i) != right.get_char(i) {
            return false;
        }
        i = i + 1;
    }
    assert(left@ =~= right@);
    true
}

impl Kind {
    /// The name of a kind in the `type` attribute file.
    pub open spec fn spec_name(self) -> Seq<char> {
        match self {
            Kind::All => "all"@,
            Kind::WirelessLan => "wifi"@,
            Kind::Bluetooth => "bluetooth"@,
            Kind::UltraWideBand => "uwb"@,
            Kind::WiMax => "wimax"@,
            Kind::WirelessWan => "wwan"@,
            Kind::Gps => "gps"@,
            Kind::Fm => "fm"@,
            Kind::Nfc => "nfc"@,
        }
    }

    /// The kind that a text names, if it names one.
    pub open spec fn spec_from_text(text: Seq<char>) -> Result<Kind, ParseKindError> {
        if text == "all"@ {
            Ok(Kind::All)
        } else if text == "wifi"@ {
            Ok(Kind::WirelessLan)
        } else if text == "bluetooth"@ {
            Ok(Kind::Bluetooth)
        } else if text == "uwb"@ {
            Ok(Kind::UltraWideBand)
        } else if text == "wimax"@ {
            Ok(Kind::WiMax)
        } else if text == "wwan"@ {
            Ok(Kind::WirelessWan)
        } else if text == "gps"@ {
            Ok(Kind::Gps)
        } else if text == "fm"@ {
            Ok(Kind::Fm)
        } else if text == "nfc"@ {
            Ok(Kind::Nfc)
        } else {
            Err(ParseKindError)
        }
    }

    /// The name of the kind, as the `type` attribute file spells it.
    pub fn name(&self) -> (name: &'static str)
        ensures
            name@ == self.spec_name(),
    {
        match self {
            Kind::All => "all",
            Kind::WirelessLan => "wifi",
            Kind::Bluetooth => "bluetooth",
            Kind::UltraWideBand => "uwb",
            Kind::WiMax => "wimax",
            Kind::WirelessWan => "wwan",
            Kind::Gps => "gps",
            Kind::Fm => "fm",
            Kind::Nfc => "nfc",
        }
    }

    /// Reads the name of a kind. The text has to be the name and nothing
    /// else.
    pub fn from_text(text: &str) -> (kind: Result<Kind, ParseKindError>)
        ensures
            kind == Kind::spec_from_text(text@),
    {
        if same_text(text, "all") {
            Ok(Kind::All)
        } else if same_text(text, "wifi") {
            Ok(Kind::WirelessLan)
        } else if same_text(text, "bluetooth") {
            Ok(Kind::Bluetooth)
        } else if same_text(text, "uwb") {
            Ok(Kind::UltraWideBand)
        } else if same_text(text, "wimax") {
            Ok(Kind::WiMax)
        } else if same_text(text, "wwan") {
            Ok(Kind::WirelessWan)
        } else if same_text(text, "gps") {
            Ok(Kind::Gps)
        } else if same_text(text, "fm") {
            Ok(Kind::Fm)
        } else if same_text(text, "nfc") {
            Ok(Kind::Nfc)
        } else {
            Err(ParseKindError)
        }
    }

    /// The name of a kind reads back as that kind.
    pub proof fn lemma_name_reads_back(kind: Kind)
        ensures
            Kind::spec_from_text(kind.spec_name()) == Ok::<Kind, ParseKindError>(kind),
    {
        reveal_strlit("all");
        reveal_strlit("wifi");
        reveal_strlit("bluetooth");
        reveal_strlit("uwb");
        reveal_strlit("wimax");
        reveal_strlit("wwan");
        reveal_strlit("gps");
        reveal_strlit("fm");
        reveal_strlit("nfc");
        let name = kind.spec_name();
        assert(name.len() == 3 ==> name[0] == 'a' || name[0] == 'u' || name[0] == 'g' || name[0]
            == 'n');
        assert(name.len() == 4 ==> name[1] == 'i' || name[1] == 'w');
    }

    /// A text that reads as a kind is the name of that kind.
    pub proof fn lemma_read_is_name(text: Seq<char>)
        ensures
            Kind::spec_from_text(text) matches Ok(kind) ==> kind.spec_name() == text,
    {
    }
}

impl core::str::FromStr for Kind {
    type Err = ParseKindError;

    fn from_str(s: &str) -> (kind: Result<Kind, ParseKindError>)
        ensures
            kind == Kind::spec_from_text(s@),
    {
        Kind::from_text(s)
    }
}

/// The value of a hexadecimal digit, of either case.
pub open spec fn hex_digit(c: char) -> Option<int> {
    if '0' <= c <= '9' {
        Some(c as int - '0' as int)
    } else if 'a' <= c <= 'f' {
        Some(c as int - 'a' as int + 10)
    } else if 'A' <= c <= 'F' {
        Some(c as int - 'A' as int + 10)
    } else {
        None
    }
}

/// The number that a run of hexadecimal digits stands for; `None` when a
/// character of the run is no such digit.
pub open spec fn hex_value(digits: Seq<char>) -> Option<int>
    decreases digits.len(),
{
    if digits.len() == 0 {
        Some(0)
    } else {
        match (hex_value(digits.drop_last()), hex_digit(digits.last())) {
            (Some(value), Some(digit)) => Some(16 * value + digit),
            _ => None,
        }
    }
}

/// The text behind every leading `0x`.
pub open spec fn strip_prefixes(text: Seq<char>) -> Seq<char>
    decreases text.len(),
{
    if text.len() >= 2 && text[0] == '0' && text[1] == 'x' {
        strip_prefixes(text.skip(2))
    } else {
        text
    }
}

/// The text behind one leading `+`.
pub open spec fn strip_sign(text: Seq<char>) -> Seq<char> {
    if text.len() >= 1 && text[0] == '+' {
        text.skip(1)
    } else {
        text
    }
}

/// The eight bits that a text stands for: any number of `0x` prefixes, at
/// most one `+`, then at least one hexadecimal digit, and a value of at most
/// 255.
pub open spec fn hex_u8(text: Seq<char>) -> Option<u8> {
    let digits = strip_sign(strip_prefixes(text));
    match hex_value(digits) {
        Some(value) => if digits.len() > 0 && value <= 255 {
            Some(value as u8)
        } else {
            None
        },
        None => None,
    }
}

/// The value of a hexadecimal digit, of either case.
pub fn digit_of(c: char) -> (digit: Option<u8>)
    ensures
        match hex_digit(c) {
            Some(value) => digit == Some(value as u8) && value < 16,
            None => digit is None,
        },
{
    let code = c as u32;
    if 48 <= code && code <= 57 {
        Some((code - 48) as u8)
    } else if 97 <= code && code <= 102 {
        Some((code - 97 + 10) as u8)
    } else if 65 <= code && code <= 70 {
        Some((code - 65 + 10) as u8)
    } else {
        None
    }
}

/// Reads eight bits written in hexadecimal.
pub fn parse_hex_u8(text: &str) -> (bits: Option<u8>)
    ensures
        bits == hex_u8(text@),
{
    let len = text.unicode_len();
    let mut start: usize = 0;
    assert(text@.skip(0) =~= text@);
    while len - start >= 2 && text.get_char(start) == '0' && text.get_char(start + 1) == 'x'
        invariant
            start <= len,
            len == text@.len(),
            strip_prefixes(text@) == strip_prefixes(text@.skip(start as int)),
        decreases len - start,
    {
        assert(text@.skip(start as int).skip(2) =~= text@.skip(start + 2));
        start = start + 2;
    }
    if start < len && text.get_char(start) == '+' {
        start = start + 1;
    }
    let ghost digits = text@.skip(start as int);
    if start == len {
        return None;
    }
    let mut value: u8 = 0;
    let mut overflow = false;
    let mut i: usize = start;
    while i < len
        invariant
            start <= i <= len,
            len == text@.len(),
            digits == text@.skip(start as int),
            digits == strip_sign(strip_prefixes(text@)),
            hex_value(digits.take(i - start)) matches Some(so_far) && (overflow <==> so_far > 255)
                && (!overflow ==> so_far == value),
        decreases len - i,
    {
        proof {
            let next = digits.take(i + 1 - start);
            assert(next.drop_last() =~= digits.take(i - start));
        }
        match digit_of(text.get_char(i)) {
            None => {
                proof {
                    lemma_hex_value_prefix(digits, i + 1 - start);
                }
                return None;
            },
            Some(digit) => {
                if overflow || value >= 16 {
                    overflow = true;
                } else {
                    value = value * 16 + digit;
                }
            },
        }
        i = i + 1;
    }
    assert(digits.take(len - start) =~= digits);
    if overflow {
        None
    } else {
        Some(value)
    }
}

/// A run of digits has a value only if each of its prefixes has one.
pub proof fn lemma_hex_value_prefix(digits: Seq<char>, len: int)
    requires
        0 <= len <= digits.len(),
        hex_value(digits.take(len)) is None,
    ensures
        hex_value(digits) is None,
    decreases digits.len(),
{
    if len < digits.len() {
        assert(digits.drop_last().take(len) =~= digits.take(len));
        lemma_hex_value_prefix(digits.drop_last(), len);
    } else {
        assert(digits.take(len) =~= digits);
    }
}

impl HardBlockReasons {
    /// The mask that a text stands for: its eight bits without those that
    /// have no name.
    pub open spec fn spec_from_text(text: Seq<char>) -> Result<
        HardBlockReasons,
        ParseReasonsError,
    > {
        match hex_u8(text) {
            Some(bits) => Ok(HardBlockReasons::spec_from_bits_truncate(bits)),
            None => Err(ParseReasonsError),
        }
    }

    /// Reads a mask written in hexadecimal, with or without `0x` in front.
    /// Bits without a name are dropped.
    pub fn from_text(text: &str) -> (mask: Result<HardBlockReasons, ParseReasonsError>)
        ensures
            mask == HardBlockReasons::spec_from_text(text@),
    {
        match parse_hex_u8(text) {
            Some(bits) => Ok(HardBlockReasons::from_bits_truncate(bits)),
            None => Err(ParseReasonsError),
        }
    }
}

impl core::str::FromStr for HardBlockReasons {
    type Err = ParseReasonsError;

    fn from_str(s: &str) -> (mask: Result<HardBlockReasons, ParseReasonsError>)
        ensures
            mask == HardBlockReasons::spec_from_text(s@),
    {
        HardBlockReasons::from_text(s)
    }
}

/// The flag that a text stands for: `0` is false, `1` is true, and no other
/// text is a flag.
pub open spec fn flag_of(text: Seq<char>) -> Option<bool> {
    if text == "0"@ {
        Some(false)
    } else if text == "1"@ {
        Some(true)
    } else {
        None
    }
}

/// Reads a flag.
pub fn parse_flag(text: &str) -> (flag: Option<bool>)
    ensures
        flag == flag_of(text@),
{
    if same_text(text, "0") {
        Some(false)
    } else if same_text(text, "1") {
        Some(true)
    } else {
        None
    }
}

} // verus!
