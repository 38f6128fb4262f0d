use vstd::prelude::*;
use vstd::string::StringSliceAdditionalSpecFns;
use vstd::utf8::encode_utf8;

use crate::text::same_text;

verus! {

/// A JSON number: a sign, a decimal mantissa and a decimal exponent. Its
/// value is the mantissa times ten to the exponent, negated where `positive`
/// is false.
#[derive(Clone, Copy, Debug, PartialEq, Eq, Structural)]
pub struct Number {
    pub positive: bool,
    pub mantissa: u64,
    pub exponent: i16,
}

/// Ten to the power `e`.
pub open spec fn spec_pow10(e: nat) -> nat
    decreases e,
{
    if e == 0 {
        1
    } else {
        10 * spec_pow10((e - 1) as nat)
    }
}

proof fn lemma_pow10_positive(e: nat)
    ensures
        spec_pow10(e) >= 1,
    decreases e,
{
    if e > 0 {
        lemma_pow10_positive((e - 1) as nat);
    }
}

impl Number {
    /// The whole part of the number's magnitude.
    pub open spec fn spec_whole_magnitude(self) -> nat {
        if self.exponent >= 0 {
            self.mantissa as nat * spec_pow10(self.exponent as nat)
        } else {
            self.mantissa as nat / spec_pow10((-self.exponent) as nat)
        }
    }

    /// The number rounded toward zero to a whole number.
    pub open spec fn spec_whole(self) -> int {
        if self.positive {
            self.spec_whole_magnitude() as int
        } else {
            -(self.spec_whole_magnitude() as int)
        }
    }

    /// The number rounded toward zero, where that fits an `i64`.
    pub open spec fn spec_whole_i64(self) -> Option<i64> {
        if i64::MIN <= self.spec_whole() <= i64::MAX {
            Some(self.spec_whole() as i64)
        } else {
            None
        }
    }

    /// The whole part of the magnitude, where it fits a `u64`.
    fn whole_magnitude(&self) -> (r: Option<u64>)
        ensures
            match r {
                Some(m) => m == self.spec_whole_magnitude(),
                None => self.spec_whole_magnitude() > u64::MAX,
            },
    {
        let mut acc: u64 = self.mantissa;
        let exponent: i32 = self.exponent as i32;
        if exponent >= 0 {
            let mut k: i32 = 0;
            while k < exponent
                invariant
                    0 <= k <= exponent,
                    exponent == self.exponent,
                    acc * spec_pow10((exponent - k) as nat) == self.spec_whole_magnitude(),
                decreases exponent - k,
            {
                let ghost rest = spec_pow10((exponent - k - 1) as nat);
                proof {
                    lemma_pow10_positive((exponent - k - 1) as nat);
                    assert(spec_pow10((exponent - k) as nat) == 10 * rest);
                    assert(acc * (10 * rest) == (acc * 10) * rest) by (nonlinear_arith);
                }
                if acc > u64::MAX / 10 {
                    proof {
                        assert((acc * 10) * rest >= acc * 10) by (nonlinear_arith)
                            requires
                                rest >= 1,
                                acc >= 0,
                        ;
                    }
                    return None;
                }
                acc = acc * 10;
                k += 1;
            }
            proof {
                assert(spec_pow10(0) == 1);
                assert(acc * 1 == acc);
            }
            Some(acc)
        } else {
            let places: i32 = -exponent;
            let mut k: i32 = 0;
            proof {
                assert(spec_pow10(0) == 1);
                assert(self.mantissa as nat / 1 == self.mantissa);
            }
            while k < places
                invariant
                    0 <= k <= places,
                    places == -self.exponent,
                    acc == self.mantissa as nat / spec_pow10(k as nat),
                decreases places - k,
            {
                proof {
                    lemma_pow10_positive(k as nat);
                    vstd::arithmetic::div_mod::lemma_div_denominator(
                        self.mantissa as int,
                        spec_pow10(k as nat) as int,
                        10,
                    );
                    assert(spec_pow10((k + 1) as nat) == 10 * spec_pow10(k as nat));
                    assert(spec_pow10(k as nat) * 10 == 10 * spec_pow10(k as nat));
                }
                acc = acc / 10;
                k += 1;
            }
            Some(acc)
        }
    }

    /// The number rounded toward zero, where that fits an `i64`.
    pub fn whole_i64(&self) -> (r: Option<i64>)
        ensures
            r == self.spec_whole_i64(),
    {
        match self.whole_magnitude() {
            None => None,
            Some(m) => {
                if self.positive {
                    if m <= 0x7fff_ffff_ffff_ffffu64 {
                        Some(m as i64)
                    } else {
                        None
                    }
                } else if m < 0x8000_0000_0000_0000u64 {
                    Some(-(m as i64))
                } else if m == 0x8000_0000_0000_0000u64 {
                    Some(i64::MIN)
                } else {
                    None
                }
            },
        }
    }
}

/// A JSON document held as plain values.
#[derive(Debug, PartialEq, Eq)]
pub enum Json {
    Null,
    Bool(bool),
    /// A number, with the text that the json crate prints for it.
    Number(Number, String),
    Text(String),
    Array(Vec<Json>),
    Object(Vec<(String, Json)>),
}

/// `json::JsonValue`, the value that `json::parse` returns. Nothing of what
/// it holds is known here.
#[verifier::external_type_specification]
#[verifier::external_body]
pub struct ExJsonValue(json::JsonValue);

/// What `json::parse` makes of a text: the parsed value, or `None` where the
/// text is not JSON.
pub uninterp spec fn parsed_value(text: Seq<char>) -> Option<json::JsonValue>;

/// The plain-value copy of a `json::JsonValue`. The text of a number is
/// what its `Display` writes.
pub uninterp spec fn plain_copy(value: json::JsonValue) -> Json;

/// Whether `b` is an ASCII digit.
pub open spec fn spec_is_digit_byte(b: u8) -> bool {
    0x30 <= b <= 0x39
}

/// Where a reader stands in a JSON text.
pub struct Scan {
    /// Inside a string.
    pub in_string: bool,
    /// Inside a string, just behind a backslash that escapes what follows.
    pub escaped: bool,
    /// Outside every string, just behind a digit.
    pub after_digit: bool,
    /// Outside every string, in the fraction of a number: behind a point
    /// that follows a digit, with nothing but digits since.
    pub in_fraction: bool,
    /// The digits of that fraction so far.
    pub digits: nat,
}

/// Where a reader stands before the first byte.
pub open spec fn spec_scan_start() -> Scan {
    Scan { in_string: false, escaped: false, after_digit: false, in_fraction: false, digits: 0 }
}

/// Where a reader that stood at `scan` stands behind the byte `b`. A quote
/// opens a string, and closes one unless a backslash escapes it. Outside
/// every string a point behind a digit opens a fraction, each digit behind
/// it belongs to the fraction, and any other byte ends it.
pub open spec fn spec_scan_step(scan: Scan, b: u8) -> Scan {
    if scan.in_string {
        if scan.escaped {
            Scan { escaped: false, ..scan }
        } else if b == 0x5C {
            Scan { escaped: true, ..scan }
        } else if b == 0x22 {
            spec_scan_start()
        } else {
            scan
        }
    } else if b == 0x22 {
        Scan { in_string: true, ..spec_scan_start() }
    } else if spec_is_digit_byte(b) {
        Scan {
            after_digit: true,
            digits: if scan.in_fraction {
                scan.digits + 1
            } else {
                0
            },
            ..scan
        }
    } else if b == 0x2E && scan.after_digit {
        Scan { in_fraction: true, ..spec_scan_start() }
    } else {
        spec_scan_start()
    }
}

/// Where a reader stands behind the first `end` bytes.
pub open spec fn spec_scan(bytes: Seq<u8>, end: int) -> Scan
    decreases end,
{
    if end <= 0 || end > bytes.len() {
        spec_scan_start()
    } else {
        spec_scan_step(spec_scan(bytes, end - 1), bytes[end - 1])
    }
}

/// The number of digits that no fraction may reach: 32768.
pub open spec fn spec_fraction_limit() -> nat {
    32768
}

/// No number outside of every string has a fraction with as many digits as
/// the limit.
pub open spec fn spec_fractions_short(bytes: Seq<u8>) -> bool {
    forall|end: int|
        0 <= end <= bytes.len() ==> (#[trigger] spec_scan(bytes, end)).digits
            < spec_fraction_limit()
}

/// Whether no number of `text` outside of every string has a fraction with
/// as many digits as the limit.
pub fn fractions_short(text: &str) -> (r: bool)
    ensures
        r == spec_fractions_short(text.spec_bytes()),
{
    let bytes = text.as_bytes();
    let mut in_string = false;
    let mut escaped = false;
    let mut after_digit = false;
    let mut in_fraction = false;
    let mut digits: usize = 0;
    let mut i: usize = 0;
    while i < bytes.len()
        invariant
            i <= bytes.len(),
            bytes@ == text.spec_bytes(),
            spec_scan(bytes@, i as int) == (Scan {
                in_string,
                escaped,
                after_digit,
                in_fraction,
                digits: digits as nat,
            }),
            digits < 32768,
            forall|end: int|
                0 <= end <= i ==> (#[trigger] spec_scan(bytes@, end)).digits
                    < spec_fraction_limit(),
        decreases bytes.len() - i,
    {
        let b = bytes[i];
        if in_string {
            if escaped {
                escaped = false;
            } else if b == 0x5C {
                escaped = true;
            } else if b == 0x22 {
                in_string = false;
                after_digit = false;
                in_fraction = false;
                digits = 0;
            }
        } else if b == 0x22 {
            in_string = true;
            escaped = false;
            after_digit = false;
            in_fraction = false;
            digits = 0;
        } else if 0x30 <= b && b <= 0x39 {
            after_digit = true;
            digits = if in_fraction {
                digits + 1
            } else {
                0
            };
        } else if b == 0x2E && after_digit {
            in_fraction = true;
            escaped = false;
            after_digit = false;
            digits = 0;
        } else {
            escaped = false;
            after_digit = false;
            in_fraction = false;
            digits = 0;
        }
        i += 1;
        proof {
            assert(spec_scan(bytes@, i as int) == (Scan {
                in_string,
                escaped,
                after_digit,
                in_fraction,
                digits: digits as nat,
            }));
        }
        if digits >= 32768 {
            return false;
        }
    }
    true
}

/// Calls `json::parse`. The result is the parsed value, `None` where the
/// crate reports an error. While it reads the fraction of a number the
/// parser lowers an `i16` once for each digit, with nothing to keep it from
/// overflowing: the texts with so long a fraction are left out. It reads
/// the digits before the point, the exponent and what stands in a string
/// without such a count.
#[verifier::external_body]
fn parse_value(text: &str) -> (r: Option<json::JsonValue>)
    requires
        spec_fractions_short(text.spec_bytes()),
    ensures
        r == parsed_value(text@),
{
    json::parse(text).ok()
}

/// Copies a `json::JsonValue` variant by variant into a `Json`. A number
/// goes over as the parts that `Number::as_parts` gives and the text that
/// its `Display` writes.
#[verifier::external_body]
fn copy_value(value: &json::JsonValue) -> (r: Json)
    ensures
        r == plain_copy(*value),
{
    match value {
        json::JsonValue::Null => Json::Null,
        json::JsonValue::Short(s) => Json::Text(s.as_str().to_owned()),
        json::JsonValue::String(s) => Json::Text(s.clone()),
        json::JsonValue::Number(n) => {
            let (positive, mantissa, exponent) = n.as_parts();
            Json::Number(Number { positive, mantissa, exponent }, n.to_string())
        }
        json::JsonValue::Boolean(b) => Json::Bool(*b),
        json::JsonValue::Object(o) => Json::Object(o.iter().map(|(k, v)| (k.to_owned(), copy_value(v))).collect()),
        json::JsonValue::Array(a) => Json::Array(a.iter().map(copy_value).collect()),
    }
}

impl Json {
    /// What `parse` makes of a text: the plain-value copy of what `json::parse`
    /// returns. A text in which a number outside of every string has a
    /// fraction with as many digits as the limit is not read at all.
    pub open spec fn spec_parse(text: Seq<char>) -> Option<Json> {
        if !spec_fractions_short(encode_utf8(text)) {
            None
        } else {
            match parsed_value(text) {
                Some(v) => Some(plain_copy(v)),
                None => None,
            }
        }
    }

    /// Reads a JSON text. `None` where the text is not JSON, and where a
    /// number in it has a fraction of 32768 digits or more.
    pub fn parse(text: &str) -> (r: Option<Json>)
        ensures
            r == Json::spec_parse(text@),
    {
        if !fractions_short(text) {
            return None;
        }
        match parse_value(text) {
            Some(v) => Some(copy_value(&v)),
            None => None,
        }
    }

    /// The value of the first member of `members`, from position `from` on,
    /// whose key is `key`; `Null` where there is none.
    pub open spec fn spec_find(members: Seq<(String, Json)>, key: Seq<char>, from: int) -> Json
        decreases members.len() - from,
    {
        if from < 0 || from >= members.len() {
            Json::Null
        } else if members[from].0@ == key {
            members[from].1
        } else {
            Json::spec_find(members, key, from + 1)
        }
    }

    /// The member of an object under `key`; `Null` where the object has no
    /// such member and where the value is no object.
    pub open spec fn spec_get(self, key: Seq<char>) -> Json {
        match self {
            Json::Object(members) => Json::spec_find(members@, key, 0),
            _ => Json::Null,
        }
    }

    /// The items of an array; none where the value is no array.
    pub open spec fn spec_items(self) -> Seq<Json> {
        match self {
            Json::Array(items) => items@,
            _ => Seq::empty(),
        }
    }

    /// The text of a string; `None` where the value is no string.
    pub open spec fn spec_text(self) -> Option<Seq<char>> {
        match self {
            Json::Text(s) => Some(s@),
            _ => None,
        }
    }

    /// The whole number that a number rounds to toward zero; `None` where
    /// the value is no number and where the whole number fits no `i64`.
    pub open spec fn spec_whole_i64(self) -> Option<i64> {
        match self {
            Json::Number(n, _) => n.spec_whole_i64(),
            _ => None,
        }
    }

    /// The member of an object under `key`.
    pub fn get(&self, key: &str) -> (r: &Json)
        ensures
            *r == self.spec_get(key@),
    {
        match self {
            Json::Object(members) => {
                let mut i: usize = 0;
                while i < members.len()
                    invariant
                        i <= members.len(),
                        self.spec_get(key@) == Json::spec_find(members@, key@, 0),
                        Json::spec_find(members@, key@, 0) == Json::spec_find(
                            members@,
                            key@,
                            i as int,
                        ),
                    decreases members.len() - i,
                {
                    if same_text(members[i].0.as_str(), key) {
                        proof {
                            assert(Json::spec_find(members@, key@, i as int) == members@[i as int].1);
                        }
                        return &members[i].1;
                    }
                    i += 1;
                }
                &Json::Null
            },
            _ => &Json::Null,
        }
    }

    /// The number of items of an array; 0 where the value is no array.
    pub fn item_count(&self) -> (r: usize)
        ensures
            r == self.spec_items().len(),
    {
        match self {
            Json::Array(items) => items.len(),
            _ => 0,
        }
    }

    /// Item `i` of an array.
    pub fn item(&self, i: usize) -> (r: &Json)
        requires
            i < self.spec_items().len(),
        ensures
            *r == self.spec_items()[i as int],
    {
        match self {
            Json::Array(items) => &items[i],
            _ => &Json::Null,
        }
    }

    /// The text of a string.
    pub fn as_text(&self) -> (r: Option<&str>)
        ensures
            match r {
                Some(s) => self.spec_text() == Some(s@),
                None => self.spec_text() is None,
            },
    {
        match self {
            Json::Text(s) => Some(s.as_str()),
            _ => None,
        }
    }

    /// The whole number that a number rounds to toward zero.
    pub fn whole_i64(&self) -> (r: Option<i64>)
        ensures
            r == self.spec_whole_i64(),
    {
        match self {
            Json::Number(n, _) => n.whole_i64(),
            _ => None,
        }
    }
}

} // verus!
