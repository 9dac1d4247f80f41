//! The relay configuration document and its parser.
//!
//! The config pipe delivers one JSON object `{"bitrate": <number|null>,
//! "version": "<string>"}` to end-of-stream. The grammar accepted here is
//! pinned down exactly: the two members in either order with arbitrary
//! whitespace between tokens, `bitrate` an unsigned decimal integer that
//! fits `u32` (no leading zeros, at most ten digits) or `null`, `version`
//! a string of printable ASCII without escapes. Anything else is
//! malformed and rejected as a `ProtocolError`.

use vstd::prelude::*;

use crate::errors::CanError;
use crate::text::push_char;

verus! {

/// The bus configuration a relay reports at `open`: the bitrate if the
/// relay knows it, and the relay's protocol version string.
#[derive(Clone, Debug, PartialEq, Eq)]
pub struct CanServerConfig {
    pub bitrate: Option<u32>,
    pub version: String,
}

/// The mathematical model of a configuration document.
#[verifier::ext_equal]
pub ghost struct ConfigView {
    pub bitrate: Option<u32>,
    pub version: Seq<char>,
}

impl View for CanServerConfig {
    type V = ConfigView;

    open spec fn view(&self) -> ConfigView {
        ConfigView { bitrate: self.bitrate, version: self.version@ }
    }
}

/// JSON insignificant whitespace: space, tab, line feed, carriage return.
pub open spec fn is_ws(b: u8) -> bool {
    b == 32 || b == 9 || b == 10 || b == 13
}

/// An ASCII decimal digit.
pub open spec fn is_digit(b: u8) -> bool {
    48 <= b <= 57
}

/// A byte allowed inside a string value: printable ASCII other than the
/// quote and the backslash (escapes are not part of the grammar).
pub open spec fn is_string_byte(b: u8) -> bool {
    32 <= b <= 126 && b != 34 && b != 92
}

/// The first index at or after `i` that does not hold whitespace.
pub open spec fn skip_ws(s: Seq<u8>, i: int) -> int
    decreases s.len() - i
    when 0 <= i <= s.len()
{
    if i < s.len() && is_ws(s[i]) {
        skip_ws(s, i + 1)
    } else {
        i
    }
}

/// The index of the closing quote of a string whose content starts at
/// `i`, or `None` if the string is unterminated or holds a byte outside
/// the grammar.
pub open spec fn string_end(s: Seq<u8>, i: int) -> Option<int>
    decreases s.len() - i
    when 0 <= i <= s.len()
{
    if i >= s.len() {
        None
    } else if s[i] == 34 {
        Some(i)
    } else if is_string_byte(s[i]) {
        string_end(s, i + 1)
    } else {
        None
    }
}

/// The first index at or after `i` that does not hold a digit.
pub open spec fn digits_end(s: Seq<u8>, i: int) -> int
    decreases s.len() - i
    when 0 <= i <= s.len()
{
    if i < s.len() && is_digit(s[i]) {
        digits_end(s, i + 1)
    } else {
        i
    }
}

/// The number a sequence of decimal digit bytes denotes.
pub open spec fn digits_value(s: Seq<u8>) -> int
    decreases s.len(),
{
    if s.len() == 0 {
        0
    } else {
        digits_value(s.drop_last()) * 10 + (s.last() - 48)
    }
}

/// Ten to the `n`th power.
pub open spec fn pow10(n: nat) -> int
    decreases n,
{
    if n == 0 {
        1
    } else {
        10 * pow10((n - 1) as nat)
    }
}

/// One member value: JSON `null`, an unsigned decimal number, or a
/// string.
pub ghost enum FieldVal {
    Null,
    Num(int),
    Str(Seq<u8>),
}

/// The value starting at `i` and the index just past it, or `None` if no
/// value of the grammar starts there. Numbers are capped at ten digits;
/// together with the leading-zero rule that admits every `u32` and
/// nothing that could not overflow one by a wide margin.
pub open spec fn parse_value(s: Seq<u8>, i: int) -> Option<(FieldVal, int)>
    recommends
        0 <= i,
{
    if i >= s.len() {
        None
    } else if s[i] == 34 {
        match string_end(s, i + 1) {
            Some(e) => Some((FieldVal::Str(s.subrange(i + 1, e)), e + 1)),
            None => None,
        }
    } else if is_digit(s[i]) {
        let j = digits_end(s, i);
        if s[i] == 48 && j != i + 1 {
            None
        } else if j - i > 10 {
            None
        } else {
            Some((FieldVal::Num(digits_value(s.subrange(i, j))), j))
        }
    } else if i + 4 <= s.len() && s[i] == 110 && s[i + 1] == 117 && s[i + 2] == 108 && s[i + 3]
        == 108 {
        Some((FieldVal::Null, i + 4))
    } else {
        None
    }
}

/// One `"key": value` member starting (after whitespace) at `i`: the key
/// bytes, the value, and the index just past it.
pub open spec fn parse_member(s: Seq<u8>, i: int) -> Option<(Seq<u8>, FieldVal, int)>
    recommends
        0 <= i <= s.len(),
{
    let k = skip_ws(s, i);
    if k < s.len() && s[k] == 34 {
        match string_end(s, k + 1) {
            Some(e) => {
                let c = skip_ws(s, e + 1);
                if c < s.len() && s[c] == 58 {
                    match parse_value(s, skip_ws(s, c + 1)) {
                        Some((v, j)) => Some((s.subrange(k + 1, e), v, j)),
                        None => None,
                    }
                } else {
                    None
                }
            },
            None => None,
        }
    } else {
        None
    }
}

/// The bytes of the member key `bitrate`.
pub open spec fn bitrate_key() -> Seq<u8> {
    seq![98u8, 105u8, 116u8, 114u8, 97u8, 116u8, 101u8]
}

/// The bytes of the member key `version`.
pub open spec fn version_key() -> Seq<u8> {
    seq![118u8, 101u8, 114u8, 115u8, 105u8, 111u8, 110u8]
}

/// What the `bitrate` member means: `null` is an unknown bitrate, a
/// number must fit `u32`, a string is malformed.
pub open spec fn bitrate_of(v: FieldVal) -> Option<Option<u32>> {
    match v {
        FieldVal::Null => Some(None),
        FieldVal::Num(n) => if n <= u32::MAX {
            Some(Some(n as u32))
        } else {
            None
        },
        FieldVal::Str(_) => None,
    }
}

/// What the `version` member means: it must be a string, read as the
/// ASCII characters of its bytes.
pub open spec fn version_of(v: FieldVal) -> Option<Seq<char>> {
    match v {
        FieldVal::Str(b) => Some(b.map(|_i: int, c: u8| c as char)),
        _ => None,
    }
}

/// The document the two members describe: one must be `bitrate`, the
/// other `version`, in either order, each with a value of its type.
pub open spec fn config_of_members(k1: Seq<u8>, v1: FieldVal, k2: Seq<u8>, v2: FieldVal) -> Option<
    ConfigView,
> {
    if k1 == bitrate_key() && k2 == version_key() {
        match (bitrate_of(v1), version_of(v2)) {
            (Some(b), Some(ver)) => Some(ConfigView { bitrate: b, version: ver }),
            _ => None,
        }
    } else if k1 == version_key() && k2 == bitrate_key() {
        match (bitrate_of(v2), version_of(v1)) {
            (Some(b), Some(ver)) => Some(ConfigView { bitrate: b, version: ver }),
            _ => None,
        }
    } else {
        None
    }
}

/// The configuration a byte string denotes: `Some` exactly when the
/// whole string is one object of the grammar with the two members.
pub open spec fn parse_config_spec(s: Seq<u8>) -> Option<ConfigView> {
    let o = skip_ws(s, 0);
    if o < s.len() && s[o] == 123 {
        match parse_member(s, o + 1) {
            Some((k1, v1, j1)) => {
                let c = skip_ws(s, j1);
                if c < s.len() && s[c] == 44 {
                    match parse_member(s, c + 1) {
                        Some((k2, v2, j2)) => {
                            let e = skip_ws(s, j2);
                            if e < s.len() && s[e] == 125 && skip_ws(s, e + 1) == s.len() {
                                config_of_members(k1, v1, k2, v2)
                            } else {
                                None
                            }
                        },
                        None => None,
                    }
                } else {
                    None
                }
            },
            None => None,
        }
    } else {
        None
    }
}

/// `pow10` is positive.
proof fn lemma_pow10_pos(n: nat)
    ensures
        pow10(n) >= 1,
    decreases n,
{
    if n > 0 {
        lemma_pow10_pos((n - 1) as nat);
    }
}

/// `pow10` is monotone.
proof fn lemma_pow10_mono(a: nat, b: nat)
    requires
        a <= b,
    ensures
        pow10(a) <= pow10(b),
    decreases b,
{
    if a < b {
        lemma_pow10_mono(a, (b - 1) as nat);
        lemma_pow10_pos((b - 1) as nat);
    }
}

/// Whether `b` is grammar whitespace.
fn ws_byte(b: u8) -> (r: bool)
    ensures
        r == is_ws(b),
{
    b == 32 || b == 9 || b == 10 || b == 13
}

/// Whether `b` is a decimal digit.
fn digit_byte(b: u8) -> (r: bool)
    ensures
        r == is_digit(b),
{
    48 <= b && b <= 57
}

/// Whether `b` may stand inside a string value.
fn string_byte(b: u8) -> (r: bool)
    ensures
        r == is_string_byte(b),
{
    32 <= b && b <= 126 && b != 34 && b != 92
}

/// Advances past whitespace.
fn skip_ws_at(s: &[u8], i: usize) -> (r: usize)
    requires
        i <= s.len(),
    ensures
        r == skip_ws(s@, i as int),
        i <= r <= s@.len(),
{
    let mut j = i;
    while j < s.len() && ws_byte(*vstd::slice::slice_index_get(s, j))
        invariant
            i <= j <= s.len(),
            skip_ws(s@, i as int) == skip_ws(s@, j as int),
        decreases s.len() - j,
    {
        j = j + 1;
    }
    j
}

/// Scans to the closing quote of a string whose content starts at `i`.
fn string_end_at(s: &[u8], i: usize) -> (r: Option<usize>)
    requires
        i <= s.len(),
    ensures
        match r {
            Some(e) => string_end(s@, i as int) == Some(e as int) && i <= e < s@.len(),
            None => string_end(s@, i as int) is None,
        },
{
    let mut j = i;
    while j < s.len()
        invariant
            i <= j <= s.len(),
            string_end(s@, i as int) == string_end(s@, j as int),
        decreases s.len() - j,
    {
        let b = *vstd::slice::slice_index_get(s, j);
        if b == 34 {
            return Some(j);
        }
        if !string_byte(b) {
            return None;
        }
        j = j + 1;
    }
    None
}

/// Scans past a run of decimal digits.
fn digits_end_at(s: &[u8], i: usize) -> (r: usize)
    requires
        i <= s.len(),
    ensures
        r == digits_end(s@, i as int),
        i <= r <= s@.len(),
        (i < s@.len() && is_digit(s@[i as int])) ==> i < r,
        forall|k: int| i <= k < r ==> is_digit(s@[k]),
{
    let mut j = i;
    while j < s.len() && digit_byte(*vstd::slice::slice_index_get(s, j))
        invariant
            i <= j <= s.len(),
            digits_end(s@, i as int) == digits_end(s@, j as int),
            forall|k: int| i <= k < j ==> is_digit(s@[k]),
        decreases s.len() - j,
    {
        j = j + 1;
    }
    j
}

/// Reads the decimal number starting at `i`, enforcing the grammar's
/// leading-zero and length rules.
fn parse_number_at(s: &[u8], i: usize) -> (r: Result<(u64, usize), ()>)
    requires
        i < s.len(),
        is_digit(s@[i as int]),
    ensures
        r matches Ok((n, j)) ==> ({
            &&& j == digits_end(s@, i as int)
            &&& i < j <= s@.len()
            &&& !(s@[i as int] == 48 && j != i + 1)
            &&& j - i <= 10
            &&& n as int == digits_value(s@.subrange(i as int, j as int))
        }),
        r is Err ==> ((s@[i as int] == 48 && digits_end(s@, i as int) != i + 1) || digits_end(
            s@,
            i as int,
        ) - i > 10),
{
    let end = digits_end_at(s, i);
    if *vstd::slice::slice_index_get(s, i) == 48 && end != i + 1 {
        return Err(());
    }
    if end - i > 10 {
        return Err(());
    }
    proof {
        assert(pow10(10) == 10000000000) by {
            reveal_with_fuel(pow10, 11);
        }
    }
    let mut acc: u64 = 0;
    let mut j = i;
    proof {
        assert(s@.subrange(i as int, i as int) =~= Seq::<u8>::empty());
    }
    while j < end
        invariant
            i <= j <= end,
            end <= s@.len(),
            end - i <= 10,
            pow10(10) == 10000000000,
            forall|k: int| i <= k < end ==> is_digit(s@[k]),
            acc as int == digits_value(s@.subrange(i as int, j as int)),
            acc < pow10((j - i) as nat),
        decreases end - j,
    {
        let d = *vstd::slice::slice_index_get(s, j);
        proof {
            assert(s@.subrange(i as int, j + 1).drop_last() =~= s@.subrange(i as int, j as int));
            assert(s@.subrange(i as int, j + 1).last() == s@[j as int]);
            assert(pow10((j + 1 - i) as nat) == 10 * pow10((j - i) as nat));
            lemma_pow10_mono((j - i) as nat, 9nat);
            assert(pow10(9) == 1000000000) by {
                reveal_with_fuel(pow10, 10);
            }
        }
        acc = acc * 10 + (d - 48) as u64;
        j = j + 1;
    }
    Ok((acc, end))
}

/// One member value as executable data; the bytes of a string value stay
/// bytes until the document is assembled.
enum FieldValue {
    Null,
    Num(u64),
    Bytes(Vec<u8>),
}

impl View for FieldValue {
    type V = FieldVal;

    closed spec fn view(&self) -> FieldVal {
        match self {
            FieldValue::Null => FieldVal::Null,
            FieldValue::Num(n) => FieldVal::Num(*n as int),
            FieldValue::Bytes(v) => FieldVal::Str(v@),
        }
    }
}

/// Reads the value starting at `i`.
fn parse_value_at(s: &[u8], i: usize) -> (r: Result<(FieldValue, usize), ()>)
    requires
        i <= s.len(),
    ensures
        r matches Ok(t) ==> parse_value(s@, i as int) == Some((t.0@, t.1 as int)) && t.1 <= s.len(),
        r is Err ==> parse_value(s@, i as int) is None,
{
    if i >= s.len() {
        return Err(());
    }
    let b = *vstd::slice::slice_index_get(s, i);
    if b == 34 {
        match string_end_at(s, i + 1) {
            Some(e) => {
                let content = vstd::slice::slice_to_vec(vstd::slice::slice_subrange(s, i + 1, e));
                Ok((FieldValue::Bytes(content), e + 1))
            },
            None => Err(()),
        }
    } else if digit_byte(b) {
        match parse_number_at(s, i) {
            Ok((n, j)) => Ok((FieldValue::Num(n), j)),
            Err(_) => Err(()),
        }
    } else if b == 110 {
        if s.len() - i >= 4 && *vstd::slice::slice_index_get(s, i + 1) == 117
            && *vstd::slice::slice_index_get(s, i + 2) == 108 && *vstd::slice::slice_index_get(
            s,
            i + 3,
        ) == 108 {
            Ok((FieldValue::Null, i + 4))
        } else {
            Err(())
        }
    } else {
        Err(())
    }
}

/// Reads one `"key": value` member starting (after whitespace) at `i`.
fn parse_member_at(s: &[u8], i: usize) -> (r: Result<(Vec<u8>, FieldValue, usize), ()>)
    requires
        i <= s.len(),
    ensures
        r matches Ok(t) ==> parse_member(s@, i as int) == Some((t.0@, t.1@, t.2 as int)) && t.2
            <= s.len(),
        r is Err ==> parse_member(s@, i as int) is None,
{
    let k = skip_ws_at(s, i);
    if k >= s.len() {
        return Err(());
    }
    if *vstd::slice::slice_index_get(s, k) != 34 {
        return Err(());
    }
    let e = match string_end_at(s, k + 1) {
        Some(e) => e,
        None => {
            return Err(());
        },
    };
    let key = vstd::slice::slice_to_vec(vstd::slice::slice_subrange(s, k + 1, e));
    let c = skip_ws_at(s, e + 1);
    if c >= s.len() {
        return Err(());
    }
    if *vstd::slice::slice_index_get(s, c) != 58 {
        return Err(());
    }
    let v = skip_ws_at(s, c + 1);
    match parse_value_at(s, v) {
        Ok((fv, j)) => Ok((key, fv, j)),
        Err(_) => Err(()),
    }
}

/// Tells the two member keys of the grammar apart: 1 for `bitrate`, 2
/// for `version`, 0 for any other key.
fn key_kind(k: &Vec<u8>) -> (r: u8)
    ensures
        (r == 1) <==> k@ == bitrate_key(),
        (r == 2) <==> k@ == version_key(),
{
    if k.len() != 7 {
        return 0;
    }
    if k[0] == 98 && k[1] == 105 && k[2] == 116 && k[3] == 114 && k[4] == 97 && k[5] == 116 && k[6]
        == 101 {
        proof {
            assert(k@ =~= bitrate_key());
        }
        return 1;
    }
    if k[0] == 118 && k[1] == 101 && k[2] == 114 && k[3] == 115 && k[4] == 105 && k[5] == 111
        && k[6] == 110 {
        proof {
            assert(k@ =~= version_key());
        }
        return 2;
    }
    0
}

/// Builds the string whose characters are the given ASCII bytes.
fn ascii_to_string(b: &Vec<u8>) -> (r: String)
    ensures
        r@ == b@.map(|_i: int, c: u8| c as char),
{
    let mut out = String::new();
    let mut i: usize = 0;
    while i < b.len()
        invariant
            i <= b@.len(),
            out@ =~= b@.subrange(0, i as int).map(|_i: int, c: u8| c as char),
        decreases b@.len() - i,
    {
        push_char(&mut out, b[i] as char);
        i = i + 1;
    }
    proof {
        assert(out@ =~= b@.map(|_i: int, c: u8| c as char));
    }
    out
}

/// Parses one configuration document. Returns the configuration exactly
/// when the whole input is one object of the grammar; any other input is
/// a `ProtocolError`.
pub fn parse_config(bytes: &[u8]) -> (r: Result<CanServerConfig, CanError>)
    ensures
        r matches Ok(c) ==> parse_config_spec(bytes@) == Some(c@),
        r is Err ==> r == Err::<CanServerConfig, CanError>(CanError::ProtocolError)
            && parse_config_spec(bytes@) is None,
{
    let o = skip_ws_at(bytes, 0);
    if o >= bytes.len() || *vstd::slice::slice_index_get(bytes, o) != 123 {
        return Err(CanError::ProtocolError);
    }
    let (k1, v1, j1) = match parse_member_at(bytes, o + 1) {
        Ok(t) => t,
        Err(_) => {
            return Err(CanError::ProtocolError);
        },
    };
    let c = skip_ws_at(bytes, j1);
    if c >= bytes.len() || *vstd::slice::slice_index_get(bytes, c) != 44 {
        return Err(CanError::ProtocolError);
    }
    let (k2, v2, j2) = match parse_member_at(bytes, c + 1) {
        Ok(t) => t,
        Err(_) => {
            return Err(CanError::ProtocolError);
        },
    };
    let e = skip_ws_at(bytes, j2);
    if e >= bytes.len() || *vstd::slice::slice_index_get(bytes, e) != 125 {
        return Err(CanError::ProtocolError);
    }
    if skip_ws_at(bytes, e + 1) != bytes.len() {
        return Err(CanError::ProtocolError);
    }
    let kk1 = key_kind(&k1);
    let kk2 = key_kind(&k2);
    let (bv, vv) = if kk1 == 1 && kk2 == 2 {
        (v1, v2)
    } else if kk1 == 2 && kk2 == 1 {
        (v2, v1)
    } else {
        return Err(CanError::ProtocolError);
    };
    let bitrate = match bv {
        FieldValue::Null => None,
        FieldValue::Num(n) => {
            if n > 4294967295 {
                return Err(CanError::ProtocolError);
            }
            Some(n as u32)
        },
        FieldValue::Bytes(_) => {
            return Err(CanError::ProtocolError);
        },
    };
    let version = match vv {
        FieldValue::Bytes(b) => ascii_to_string(&b),
        _ => {
            return Err(CanError::ProtocolError);
        },
    };
    Ok(CanServerConfig { bitrate, version })
}

} // verus!
