use vstd::prelude::*;
use vstd::slice::slice_subrange;
use vstd::utf8::{decode_utf8, valid_utf8};

verus! {

/// The lower-case hexadecimal digit of a value below sixteen.
pub open spec fn hex_digit(d: nat) -> char
    recommends
        d < 16,
{
    "0123456789abcdef"@[d as int]
}

/// A number in lower-case hexadecimal, most significant digit first and
/// without leading zeros; zero is "0".
pub open spec fn lower_hex(n: nat) -> Seq<char>
    decreases n,
{
    if n < 16 {
        seq![hex_digit(n)]
    } else {
        lower_hex(n / 16).push(hex_digit(n % 16))
    }
}

fn hex_digit_text(d: usize) -> (text: &'static str)
    requires
        d < 16,
    ensures
        text@ == seq![hex_digit(d as nat)],
{
    proof {
        reveal_strlit("0123456789abcdef");
    }
    let text = "0123456789abcdef".substring_char(d, d + 1);
    assert(text@ =~= seq![hex_digit(d as nat)]);
    text
}

/// Writes a number in lower-case hexadecimal.
pub fn to_lower_hex(n: usize) -> (text: String)
    ensures
        text@ == lower_hex(n as nat),
    decreases n,
{
    if n < 16 {
        hex_digit_text(n).to_string()
    } else {
        let mut text = to_lower_hex(n / 16);
        text.append(hex_digit_text(n % 16));
        text
    }
}

/// Where the text held in a buffer ends: at the first zero byte, or at the
/// end of the buffer when it holds none.
pub open spec fn text_end(buffer: Seq<u8>) -> int
    decreases buffer.len(),
{
    if buffer.len() == 0 || buffer[0] == 0 {
        0
    } else {
        1 + text_end(buffer.drop_first())
    }
}

/// `text_end` is the one position before which no byte is zero and which is
/// either the end of the buffer or the place of a zero byte.
pub proof fn lemma_text_end(buffer: Seq<u8>, end: int)
    ensures
        0 <= text_end(buffer) <= buffer.len(),
        end == text_end(buffer) <==> {
            &&& 0 <= end <= buffer.len()
            &&& forall|i: int| 0 <= i < end ==> buffer[i] != 0
            &&& end < buffer.len() ==> buffer[end] == 0
        },
    decreases buffer.len(),
{
    if buffer.len() == 0 || buffer[0] == 0 {
    } else {
        let rest = buffer.drop_first();
        lemma_text_end(rest, end - 1);
        assert(forall|i: int| 0 <= i < rest.len() ==> rest[i] == buffer[i + 1]);
        if end == text_end(buffer) {
            assert forall|i: int| 0 <= i < end implies buffer[i] != 0 by {
                if i > 0 {
                    assert(rest[i - 1] == buffer[i]);
                }
            }
        }
        if 0 <= end <= buffer.len() && (forall|i: int| 0 <= i < end ==> buffer[i] != 0) && (end
            < buffer.len() ==> buffer[end] == 0) {
            assert(end >= 1);
            assert forall|i: int| 0 <= i < end - 1 implies rest[i] != 0 by {
                assert(rest[i] == buffer[i + 1]);
            }
        }
    }
}

/// The text that `String::from_utf8_lossy` makes of a byte sequence.
pub uninterp spec fn utf8_lossy_text(bytes: Seq<u8>) -> Seq<char>;

/// `String::from_utf8_lossy`, with the result as an owned string. The result
/// depends on the bytes alone; for well-formed UTF-8 it is the decoded
/// text, as the standard library documents. Nothing is claimed here about
/// how ill-formed sequences are replaced.
#[verifier::external_body]
fn from_utf8_lossy(bytes: &[u8]) -> (text: String)
    ensures
        text@ == utf8_lossy_text(bytes@),
        valid_utf8(bytes@) ==> text@ == decode_utf8(bytes@),
{
    String::from_utf8_lossy(bytes).into_owned()
}

/// The text of a buffer that a monitor filled: the bytes before the first
/// zero byte, decoded as UTF-8 with ill-formed sequences replaced.
pub open spec fn buffer_text(buffer: Seq<u8>) -> Seq<char> {
    utf8_lossy_text(buffer.take(text_end(buffer)))
}

/// Reads the text out of a zero-terminated buffer.
pub fn text_from_buffer(buffer: &[u8]) -> (text: String)
    ensures
        text@ == buffer_text(buffer@),
        valid_utf8(buffer@.take(text_end(buffer@))) ==> text@ == decode_utf8(
            buffer@.take(text_end(buffer@)),
        ),
{
    let mut end: usize = 0;
    while end < buffer.len() && buffer[end] != 0
        invariant
            end <= buffer.len(),
            forall|i: int| 0 <= i < end ==> buffer@[i] != 0,
        decreases buffer.len() - end,
    {
        end += 1;
    }
    proof {
        lemma_text_end(buffer@, end as int);
    }
    let head = slice_subrange(buffer, 0, end);
    assert(head@ =~= buffer@.take(end as int));
    from_utf8_lossy(head)
}

/// The value of a digit character in a radix of at most 36: `0`-`9` count
/// zero to nine, letters of either case ten and up. `None` for any other
/// character and for a digit the radix does not reach.
pub open spec fn digit_value(c: char, radix: u32) -> Option<nat> {
    let code = c as u32;
    let value: int = if 48 <= code <= 57 {
        code - 48
    } else if 97 <= code <= 122 {
        code - 97 + 10
    } else if 65 <= code <= 90 {
        code - 65 + 10
    } else {
        -1
    };
    if 0 <= value < radix {
        Some(value as nat)
    } else {
        None
    }
}

/// The number that a run of digits writes, most significant digit first.
/// `None` when the run is empty or holds anything but digits of the radix.
pub open spec fn digits_value(digits: Seq<char>, radix: u32) -> Option<nat>
    decreases digits.len(),
{
    if digits.len() == 0 {
        None
    } else {
        match digit_value(digits.last(), radix) {
            None => None,
            Some(unit) => if digits.len() == 1 {
                Some(unit)
            } else {
                match digits_value(digits.drop_last(), radix) {
                    None => None,
                    Some(upper) => Some(upper * (radix as nat) + unit),
                }
            },
        }
    }
}

/// The number that a text writes as an unsigned integer: an optional `+`,
/// then at least one digit, and nothing else.
pub open spec fn unsigned_value(text: Seq<char>, radix: u32) -> Option<nat> {
    if text.len() > 0 && text[0] == '+' {
        digits_value(text.skip(1), radix)
    } else {
        digits_value(text, radix)
    }
}

/// Whether a text writes a number that one byte can hold.
pub open spec fn writes_u8(text: Seq<char>, radix: u32) -> bool {
    unsigned_value(text, radix) matches Some(value) && value <= 255
}

/// What `u8::from_str_radix` reports, as text, for an input it rejects.
pub uninterp spec fn radix_error_text(text: Seq<char>, radix: u32) -> Seq<char>;

/// What `str::parse::<u8>` reports, as text, for an input it rejects.
pub uninterp spec fn decimal_error_text(text: Seq<char>) -> Seq<char>;

/// `u8::from_str_radix`, with the error rendered by its `Display`. As its
/// documentation says, it accepts an optional `+` followed by digits of the
/// radix and nothing else, and fails when the number does not fit. The
/// wording of the error is a function of the input and is left unstated.
/// The standard function panics for a radix outside 2 to 36.
#[verifier::external_body]
pub(crate) fn u8_from_str_radix(text: &str, radix: u32) -> (r: Result<u8, String>)
    requires
        2 <= radix <= 36,
    ensures
        r is Ok <==> writes_u8(text@, radix),
        r matches Ok(value) ==> unsigned_value(text@, radix) == Some(value as nat),
        r matches Err(message) ==> message@ == radix_error_text(text@, radix),
{
    match u8::from_str_radix(text, radix) {
        Ok(value) => Ok(value),
        Err(e) => Err(e.to_string()),
    }
}

/// `str::parse::<u8>`, with the error rendered by its `Display`. As its
/// documentation says, it accepts an optional `+` followed by decimal digits
/// and nothing else, and fails when the number does not fit. The wording of
/// the error is a function of the input and is left unstated.
#[verifier::external_body]
pub(crate) fn u8_from_decimal(text: &str) -> (r: Result<u8, String>)
    ensures
        r is Ok <==> writes_u8(text@, 10),
        r matches Ok(value) ==> unsigned_value(text@, 10) == Some(value as nat),
        r matches Err(message) ==> message@ == decimal_error_text(text@),
{
    match text.parse::<u8>() {
        Ok(value) => Ok(value),
        Err(e) => Err(e.to_string()),
    }
}

} // verus!
