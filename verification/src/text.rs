//! Text out of bytes, and the forms in which values are shown.

use vstd::prelude::*;
use vstd::utf8::{
    decode_utf8, decode_utf8_encode_utf8, encode_utf8, encode_utf8_decode_utf8,
    encode_utf8_valid_utf8, valid_utf8,
};

verus! {

/// The character that stands for bytes which are no UTF-8.
pub const REPLACEMENT: char = '\u{FFFD}';

/// What `String::from_utf8_lossy` makes of a sequence of bytes.
pub uninterp spec fn lossy_text(bytes: Seq<u8>) -> Seq<char>;

/// Calls `String::from_utf8_lossy`.
///
/// Trusted: the text depends on the bytes alone; valid UTF-8 is decoded as it stands; anything
/// else leaves at least one replacement character. Where the replacement characters go is not
/// stated.
#[verifier::external_body]
fn from_utf8_lossy(bytes: &[u8]) -> (text: String)
    ensures
        text@ == lossy_text(bytes@),
        valid_utf8(bytes@) ==> text@ == decode_utf8(bytes@),
        !valid_utf8(bytes@) ==> text@.contains(REPLACEMENT),
{
    String::from_utf8_lossy(bytes).into_owned()
}

/// Bytes as readable text: decoded where they are valid UTF-8, with replacement characters
/// where they are not.
pub open spec fn readable(bytes: Seq<u8>) -> Seq<char> {
    if valid_utf8(bytes) {
        decode_utf8(bytes)
    } else {
        lossy_text(bytes)
    }
}

/// Turns bytes into readable text.
pub fn to_readable(bytes: &[u8]) -> (text: String)
    ensures
        text@ == readable(bytes@),
        !valid_utf8(bytes@) ==> text@.contains(REPLACEMENT),
{
    from_utf8_lossy(bytes)
}

/// Copies the texts from the index `from` on.
pub(crate) fn copy_from(texts: &Vec<String>, from: usize) -> (copy: Vec<String>)
    requires
        from <= texts@.len(),
    ensures
        copy@ == texts@.skip(from as int),
        copy.deep_view() == texts.deep_view().skip(from as int),
{
    let mut copy: Vec<String> = Vec::new();
    let mut i: usize = from;
    while i < texts.len()
        invariant
            from <= i <= texts@.len(),
            copy@ == texts@.subrange(from as int, i as int),
        decreases texts@.len() - i,
    {
        copy.push(texts[i].clone());
        i += 1;
    }
    assert(copy@ =~= texts@.skip(from as int));
    assert(copy.deep_view() =~= texts.deep_view().skip(from as int));
    copy
}

/// A copy of the texts from an index on has each of them at its place.
pub(crate) proof fn texts_of_a_copy(copy: Vec<String>, texts: Vec<String>, from: int)
    requires
        0 <= from <= texts@.len(),
        copy.deep_view() == texts.deep_view().skip(from),
    ensures
        copy@.len() == texts@.len() - from,
        forall|i: int| 0 <= i < copy@.len() ==> (#[trigger] copy@[i])@ == texts@[from + i]@,
{
    assert(copy.deep_view().len() == copy@.len());
    assert(texts.deep_view().len() == texts@.len());
    assert forall|i: int| 0 <= i < copy@.len() implies (#[trigger] copy@[i])@ == texts@[from
        + i]@ by {
        assert(copy.deep_view()[i] == texts.deep_view()[from + i]);
    }
}

/// What the `{:?}` form of a text is.
pub uninterp spec fn debug_text(text: Seq<char>) -> Seq<char>;

/// Formats a text with `{:?}`, the `Debug` form of `str`.
///
/// Trusted: the form depends on the text alone. How quotes and special characters are escaped
/// is not stated.
#[verifier::external_body]
pub(crate) fn debug_form(text: &str) -> (form: String)
    ensures
        form@ == debug_text(text@),
{
    format!("{:?}", text)
}

/// The digit for a number below ten.
pub open spec fn digit(n: int) -> char {
    (('0' as int) + n) as char
}

/// A number in decimal digits, without leading zeros.
pub open spec fn decimal(n: nat) -> Seq<char>
    decreases n,
{
    if n < 10 {
        seq![digit(n as int)]
    } else {
        decimal(n / 10).push(digit((n % 10) as int))
    }
}

/// Appends a digit to a text.
fn push_digit(text: String, n: u8) -> (res: String)
    requires
        n < 10,
    ensures
        res@ == text@.push(digit(n as int)),
{
    let digits: [&str; 10] = ["0", "1", "2", "3", "4", "5", "6", "7", "8", "9"];
    proof {
        reveal_strlit("0");
        reveal_strlit("1");
        reveal_strlit("2");
        reveal_strlit("3");
        reveal_strlit("4");
        reveal_strlit("5");
        reveal_strlit("6");
        reveal_strlit("7");
        reveal_strlit("8");
        reveal_strlit("9");
    }
    let res = text.concat(digits[n as usize]);
    assert(res@ =~= text@.push(digit(n as int)));
    res
}

/// Writes a number in decimal digits.
pub fn to_decimal(n: u8) -> (text: String)
    ensures
        text@ == decimal(n as nat),
{
    reveal_with_fuel(decimal, 3);
    let mut text = String::new();
    if n >= 100 {
        text = push_digit(text, n / 100);
    }
    if n >= 10 {
        text = push_digit(text, n / 10 % 10);
    }
    text = push_digit(text, n % 10);
    assert(text@ =~= decimal(n as nat));
    text
}

/// Text survives the way through bytes: the text of the UTF-8 bytes of a text is that text, and
/// bytes that are valid UTF-8 are the bytes of their text. What other bytes become is the standard
/// library's business, and shows at least one replacement character.
pub proof fn text_survives_as_bytes(bytes: &[u8], text: String)
    requires
        call_ensures(to_readable, (bytes,), text),
    ensures
        forall|original: Seq<char>|
            bytes@ == #[trigger] encode_utf8(original) ==> text@ == original,
        valid_utf8(bytes@) ==> encode_utf8(text@) == bytes@,
        !valid_utf8(bytes@) ==> text@ == lossy_text(bytes@) && text@.contains('\u{FFFD}'),
{
    assert forall|original: Seq<char>| bytes@ == #[trigger] encode_utf8(original) implies text@
        == original by {
        encode_utf8_valid_utf8(original);
        encode_utf8_decode_utf8(original);
    }
    if valid_utf8(bytes@) {
        decode_utf8_encode_utf8(bytes@);
    }
}

/// The readable form of bytes stands for them: the form of a text's UTF-8 bytes is that text, of
/// any valid UTF-8 it is the text with these bytes, and of anything else it is the standard
/// library's.
pub proof fn readable_forms_stand_for_their_bytes(bytes: Seq<u8>, original: Seq<char>)
    ensures
        readable(encode_utf8(original)) == original,
        valid_utf8(bytes) ==> encode_utf8(readable(bytes)) == bytes,
        !valid_utf8(bytes) ==> readable(bytes) == lossy_text(bytes),
{
    encode_utf8_valid_utf8(original);
    encode_utf8_decode_utf8(original);
    if valid_utf8(bytes) {
        decode_utf8_encode_utf8(bytes);
    }
}

/// A number is written in the decimal system: read digit by digit, the text has the number's
/// value again; there are only digits, and no leading zero.
pub proof fn decimals_have_their_value(n: u8, text: String)
    requires
        call_ensures(to_decimal, (n,), text),
    ensures
        1 <= text@.len() <= 3,
        forall|i: int| 0 <= i < text@.len() ==> '0' <= #[trigger] text@[i] <= '9',
        text@.len() > 1 ==> text@[0] != '0',
        text@.len() == 1 ==> n == text@[0] as int - 48,
        text@.len() == 2 ==> n == 10 * (text@[0] as int - 48) + (text@[1] as int - 48),
        text@.len() == 3 ==> n == 100 * (text@[0] as int - 48) + 10 * (text@[1] as int - 48) + (
        text@[2] as int - 48),
{
    reveal_with_fuel(decimal, 3);
}

} // verus!
