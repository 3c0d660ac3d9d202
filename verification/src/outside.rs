//! Calls into other crates and into the parts of the standard library that carry no
//! specification of their own.
//!
//! Every function here is believed, not proved: its contract says what the called function
//! does, and the rest of the library rests on it.

use vstd::prelude::*;

use crate::decimal;
use crate::text;

verus! {

/// `dirs::home_dir`, as the bytes of the path. It reads the environment and the user database,
/// so nothing is claimed of the result.
#[verifier::external_body]
pub fn home_dir() -> (r: Option<Vec<u8>>) {
    dirs::home_dir().map(|p| p.into_os_string().into_encoded_bytes())
}

/// `std::time::SystemTime::now`, in whole seconds since the Unix epoch; `None` where the clock
/// stands before it. It reads the clock, so nothing is claimed of the result.
#[verifier::external_body]
pub fn unix_seconds() -> (r: Option<u64>) {
    std::time::SystemTime::now().duration_since(std::time::UNIX_EPOCH).ok().map(|d| d.as_secs())
}

/// The columns that `unicode_width::UnicodeWidthChar::width` gives for a character; `None` for
/// a control character.
pub uninterp spec fn char_columns(c: char) -> Option<nat>;

/// `unicode_width::UnicodeWidthChar::width`. Besides naming its result, two facts of its
/// tables are claimed: no character takes more columns than its UTF-8 encoding has bytes, and
/// a printable ASCII character takes one.
#[verifier::external_body]
pub(crate) fn unicode_char_width(c: char) -> (r: Option<usize>)
    ensures
        match r {
            Some(w) => char_columns(c) == Some(w as nat),
            None => char_columns(c) is None,
        },
        r matches Some(w) ==> w <= text::utf8_len(c),
        ' ' <= c && c <= '~' ==> r == Some(1usize),
{
    unicode_width::UnicodeWidthChar::width(c)
}

/// The columns that `unicode_width::UnicodeWidthStr::width` gives for a text.
pub uninterp spec fn text_columns(s: Seq<char>) -> nat;

/// `unicode_width::UnicodeWidthStr::width`. Besides naming its result, two facts are claimed:
/// a text of a single character beyond U+00A0 takes the columns of that character, and the
/// ellipsis takes one.
#[verifier::external_body]
pub(crate) fn unicode_str_width(s: &str) -> (r: usize)
    ensures
        r as nat == text_columns(s@),
        s@.len() == 1 && s@[0] > '\u{a0}' ==> char_columns(s@[0]) == Some(r as nat),
        s@ == seq!['…'] ==> r == 1,
{
    unicode_width::UnicodeWidthStr::width(s)
}

/// What the first group of a regular expression captures at the leftmost match in a text;
/// `None` where the expression does not match, has no such group or is not valid.
pub uninterp spec fn regex_group(pattern: Seq<char>, haystack: Seq<char>) -> Option<Seq<char>>;

/// `regex::Regex::new`, then `captures` and `get(1)`. Besides naming the result, it is claimed
/// that what a group captures is a part of the text that was searched.
#[verifier::external_body]
pub(crate) fn regex_first_group(haystack: &str, pattern: &str) -> (r: Option<String>)
    ensures
        text::opt_text(r) == regex_group(pattern@, haystack@),
        r matches Some(s) ==> text::contains(haystack@, s@),
{
    let re = regex::Regex::new(pattern).ok()?;
    re.captures(haystack).and_then(|c| c.get(1)).map(|m| m.as_str().to_string())
}

/// `regex::Regex::new`, then `is_match`, for the one pattern it is used with: eleven ASCII
/// digits and nothing else, the first of them a one.
#[verifier::external_body]
pub(crate) fn regex_is_match(haystack: &str, pattern: &str) -> (r: bool)
    requires
        pattern@ == "^1[0-9]{10}$"@,
    ensures
        r == (haystack@.len() == 11 && haystack@[0] == '1' && text::all_digits(haystack@)),
{
    regex::Regex::new(pattern).unwrap().is_match(haystack)
}

/// The lower-case form that `str::to_lowercase` gives for a text.
pub uninterp spec fn lower_case(s: Seq<char>) -> Seq<char>;

/// `str::to_lowercase`. Besides naming its result, it is claimed that an ASCII text keeps its
/// length, and that of its characters exactly the upper-case letters change, each to its
/// lower-case letter.
#[verifier::external_body]
pub(crate) fn to_lowercase(s: &str) -> (r: String)
    ensures
        r@ == lower_case(s@),
        vstd::utf8::is_ascii_chars(s@) ==> r@ == Seq::new(
            s@.len(),
            |i: int| text::ascii_lower(s@[i]),
        ),
{
    s.to_lowercase()
}

/// The value of a hexadecimal digit.
pub open spec fn hex_value(c: char) -> Option<int> {
    if text::is_digit(c) {
        Some(c as int - '0' as int)
    } else if 'a' <= c && c <= 'f' {
        Some(c as int - 'a' as int + 10)
    } else if 'A' <= c && c <= 'F' {
        Some(c as int - 'A' as int + 10)
    } else {
        None
    }
}

/// The text is made of pairs of hexadecimal digits.
pub open spec fn is_hex(s: Seq<char>) -> bool {
    s.len() % 2 == 0 && forall|i: int| 0 <= i < s.len() ==> hex_value(#[trigger] s[i]) is Some
}

/// The bytes that pairs of hexadecimal digits stand for.
pub open spec fn hex_bytes(s: Seq<char>) -> Seq<u8> {
    Seq::new(
        s.len() / 2,
        |i: int| (hex_value(s[2 * i])->0 * 16 + hex_value(s[2 * i + 1])->0) as u8,
    )
}

/// The lower-case hexadecimal digit for a value below sixteen.
pub open spec fn hex_char(v: int) -> char {
    if v < 10 {
        ('0' as int + v) as char
    } else {
        ('a' as int + v - 10) as char
    }
}

/// Half a byte of a sequence: the high half at an even position, the low half at an odd one.
pub open spec fn half_byte(b: Seq<u8>, i: int) -> int {
    if i % 2 == 0 {
        b[i / 2] as int / 16
    } else {
        b[i / 2] as int % 16
    }
}

/// Bytes as pairs of lower-case hexadecimal digits.
pub open spec fn hex_text(b: Seq<u8>) -> Seq<char> {
    Seq::new(b.len() * 2, |i: int| hex_char(half_byte(b, i)))
}

/// The position of the first byte, from the given one on, that is no hexadecimal digit.
pub open spec fn first_no_digit(b: Seq<u8>, from: int) -> int
    decreases b.len() - from,
{
    if from < 0 || from >= b.len() || hex_value(b[from] as char) is None {
        from
    } else {
        first_no_digit(b, from + 1)
    }
}

/// How the standard library's `Debug` writes a character.
pub uninterp spec fn char_debug(c: char) -> Seq<char>;

/// The character that `hex` sees at the first byte that is no hexadecimal digit.
pub open spec fn offender(b: Seq<u8>) -> char {
    b[first_no_digit(b, 0)] as char
}

/// What `hex` says of bytes that are not pairs of hexadecimal digits: that their number is odd,
/// else which is the first that is no digit (as shown), and where it stands.
pub open spec fn hex_refusal(b: Seq<u8>, shown: Seq<char>) -> Seq<char> {
    if b.len() % 2 != 0 {
        "Odd number of digits"@
    } else {
        "Invalid character "@ + shown + " at position "@ + decimal::digits(
            first_no_digit(b, 0) as nat,
        )
    }
}

/// `hex::decode`, with its error as text. It succeeds exactly on texts made of pairs of
/// hexadecimal digits, and gives the bytes that they stand for; the error tells what is wrong
/// with the bytes of the text.
#[verifier::external_body]
pub(crate) fn hex_decode(s: &str) -> (r: Result<Vec<u8>, String>)
    ensures
        r is Ok == is_hex(s@),
        r matches Ok(b) ==> b@ == hex_bytes(s@),
        r matches Err(m) ==> m@ == hex_refusal(
            vstd::utf8::encode_utf8(s@),
            char_debug(offender(vstd::utf8::encode_utf8(s@))),
        ),
{
    hex::decode(s).map_err(|e| e.to_string())
}

/// `hex::encode`: two lower-case hexadecimal digits for each byte.
#[verifier::external_body]
pub(crate) fn hex_encode(b: &[u8]) -> (r: String)
    ensures
        r@ == hex_text(b@),
{
    hex::encode(b)
}

/// The number that bytes stand for, high byte first.
pub open spec fn be_value(b: Seq<u8>) -> int
    decreases b.len(),
{
    if b.len() == 0 {
        0
    } else {
        be_value(b.drop_last()) * 256 + b.last()
    }
}

/// The bytes without leading zeros.
pub open spec fn without_zeros(b: Seq<u8>) -> Seq<u8>
    decreases b.len(),
{
    if b.len() > 0 && b[0] == 0 {
        without_zeros(b.drop_first())
    } else {
        b
    }
}

/// A message of the given length can be encrypted with a modulus and an exponent: the modulus
/// is odd, has at most 4096 bits and is at least eleven bytes longer than the message; the
/// exponent is odd, not one, of at most 33 bits and below the modulus.
pub open spec fn encryptable(modulus: Seq<u8>, exponent: u64, len: int) -> bool {
    &&& without_zeros(modulus).len() <= 512
    &&& be_value(modulus) % 2 == 1
    &&& exponent % 2 == 1
    &&& 2 <= exponent
    &&& exponent < 0x2_0000_0000
    &&& exponent < be_value(modulus)
    &&& len + 11 <= without_zeros(modulus).len()
}

/// A ciphertext of a message with the given padding, by PKCS #1 v1.5: as long as the modulus,
/// it stands for the padded message raised to the exponent, modulo the modulus.
pub open spec fn ciphertext(
    modulus: Seq<u8>,
    exponent: u64,
    message: Seq<u8>,
    padding: Seq<u8>,
    ct: Seq<u8>,
) -> bool {
    let k = without_zeros(modulus).len();
    &&& padding.len() + message.len() + 3 == k
    &&& forall|i: int| 0 <= i < padding.len() ==> #[trigger] padding[i] != 0
    &&& ct.len() == k
    &&& be_value(ct) == vstd::arithmetic::power::pow(
        be_value(seq![0u8, 2] + padding + seq![0u8] + message),
        exponent as nat,
    ) % be_value(modulus)
}

/// What `rsa` says of a key and a message that do not go together: the first thing that is
/// wrong.
pub open spec fn rsa_refusal(modulus: Seq<u8>, exponent: u64, len: int) -> Seq<char> {
    if without_zeros(modulus).len() > 512 {
        "modulus too large"@
    } else if exponent >= be_value(modulus) || be_value(modulus) % 2 == 0 {
        "invalid modulus"@
    } else if exponent % 2 == 0 {
        "invalid exponent"@
    } else if exponent < 2 {
        "public exponent too small"@
    } else if exponent >= 0x2_0000_0000 {
        "public exponent too large"@
    } else {
        "message too long"@
    }
}

/// `rsa::RsaPublicKey::new`, then `encrypt` with `Pkcs1v15Encrypt` and `rand::thread_rng`, with
/// the error as text. It succeeds exactly where the key admits a message of that length, and
/// else tells the first thing that is wrong. The padding is chosen at random: what is claimed is
/// that the result is a ciphertext of the message with some padding.
#[verifier::external_body]
pub(crate) fn rsa_encrypt_pkcs1v15(modulus: &[u8], exponent: u64, message: &[u8]) -> (r: Result<
    Vec<u8>,
    String,
>)
    ensures
        r is Ok == encryptable(modulus@, exponent, message@.len() as int),
        r matches Ok(ct) ==> exists|padding: Seq<u8>| #[trigger]
            ciphertext(modulus@, exponent, message@, padding, ct@),
        r matches Err(m) ==> m@ == rsa_refusal(modulus@, exponent, message@.len() as int),
{
    let n = rsa::BigUint::from_bytes_be(modulus);
    let key = rsa::RsaPublicKey::new(n, rsa::BigUint::from(exponent)).map_err(|e| e.to_string())?;
    key.encrypt(&mut rand::thread_rng(), rsa::Pkcs1v15Encrypt, message).map_err(|e| e.to_string())
}

} // verus!
