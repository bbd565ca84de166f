use vstd::prelude::*;
use vstd::std_specs::convert::FromSpec;
use vstd::std_specs::convert::FromSpecImpl;
use vstd::std_specs::convert::TryFromSpec;
use vstd::std_specs::convert::TryFromSpecImpl;
use vstd::utf8::{encode_utf8, is_ascii_chars, is_ascii_chars_encode_utf8};

verus! {

/// Keys must be shorter than this many bytes (of UTF-8).
pub const MAX_KEY_LENGTH: usize = 50;

/// Why a string was refused as an idempotency key.
#[derive(Debug, PartialEq, Eq, Structural)]
pub enum IdempotencyKeyError {
    /// The key is empty.
    Empty,
    /// The key has `MAX_KEY_LENGTH` bytes or more.
    TooLong,
}

/// The message an idempotency key error is reported with.
pub open spec fn key_error_message(e: IdempotencyKeyError) -> Seq<char> {
    match e {
        IdempotencyKeyError::Empty => "冪等キーが空になることはありません。"@,
        IdempotencyKeyError::TooLong => "冪等キーは50文字を超えることはできません。"@,
    }
}

impl IdempotencyKeyError {
    /// The message the error is reported with.
    pub fn message(&self) -> (r: String)
        ensures
            r@ == key_error_message(*self),
    {
        match self {
            IdempotencyKeyError::Empty => "冪等キーが空になることはありません。".to_owned(),
            IdempotencyKeyError::TooLong => "冪等キーは50文字を超えることはできません。".to_owned(),
        }
    }
}

/// The length of a string in bytes of UTF-8, as `str::len` counts it.
pub open spec fn utf8_len(s: Seq<char>) -> nat {
    encode_utf8(s).len()
}

/// What `IdempotencyKey::try_from` decides for a string.
pub open spec fn key_check(s: Seq<char>) -> Result<(), IdempotencyKeyError> {
    if s.len() == 0 {
        Err(IdempotencyKeyError::Empty)
    } else if utf8_len(s) >= MAX_KEY_LENGTH {
        Err(IdempotencyKeyError::TooLong)
    } else {
        Ok(())
    }
}

/// A key that makes a form submission idempotent: non-empty and shorter than
/// `MAX_KEY_LENGTH` bytes.
#[derive(Debug)]
pub struct IdempotencyKey(String);

impl View for IdempotencyKey {
    type V = Seq<char>;

    closed spec fn view(&self) -> Seq<char> {
        self.0@
    }
}

impl IdempotencyKey {
    #[verifier::type_invariant]
    spec fn wf(self) -> bool {
        key_check(self.0@) is Ok
    }

    /// The key as a string slice.
    pub fn as_ref(&self) -> (r: &str)
        ensures
            r@ == self@,
            key_check(r@) is Ok,
    {
        proof {
            use_type_invariant(self);
        }
        self.0.as_str()
    }
}

impl TryFrom<String> for IdempotencyKey {
    type Error = IdempotencyKeyError;

    fn try_from(s: String) -> (r: Result<IdempotencyKey, IdempotencyKeyError>) {
        if s.as_str().is_empty() {
            return Err(IdempotencyKeyError::Empty);
        }
        if s.as_str().as_bytes().len() >= MAX_KEY_LENGTH {
            return Err(IdempotencyKeyError::TooLong);
        }
        Ok(IdempotencyKey(s))
    }
}

impl TryFromSpecImpl<String> for IdempotencyKey {
    open spec fn obeys_try_from_spec() -> bool {
        true
    }

    closed spec fn try_from_spec(s: String) -> Result<IdempotencyKey, IdempotencyKeyError> {
        match key_check(s@) {
            Ok(()) => Ok(IdempotencyKey(s)),
            Err(e) => Err(e),
        }
    }
}

impl From<IdempotencyKey> for String {
    fn from(value: IdempotencyKey) -> (r: String) {
        value.0
    }
}

impl FromSpecImpl<IdempotencyKey> for String {
    open spec fn obeys_from_spec() -> bool {
        true
    }

    closed spec fn from_spec(value: IdempotencyKey) -> String {
        value.0
    }
}

/// `IdempotencyKey::try_from` accepts a string exactly when `key_check`
/// passes, keeping the string as it is, and refuses it with the error that
/// `key_check` names otherwise.
pub proof fn law_try_from(s: String)
    ensures
        match <IdempotencyKey as TryFromSpec<String>>::try_from_spec(s) {
            Ok(key) => key_check(s@) is Ok && key@ == s@,
            Err(e) => key_check(s@) == Err::<(), IdempotencyKeyError>(e),
        },
{
}

/// Turning a key back into a `String` gives the string it was made from:
/// `String::from` undoes a successful `IdempotencyKey::try_from`.
pub proof fn law_round_trip(s: String)
    requires
        key_check(s@) is Ok,
    ensures
        <IdempotencyKey as TryFromSpec<String>>::try_from_spec(s) matches Ok(key)
            && <String as FromSpec<IdempotencyKey>>::from_spec(key) == s,
{
}

/// Converting a key into a `String` keeps its characters.
pub proof fn law_into_string(key: IdempotencyKey)
    ensures
        <String as FromSpec<IdempotencyKey>>::from_spec(key)@ == key@,
{
}


/// The `i`-th hexadecimal digit (0 is the most significant) of a 128-bit value.
pub open spec fn nibble(bits: u128, i: int) -> u128 {
    (bits >> ((124 - 4 * i) as u32)) & 0xf
}

/// The digits of `bits` from position `from` up to `to`.
pub open spec fn hex_group(bits: u128, from: int, to: int) -> Seq<char> {
    Seq::new((to - from) as nat, |j: int| "0123456789abcdef"@[nibble(bits, from + j) as int])
}

/// The hyphenated text of a UUID: 8, 4, 4, 4 and 12 lower-case hexadecimal
/// digits separated by `-`, as `uuid::Uuid`'s `hyphenated()` writes it.
pub open spec fn uuid_text(bits: u128) -> Seq<char> {
    hex_group(bits, 0, 8) + seq!['-'] + hex_group(bits, 8, 12) + seq!['-'] + hex_group(bits, 12, 16)
        + seq!['-'] + hex_group(bits, 16, 20) + seq!['-'] + hex_group(bits, 20, 32)
}

proof fn lemma_nibble_below_16(x: u128)
    ensures
        x & 0xf < 16,
{
    assert(x & 0xf < 16) by (bit_vector);
}

fn append_hex_group(text: &mut String, bits: u128, from: usize, to: usize)
    requires
        from <= to <= 32,
    ensures
        final(text)@ == old(text)@ + hex_group(bits, from as int, to as int),
{
    proof {
        reveal_strlit("0123456789abcdef");
    }
    let ghost start = text@;
    let mut i = from;
    while i < to
        invariant
            from <= i <= to <= 32,
            text@ == start + hex_group(bits, from as int, i as int),
        decreases to - i,
    {
        let shifted = bits >> ((124 - 4 * i) as u32);
        let n = shifted & 0xf;
        proof {
            lemma_nibble_below_16(shifted);
            reveal_strlit("0123456789abcdef");
        }
        let digit = "0123456789abcdef".substring_char(n as usize, n as usize + 1);
        text.append(digit);
        assert(hex_group(bits, from as int, i + 1) =~= hex_group(bits, from as int, i as int).push(
            "0123456789abcdef"@[n as int],
        ));
        i = i + 1;
    }
}

/// The hyphenated text of the UUID with the given bits.
pub fn uuid_hyphenated(bits: u128) -> (r: String)
    ensures
        r@ == uuid_text(bits),
{
    proof {
        reveal_strlit("-");
    }
    let mut text = String::new();
    append_hex_group(&mut text, bits, 0, 8);
    text.append("-");
    append_hex_group(&mut text, bits, 8, 12);
    text.append("-");
    append_hex_group(&mut text, bits, 12, 16);
    text.append("-");
    append_hex_group(&mut text, bits, 16, 20);
    text.append("-");
    append_hex_group(&mut text, bits, 20, 32);
    assert(text@ =~= uuid_text(bits));
    text
}

/// The text of a UUID is 36 characters long, with `-` at positions 8, 13, 18
/// and 23, and it is a valid idempotency key.
pub proof fn law_uuid_text_shape(bits: u128)
    ensures
        uuid_text(bits).len() == 36,
        uuid_text(bits)[8] == '-' && uuid_text(bits)[13] == '-' && uuid_text(bits)[18] == '-'
            && uuid_text(bits)[23] == '-',
        key_check(uuid_text(bits)) is Ok,
{
    reveal_strlit("0123456789abcdef");
    let t = uuid_text(bits);
    assert forall|i: int| 0 <= i < t.len() implies '\0' <= #[trigger] t[i] <= '\u{7f}' by {
        if i != 8 && i != 13 && i != 18 && i != 23 {
            let n = if i < 8 {
                nibble(bits, i)
            } else if i < 13 {
                nibble(bits, i - 1)
            } else if i < 18 {
                nibble(bits, i - 2)
            } else if i < 23 {
                nibble(bits, i - 3)
            } else {
                nibble(bits, i - 4)
            };
            let k = if i < 8 { i } else if i < 13 { i - 1 } else if i < 18 { i - 2 } else if i < 23 { i - 3 } else { i - 4 };
            lemma_nibble_below_16(bits >> ((124 - 4 * k) as u32));
            assert(n < 16);
        }
    }
    assert(is_ascii_chars(t));
    is_ascii_chars_encode_utf8(t);
}


/// A key is accepted exactly when it is not empty and its UTF-8 encoding is
/// shorter than 50 bytes; an empty key is refused as empty, any other refused
/// key as too long.
pub proof fn law_key_rules(s: Seq<char>)
    ensures
        key_check(s) is Ok <==> (s.len() > 0 && encode_utf8(s).len() < 50),
        key_check(s) == Err::<(), IdempotencyKeyError>(IdempotencyKeyError::Empty) <==> s.len() == 0,
        key_check(s) == Err::<(), IdempotencyKeyError>(IdempotencyKeyError::TooLong) <==> (s.len() > 0
            && encode_utf8(s).len() >= 50),
{
}

/// Every digit of the text of a UUID is the lower-case hexadecimal digit of
/// the matching four bits, most significant first, in groups of 8, 4, 4, 4
/// and 12 digits.
pub proof fn law_uuid_text_digits(bits: u128, j: int)
    requires
        0 <= j < 32,
    ensures
        ({
            let at = if j < 8 { j } else if j < 12 { j + 1 } else if j < 16 { j + 2 } else if j < 20 {
                j + 3
            } else {
                j + 4
            };
            uuid_text(bits)[at] == "0123456789abcdef"@[((bits >> ((124 - 4 * j) as u32)) & 0xf) as int]
        }),
{
}

} // verus!
