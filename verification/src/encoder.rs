//! The credential encoder: a secret becomes a run of `#<decimal byte>` tokens,
//! the only form in which a password may enter an automation script.

use crate::text::{
    all_digits, chars_of, decimal, decimal_value, digit_value, is_digit, lemma_decimal,
    push_decimal,
};
use vstd::prelude::*;
use vstd::string::StringSliceAdditionalSpecFns;
use vstd::utf8::*;

verus! {

/// The byte of the double-quote character.
pub const QUOTE: u8 = 0x22;

/// The token of one byte: `#` and the byte's decimal value.
pub open spec fn token(b: u8) -> Seq<char> {
    seq!['#'] + decimal(b as nat)
}

/// The tokens of a byte sequence, one after another with no separator.
pub open spec fn tokens(bytes: Seq<u8>) -> Seq<char>
    decreases bytes.len(),
{
    if bytes.len() == 0 {
        Seq::empty()
    } else {
        tokens(bytes.drop_last()) + token(bytes.last())
    }
}

/// The bytes that one character of a secret contributes: its UTF-8 bytes,
/// and a double quote twice where quotes are doubled.
pub open spec fn char_bytes(c: char, quote_context: bool) -> Seq<u8> {
    if quote_context && c == '"' {
        seq![QUOTE, QUOTE]
    } else {
        encode_scalar(c as u32)
    }
}

/// The bytes that a secret contributes, character by character.
pub open spec fn secret_bytes(secret: Seq<char>, quote_context: bool) -> Seq<u8>
    decreases secret.len(),
{
    if secret.len() == 0 {
        Seq::empty()
    } else {
        char_bytes(secret[0], quote_context) + secret_bytes(secret.drop_first(), quote_context)
    }
}

/// The encoded form of a secret.
pub open spec fn encoded_secret(secret: Seq<char>, quote_context: bool) -> Seq<char> {
    tokens(secret_bytes(secret, quote_context))
}

/// A byte sequence with every quote byte doubled where quotes are doubled.
pub open spec fn doubled(bytes: Seq<u8>, quote_context: bool) -> Seq<u8>
    decreases bytes.len(),
{
    if bytes.len() == 0 {
        Seq::empty()
    } else if quote_context && bytes.last() == QUOTE {
        doubled(bytes.drop_last(), quote_context).push(QUOTE).push(QUOTE)
    } else {
        doubled(bytes.drop_last(), quote_context).push(bytes.last())
    }
}

/// The tokens of two byte sequences put together are their tokens put
/// together.
pub proof fn lemma_tokens_concat(a: Seq<u8>, b: Seq<u8>)
    ensures
        tokens(a + b) == tokens(a) + tokens(b),
    decreases b.len(),
{
    if b.len() == 0 {
        assert(a + b =~= a);
        assert(tokens(a) + tokens(b) =~= tokens(a));
    } else {
        assert((a + b).drop_last() =~= a + b.drop_last());
        assert((a + b).last() == b.last());
        lemma_tokens_concat(a, b.drop_last());
        assert(tokens(a + b) =~= tokens(a) + tokens(b));
    }
}

/// Doubling goes through a concatenation.
pub proof fn lemma_doubled_concat(a: Seq<u8>, b: Seq<u8>, quote_context: bool)
    ensures
        doubled(a + b, quote_context) == doubled(a, quote_context) + doubled(b, quote_context),
    decreases b.len(),
{
    if b.len() == 0 {
        assert(a + b =~= a);
        assert(doubled(a, quote_context) + doubled(b, quote_context) =~= doubled(
            a,
            quote_context,
        ));
    } else {
        assert((a + b).drop_last() =~= a + b.drop_last());
        assert((a + b).last() == b.last());
        lemma_doubled_concat(a, b.drop_last(), quote_context);
        assert(doubled(a + b, quote_context) =~= doubled(a, quote_context) + doubled(
            b,
            quote_context,
        ));
    }
}

/// No byte of the sequence is the quote byte.
pub open spec fn quote_free(bytes: Seq<u8>) -> bool {
    forall|i: int| 0 <= i < bytes.len() ==> bytes[i] != QUOTE
}

/// Doubling changes nothing where there is no quote byte.
proof fn lemma_doubled_without_quote(bytes: Seq<u8>, quote_context: bool)
    requires
        quote_free(bytes),
    ensures
        doubled(bytes, quote_context) == bytes,
    decreases bytes.len(),
{
    if bytes.len() > 0 {
        lemma_doubled_without_quote(bytes.drop_last(), quote_context);
        assert(bytes.drop_last().push(bytes.last()) =~= bytes);
    }
}

/// A leading byte of a longer encoding and a continuation byte have their
/// top bit set, which the quote byte has not.
proof fn lemma_high_bytes_are_no_quote(x: u8)
    ensures
        0xC0u8 | x != 0x22u8,
        0xE0u8 | x != 0x22u8,
        0xF0u8 | x != 0x22u8,
        0x80u8 | x != 0x22u8,
{
    assert(0xC0u8 | x != 0x22u8) by (bit_vector);
    assert(0xE0u8 | x != 0x22u8) by (bit_vector);
    assert(0xF0u8 | x != 0x22u8) by (bit_vector);
    assert(0x80u8 | x != 0x22u8) by (bit_vector);
}

/// A character below 128 is encoded as the byte of its own value.
proof fn lemma_single_byte_is_the_scalar(v: u32)
    requires
        v <= 0x7F,
    ensures
        (v & 0x7F) as u8 == v,
{
    assert(v <= 0x7F ==> (v & 0x7F) == v) by (bit_vector);
}

/// In UTF-8 the quote byte occurs only as the encoding of the quote character.
pub proof fn lemma_scalar_quote(c: char)
    ensures
        c == '"' ==> encode_scalar(c as u32) == seq![QUOTE],
        c != '"' ==> quote_free(encode_scalar(c as u32)),
{
    let v = c as u32;
    if has_width_1_encoding(v) {
        lemma_single_byte_is_the_scalar(v);
        assert(encode_scalar(v) =~= seq![v as u8]);
    } else {
        lemma_high_bytes_are_no_quote(((v >> 6) & 0x1F) as u8);
        lemma_high_bytes_are_no_quote(((v >> 12) & 0x0F) as u8);
        lemma_high_bytes_are_no_quote(((v >> 18) & 0x7) as u8);
        lemma_high_bytes_are_no_quote((v & 0x3F) as u8);
        lemma_high_bytes_are_no_quote(((v >> 6) & 0x3F) as u8);
        lemma_high_bytes_are_no_quote(((v >> 12) & 0x3F) as u8);
    }
}

/// Doubling the quote characters of a secret and doubling the quote bytes of
/// its UTF-8 encoding give the same bytes.
pub proof fn lemma_secret_bytes_by_bytes(secret: Seq<char>, quote_context: bool)
    ensures
        secret_bytes(secret, quote_context) == doubled(encode_utf8(secret), quote_context),
    decreases secret.len(),
{
    if secret.len() == 0 {
    } else {
        let c = secret[0];
        let head = encode_scalar(c as u32);
        let tail = encode_utf8(secret.drop_first());
        lemma_secret_bytes_by_bytes(secret.drop_first(), quote_context);
        lemma_doubled_concat(head, tail, quote_context);
        lemma_scalar_quote(c);
        if c == '"' {
            assert(head.drop_last() =~= Seq::<u8>::empty());
            assert(head.last() == QUOTE);
            assert(doubled(head.drop_last(), quote_context) =~= Seq::<u8>::empty());
            if quote_context {
                assert(doubled(head, quote_context) =~= seq![QUOTE, QUOTE]);
            } else {
                assert(doubled(head, quote_context) =~= seq![QUOTE]);
            }
        } else {
            lemma_doubled_without_quote(head, quote_context);
        }
    }
}

/// The token of a byte in front of the tokens of the bytes after it.
pub proof fn lemma_tokens_front(bytes: Seq<u8>)
    requires
        bytes.len() > 0,
    ensures
        tokens(bytes) == token(bytes[0]) + tokens(bytes.drop_first()),
{
    let head = seq![bytes[0]];
    assert(head + bytes.drop_first() =~= bytes);
    lemma_tokens_concat(head, bytes.drop_first());
    assert(head.drop_last() =~= Seq::<u8>::empty());
    assert(tokens(head.drop_last()) =~= Seq::<char>::empty());
    assert(tokens(head) =~= token(bytes[0]));
}

/// A character that a token text may hold: `#` or a decimal digit.
pub open spec fn is_token_char(c: char) -> bool {
    c == '#' || is_digit(c)
}

/// Every character of the text is `#` or a decimal digit.
pub open spec fn is_token_text(text: Seq<char>) -> bool {
    forall|i: int| 0 <= i < text.len() ==> is_token_char(#[trigger] text[i])
}

/// The tokens of any bytes hold nothing but `#` and decimal digits.
pub proof fn lemma_tokens_are_token_text(bytes: Seq<u8>)
    ensures
        is_token_text(tokens(bytes)),
    decreases bytes.len(),
{
    if bytes.len() > 0 {
        lemma_tokens_are_token_text(bytes.drop_last());
        lemma_decimal(bytes.last() as nat);
    }
}

/// Injection safety: whatever the secret and whichever the quote context, its
/// encoded form holds only `#` and decimal digits, so neither a single quote,
/// a double quote, a blank nor a line break can occur in it.
pub proof fn lemma_encoded_secret_is_inert(secret: Seq<char>, quote_context: bool)
    ensures
        is_token_text(encoded_secret(secret, quote_context)),
        !encoded_secret(secret, quote_context).contains('\''),
        !encoded_secret(secret, quote_context).contains('"'),
        !encoded_secret(secret, quote_context).contains(' '),
        !encoded_secret(secret, quote_context).contains('\n'),
        !encoded_secret(secret, quote_context).contains('\r'),
{
    lemma_tokens_are_token_text(secret_bytes(secret, quote_context));
}

/// The length of the run of decimal digits that the text starts with.
pub open spec fn digit_run(text: Seq<char>) -> nat
    decreases text.len(),
{
    if text.len() == 0 || !is_digit(text[0]) {
        0
    } else {
        1 + digit_run(text.drop_first())
    }
}

/// The inverse of [`tokens`]: the bytes that a token text stands for, or
/// `None` where the text is no run of `#<decimal byte>` tokens. A token is
/// `#` and one to three decimal digits whose value is at most 255.
pub open spec fn decode_tokens(text: Seq<char>) -> Option<Seq<u8>>
    decreases text.len(),
    via decode_tokens_terminates
{
    if text.len() == 0 {
        Some(Seq::empty())
    } else if text[0] != '#' {
        None
    } else {
        let n = digit_run(text.drop_first()) as int;
        let value = decimal_value(text.subrange(1, 1 + n));
        if n == 0 || n > 3 || value > 255 {
            None
        } else {
            match decode_tokens(text.skip(1 + n)) {
                Some(rest) => Some(seq![value as u8] + rest),
                None => None,
            }
        }
    }
}

/// The bytes in front of what the rest of a text decodes to.
pub open spec fn decoded_after(bytes: Seq<u8>, rest: Option<Seq<u8>>) -> Option<Seq<u8>> {
    match rest {
        Some(r) => Some(bytes + r),
        None => None,
    }
}

/// The view of an optional byte vector.
pub open spec fn opt_bytes(bytes: Option<Vec<u8>>) -> Option<Seq<u8>> {
    match bytes {
        Some(b) => Some(b@),
        None => None,
    }
}

#[via_fn]
proof fn decode_tokens_terminates(text: Seq<char>) {
    if text.len() > 0 {
        lemma_digit_run_bound(text.drop_first());
    }
}

/// A digit run is no longer than its text.
proof fn lemma_digit_run_bound(text: Seq<char>)
    ensures
        digit_run(text) <= text.len(),
    decreases text.len(),
{
    if text.len() > 0 && is_digit(text[0]) {
        lemma_digit_run_bound(text.drop_first());
    }
}

/// A run of digits that ends with the text, or in front of something else,
/// is the whole leading digit run.
proof fn lemma_digit_run_is(text: Seq<char>, n: int)
    requires
        0 <= n <= text.len(),
        forall|k: int| 0 <= k < n ==> is_digit(#[trigger] text[k]),
        n == text.len() || !is_digit(text[n]),
    ensures
        digit_run(text) == n,
    decreases n,
{
    if n > 0 {
        assert(is_digit(text[0]));
        assert forall|k: int| 0 <= k < n - 1 implies is_digit(
            #[trigger] text.drop_first()[k],
        ) by {
            assert(text.drop_first()[k] == text[k + 1]);
        }
        lemma_digit_run_is(text.drop_first(), n - 1);
    }
}

/// A text that begins with `n` digits has a leading digit run of at least
/// `n`.
proof fn lemma_digit_run_at_least(text: Seq<char>, n: int)
    requires
        0 <= n <= text.len(),
        forall|k: int| 0 <= k < n ==> is_digit(#[trigger] text[k]),
    ensures
        digit_run(text) >= n,
    decreases n,
{
    if n > 0 {
        assert(is_digit(text[0]));
        assert forall|k: int| 0 <= k < n - 1 implies is_digit(
            #[trigger] text.drop_first()[k],
        ) by {
            assert(text.drop_first()[k] == text[k + 1]);
        }
        lemma_digit_run_at_least(text.drop_first(), n - 1);
    }
}

/// The value of at most `k` digits is below the `k`-th power of ten, for
/// the lengths that a token can have.
proof fn lemma_value_of_digits(digits: Seq<char>)
    requires
        all_digits(digits),
    ensures
        digits.len() == 0 ==> decimal_value(digits) == 0,
        digits.len() == 1 ==> decimal_value(digits) < 10,
        digits.len() == 2 ==> decimal_value(digits) < 100,
        digits.len() == 3 ==> decimal_value(digits) < 1000,
    decreases digits.len(),
{
    if digits.len() > 0 {
        assert forall|k: int| 0 <= k < digits.drop_last().len() implies is_digit(
            #[trigger] digits.drop_last()[k],
        ) by {
            assert(digits.drop_last()[k] == digits[k]);
        }
        lemma_value_of_digits(digits.drop_last());
        assert(is_digit(digits[digits.len() - 1]));
    }
}

/// Decoding the tokens of any bytes gives those bytes back.
pub proof fn lemma_decode_tokens(bytes: Seq<u8>)
    ensures
        decode_tokens(tokens(bytes)) == Some(bytes),
    decreases bytes.len(),
{
    if bytes.len() == 0 {
    } else {
        let b = bytes[0];
        let digits = decimal(b as nat);
        let rest = tokens(bytes.drop_first());
        let text = tokens(bytes);
        lemma_tokens_front(bytes);
        lemma_decimal(b as nat);
        lemma_decode_tokens(bytes.drop_first());
        assert(text =~= seq!['#'] + digits + rest);
        assert(text.drop_first() =~= digits + rest);
        if bytes.drop_first().len() > 0 {
            lemma_tokens_front(bytes.drop_first());
            assert(rest[0] == '#');
        }
        assert forall|k: int| 0 <= k < digits.len() implies is_digit(
            #[trigger] (digits + rest)[k],
        ) by {
            assert((digits + rest)[k] == digits[k]);
        }
        lemma_digit_run_is(digits + rest, digits.len() as int);
        assert(text.subrange(1, 1 + digits.len() as int) =~= digits);
        assert(text.skip(1 + digits.len() as int) =~= rest);
        assert(seq![b] + bytes.drop_first() =~= bytes);
    }
}

/// Round trip: decoding the encoded form of a secret gives the bytes that
/// were encoded, which are the secret's UTF-8 bytes with each double quote
/// doubled where quotes are doubled.
pub proof fn lemma_round_trip_with_doubling(secret: Seq<char>, quote_context: bool)
    ensures
        decode_tokens(encoded_secret(secret, quote_context)) == Some(
            doubled(encode_utf8(secret), quote_context),
        ),
{
    lemma_decode_tokens(secret_bytes(secret, quote_context));
    lemma_secret_bytes_by_bytes(secret, quote_context);
}

/// Round trip: where no quote is doubled, because quotes are not doubled or
/// the secret holds none, decoding the encoded form of a secret gives
/// exactly the secret's own UTF-8 bytes.
pub proof fn lemma_round_trip(secret: Seq<char>, quote_context: bool)
    requires
        !quote_context || !secret.contains('"'),
    ensures
        decode_tokens(encoded_secret(secret, quote_context)) == Some(encode_utf8(secret)),
{
    lemma_round_trip_with_doubling(secret, quote_context);
    lemma_plain_secret_bytes(secret, quote_context);
    lemma_secret_bytes_by_bytes(secret, quote_context);
}

/// Where no quote is doubled the bytes of a secret are its UTF-8 bytes.
pub proof fn lemma_plain_secret_bytes(secret: Seq<char>, quote_context: bool)
    requires
        !quote_context || !secret.contains('"'),
    ensures
        secret_bytes(secret, quote_context) == encode_utf8(secret),
    decreases secret.len(),
{
    if secret.len() > 0 {
        assert(secret.contains(secret[0]));
        assert forall|c: char| secret.drop_first().contains(c) implies secret.contains(c) by {
            let i = choose|i: int| 0 <= i < secret.drop_first().len() && secret.drop_first()[i] == c;
            assert(secret[i + 1] == c);
        }
        lemma_plain_secret_bytes(secret.drop_first(), quote_context);
    }
}

/// Appends the token of one byte to `out`.
fn push_token(out: &mut String, b: u8)
    ensures
        final(out)@ == old(out)@ + token(b),
{
    out.push('#');
    push_decimal(out, b as u64);
    assert(out@ =~= old(out)@ + token(b));
}

/// Encodes a secret for an automation script: every byte of its UTF-8 form
/// becomes a `#<decimal>` token; with `login_flag` each double quote is
/// doubled first, for a secret that goes inside a double-quoted field.
pub fn convert_password_to_macro_format(password: &str, login_flag: bool) -> (encoded: String)
    ensures
        encoded@ == encoded_secret(password@, login_flag),
{
    let bytes = password.as_bytes();
    let mut out = String::new();
    let mut i: usize = 0;
    assert(bytes@.take(0) =~= Seq::<u8>::empty());
    while i < bytes.len()
        invariant
            i <= bytes.len(),
            out@ == tokens(doubled(bytes@.take(i as int), login_flag)),
        decreases bytes.len() - i,
    {
        let b = bytes[i];
        let ghost before = doubled(bytes@.take(i as int), login_flag);
        let ghost after = doubled(bytes@.take(i + 1), login_flag);
        proof {
            assert(bytes@.take(i + 1).drop_last() =~= bytes@.take(i as int));
            assert(bytes@.take(i + 1).last() == b);
        }
        if login_flag && b == QUOTE {
            push_token(&mut out, b);
            proof {
                assert(after == before.push(QUOTE).push(QUOTE));
                assert(after.drop_last() =~= before.push(QUOTE));
                assert(before.push(QUOTE).drop_last() =~= before);
                assert(tokens(before.push(QUOTE)) == tokens(before) + token(QUOTE));
                assert(tokens(after) == tokens(before.push(QUOTE)) + token(QUOTE));
            }
        } else {
            proof {
                assert(after == before.push(b));
                assert(after.drop_last() =~= before);
                assert(tokens(after) == tokens(before) + token(b));
            }
        }
        push_token(&mut out, b);
        i += 1;
    }
    proof {
        assert(bytes@.take(i as int) =~= bytes@);
        lemma_secret_bytes_by_bytes(password@, login_flag);
    }
    out
}

fn is_decimal_digit(c: char) -> (digit: bool)
    ensures
        digit == is_digit(c),
{
    let code = c as u32;
    48 <= code && code <= 57
}

/// Decodes a run of `#<decimal byte>` tokens: the inverse of the encoding.
/// Gives `None` where the text is no such run.
pub fn decode_macro_format(encoded: &str) -> (bytes: Option<Vec<u8>>)
    ensures
        opt_bytes(bytes) == decode_tokens(encoded@),
{
    let chars = chars_of(encoded);
    let len = chars.len();
    let mut out: Vec<u8> = Vec::new();
    let mut i: usize = 0;
    proof {
        assert(chars@.skip(0) =~= chars@);
        match decode_tokens(chars@) {
            Some(r) => assert(out@ + r =~= r),
            None => {},
        }
    }
    while i < len
        invariant
            len == chars.len(),
            chars@ == encoded@,
            i <= len,
            decode_tokens(chars@) == decoded_after(out@, decode_tokens(chars@.skip(i as int))),
        decreases len - i,
    {
        let ghost rest = chars@.skip(i as int);
        assert(rest.len() > 0 && rest[0] == chars@[i as int]);
        if chars[i] != '#' {
            return None;
        }
        let mut j: usize = i + 1;
        let mut value: u32 = 0;
        proof {
            assert(chars@.subrange(i + 1, j as int) =~= Seq::<char>::empty());
        }
        while j < len && j - i <= 3 && is_decimal_digit(chars[j])
            invariant
                len == chars.len(),
                i < j <= len,
                j - i <= 4,
                forall|k: int| i < k < j ==> is_digit(#[trigger] chars@[k]),
                value == decimal_value(chars@.subrange(i + 1, j as int)),
                value < 1000,
            decreases len - j,
        {
            let digit = chars[j] as u32 - 48;
            proof {
                let grown = chars@.subrange(i + 1, j + 1);
                assert(grown.drop_last() =~= chars@.subrange(i + 1, j as int));
                assert(grown.last() == chars@[j as int]);
                assert(digit_value(chars@[j as int]) == digit);
                lemma_value_of_digits(chars@.subrange(i + 1, j as int));
            }
            value = value * 10 + digit;
            j += 1;
            proof {
                lemma_value_of_digits(chars@.subrange(i + 1, j as int));
            }
        }
        let ghost digits = rest.drop_first();
        let ghost n = j - i - 1;
        proof {
            assert(digits =~= chars@.skip(i + 1));
            assert forall|k: int| 0 <= k < n implies is_digit(#[trigger] digits[k]) by {
                assert(digits[k] == chars@[i + 1 + k]);
            }
            assert(rest.subrange(1, 1 + n) =~= chars@.subrange(i + 1, j as int));
            assert(rest.skip(1 + n) =~= chars@.skip(j as int));
        }
        if j < len && is_decimal_digit(chars[j]) {
            proof {
                assert(n == 3);
                assert(is_digit(digits[3]));
                lemma_digit_run_at_least(digits, 4);
            }
            return None;
        }
        proof {
            lemma_digit_run_is(digits, n);
        }
        if j == i + 1 || value > 255 {
            return None;
        }
        let ghost before = out@;
        out.push(value as u8);
        proof {
            match decode_tokens(chars@.skip(j as int)) {
                Some(r) => {
                    assert(before + (seq![value as u8] + r) =~= out@ + r);
                },
                None => {},
            }
        }
        i = j;
    }
    proof {
        assert(chars@.skip(i as int) =~= Seq::<char>::empty());
        assert(out@ + Seq::<u8>::empty() =~= out@);
    }
    Some(out)
}

/// A secret in its encoded form. The only way to make one is to encode, so
/// a value of this type never holds a raw character of a secret.
pub struct EncodedSecret {
    text: String,
}

impl View for EncodedSecret {
    type V = Seq<char>;

    closed spec fn view(&self) -> Seq<char> {
        self.text@
    }
}

impl EncodedSecret {
    #[verifier::type_invariant]
    spec fn holds_tokens_only(self) -> bool {
        is_token_text(self.text@)
    }

    /// Encodes `secret`; `quote_context` says whether the encoded form goes
    /// inside a double-quoted field, where each double quote is doubled.
    pub fn encode(secret: &str, quote_context: bool) -> (encoded: EncodedSecret)
        ensures
            encoded@ == encoded_secret(secret@, quote_context),
    {
        let text = convert_password_to_macro_format(secret, quote_context);
        proof {
            lemma_encoded_secret_is_inert(secret@, quote_context);
        }
        EncodedSecret { text }
    }

    /// The encoded form of the empty secret, which is empty.
    pub fn empty() -> (encoded: EncodedSecret)
        ensures
            encoded@ == Seq::<char>::empty(),
            encoded@ == encoded_secret(Seq::<char>::empty(), true),
            encoded@ == encoded_secret(Seq::<char>::empty(), false),
    {
        EncodedSecret { text: String::new() }
    }

    /// The encoded text.
    pub fn as_str(&self) -> (text: &str)
        ensures
            text@ == self@,
            is_token_text(text@),
    {
        proof {
            use_type_invariant(self);
        }
        self.text.as_str()
    }
}

} // verus!
