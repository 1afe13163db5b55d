//! Text renderings of numbers and byte strings, each stated over `Seq<char>`.

use vstd::prelude::*;
use vstd::utf8::{decode_utf8, valid_utf8};

verus! {

/// The character of a decimal digit.
pub open spec fn digit_char(d: nat) -> char
    recommends
        d < 10,
{
    (d + 48) as char
}

/// The decimal numeral of `n`, most significant digit first, without leading zeros.
pub open spec fn decimal(n: nat) -> Seq<char>
    decreases n,
{
    if n < 10 {
        seq![digit_char(n)]
    } else {
        decimal(n / 10).push(digit_char(n % 10))
    }
}

/// The number a string of decimal digits stands for, most significant digit first.
pub open spec fn digits_value(s: Seq<char>) -> int
    decreases s.len(),
{
    if s.len() == 0 {
        0
    } else {
        digits_value(s.drop_last()) * 10 + (s.last() as int - 48)
    }
}

/// Law: the decimal numeral of `n` is a non-empty run of the digits `0`..`9` that reads
/// back as `n`, and it starts with `0` only when it is `0` itself.
pub proof fn lemma_decimal_reads_back(n: nat)
    ensures
        decimal(n).len() >= 1,
        forall|i: int| 0 <= i < decimal(n).len() ==> '0' <= #[trigger] decimal(n)[i] <= '9',
        digits_value(decimal(n)) == n,
        decimal(n)[0] == '0' ==> n == 0 && decimal(n).len() == 1,
    decreases n,
{
    if n >= 10 {
        lemma_decimal_reads_back(n / 10);
        let d = decimal(n);
        assert(d.drop_last() =~= decimal(n / 10));
        assert(d[0] == decimal(n / 10)[0]);
        assert(((n % 10) + 48) as char as int == (n % 10) + 48);
        assert(d.last() == digit_char(n % 10));
        assert(digits_value(d) == digits_value(decimal(n / 10)) * 10 + (n % 10));
        assert((n / 10) * 10 + (n % 10) == n);
        assert forall|i: int| 0 <= i < d.len() implies '0' <= #[trigger] d[i] <= '9' by {
            if i < d.len() - 1 {
                assert(d[i] == decimal(n / 10)[i]);
            }
        }
    } else {
        assert((n + 48) as char as int == n + 48);
        assert(decimal(n).drop_last() =~= Seq::<char>::empty());
        assert(digits_value(decimal(n)) == digits_value(Seq::<char>::empty()) * 10 + n);
    }
}

/// Law: a list rendering opens with `[`, closes with `]`, shows a single byte as its
/// numeral, and adding a byte to a non-empty list adds `, ` and that byte's numeral
/// before the closing bracket.
pub proof fn lemma_byte_list_shape(bytes: Seq<u8>, b: u8)
    ensures
        byte_list(bytes)[0] == '[',
        byte_list(bytes).last() == ']',
        byte_list(Seq::<u8>::empty()) == seq!['[', ']'],
        byte_list(seq![b]) == seq!['['] + decimal(b as nat) + seq![']'],
        bytes.len() > 0 ==> byte_list(bytes.push(b)) == byte_list(bytes).drop_last() + seq![
            ',',
            ' ',
        ] + decimal(b as nat) + seq![']'],
{
    assert(bytes.push(b).drop_last() =~= bytes);
    assert(byte_list(Seq::<u8>::empty()) =~= seq!['[', ']']);
    assert(byte_list(seq![b]) =~= seq!['['] + decimal(b as nat) + seq![']']);
    if bytes.len() > 0 {
        assert(byte_list(bytes).drop_last() =~= seq!['['] + joined_decimals(bytes));
        assert(byte_list(bytes.push(b)) =~= byte_list(bytes).drop_last() + seq![',', ' ']
            + decimal(b as nat) + seq![']']);
    }
}

/// Appends `c` to `s` (`String::push`).
#[verifier::external_body]
pub(crate) fn push_char(s: &mut String, c: char)
    ensures
        final(s)@ == old(s)@.push(c),
{
    s.push(c);
}

fn digit(d: u8) -> (c: char)
    requires
        d < 10,
    ensures
        c == digit_char(d as nat),
{
    (d + 48) as char
}

/// Appends the decimal numeral of `n` to `s`.
pub fn push_decimal(s: &mut String, n: u128)
    ensures
        final(s)@ == old(s)@ + decimal(n as nat),
    decreases n,
{
    if n >= 10 {
        push_decimal(s, n / 10);
    }
    push_char(s, digit((n % 10) as u8));
    proof {
        assert(old(s)@ + decimal(n as nat) =~= old(s)@ + (if n >= 10 { decimal((n / 10) as nat) } else { seq![] }).push(digit_char((n % 10) as nat)));
    }
}


/// The lowercase hexadecimal digit of a nibble.
pub open spec fn nibble_char(d: nat) -> char
    recommends
        d < 16,
{
    if d < 10 {
        (d + 48) as char
    } else {
        (d + 87) as char
    }
}

/// Lowercase hexadecimal text of `bytes`: two digits per byte, high nibble first.
pub open spec fn hex_lower(bytes: Seq<u8>) -> Seq<char>
    decreases bytes.len(),
{
    if bytes.len() == 0 {
        seq![]
    } else {
        hex_lower(bytes.drop_last()) + seq![
            nibble_char((bytes.last() / 16) as nat),
            nibble_char((bytes.last() % 16) as nat),
        ]
    }
}

/// The decimal numerals of `bytes`, separated by `", "`.
pub open spec fn joined_decimals(bytes: Seq<u8>) -> Seq<char>
    decreases bytes.len(),
{
    if bytes.len() == 0 {
        seq![]
    } else if bytes.len() == 1 {
        decimal(bytes[0] as nat)
    } else {
        joined_decimals(bytes.drop_last()) + seq![',', ' '] + decimal(bytes.last() as nat)
    }
}

/// The list rendering of a byte string, as in `[1, 22, 255]`.
pub open spec fn byte_list(bytes: Seq<u8>) -> Seq<char> {
    seq!['['] + joined_decimals(bytes) + seq![']']
}

/// How a name stored as bytes is shown: its UTF-8 text, or a notice with the raw bytes.
pub open spec fn display_name(bytes: Seq<u8>) -> Seq<char> {
    if valid_utf8(bytes) {
        decode_utf8(bytes)
    } else {
        "Invalid UTF-8: "@ + byte_list(bytes)
    }
}

/// Law: the hexadecimal text of `bytes` has two characters per byte, the digit of the
/// high nibble then that of the low nibble, each one of `0123456789abcdef`.
pub proof fn lemma_hex_lower_shape(bytes: Seq<u8>)
    ensures
        hex_lower(bytes).len() == 2 * bytes.len(),
        forall|i: int|
            #![trigger bytes[i]]
            0 <= i < bytes.len() ==> hex_lower(bytes)[2 * i] == "0123456789abcdef"@[(bytes[i]
                / 16) as int] && hex_lower(bytes)[2 * i + 1] == "0123456789abcdef"@[(bytes[i]
                % 16) as int],
    decreases bytes.len(),
{
    reveal_strlit("0123456789abcdef");
    if bytes.len() > 0 {
        let init = bytes.drop_last();
        lemma_hex_lower_shape(init);
        assert forall|i: int| 0 <= i < bytes.len() implies #[trigger] hex_lower(bytes)[2 * i]
            == "0123456789abcdef"@[(bytes[i] / 16) as int] && hex_lower(bytes)[2 * i + 1]
            == "0123456789abcdef"@[(bytes[i] % 16) as int] by {
            if i < init.len() {
                assert(init[i] == bytes[i]);
            }
        }
    }
}

/// `hex::encode`: two lowercase hexadecimal digits per byte, high nibble first.
#[verifier::external_body]
fn hex_encode(bytes: &[u8]) -> (s: String)
    ensures
        s@ == hex_lower(bytes@),
{
    hex::encode(bytes)
}

/// `String::from_utf8`: the decoded text exactly when `bytes` is well-formed UTF-8.
#[verifier::external_body]
fn utf8_text(bytes: &[u8]) -> (r: Option<String>)
    ensures
        r is Some <==> valid_utf8(bytes@),
        r matches Some(t) ==> t@ == decode_utf8(bytes@),
{
    String::from_utf8(bytes.to_vec()).ok()
}

/// Lowercase hexadecimal text of `bytes`.
pub fn hex_string(bytes: &[u8]) -> (s: String)
    ensures
        s@ == hex_lower(bytes@),
{
    hex_encode(bytes)
}

/// Hexadecimal text of `bytes` behind a `0x` marker, as hashes are shown.
pub fn prefixed_hex(bytes: &[u8]) -> (s: String)
    ensures
        s@ == "0x"@ + hex_lower(bytes@),
{
    let mut s = String::from_str("0x");
    let h = hex_encode(bytes);
    s.append(h.as_str());
    s
}

/// The decimal numeral of `n`.
pub fn decimal_string(n: u128) -> (s: String)
    ensures
        s@ == decimal(n as nat),
{
    let mut s = String::new();
    push_decimal(&mut s, n);
    proof {
        assert(s@ =~= decimal(n as nat));
    }
    s
}

/// Appends the list rendering of `bytes` to `s`.
pub fn push_byte_list(s: &mut String, bytes: &[u8])
    ensures
        final(s)@ == old(s)@ + byte_list(bytes@),
{
    let ghost start = s@;
    push_char(s, '[');
    let mut i: usize = 0;
    while i < bytes.len()
        invariant
            i <= bytes@.len(),
            s@ == start + seq!['['] + joined_decimals(bytes@.take(i as int)),
        decreases bytes@.len() - i,
    {
        let ghost before = s@;
        if i > 0 {
            push_char(s, ',');
            push_char(s, ' ');
        }
        push_decimal(s, bytes[i] as u128);
        proof {
            let t = bytes@.take(i + 1);
            assert(t.drop_last() =~= bytes@.take(i as int));
            assert(t.last() == bytes@[i as int]);
            if i > 0 {
                assert(s@ =~= start + seq!['['] + joined_decimals(t));
            } else {
                assert(t =~= seq![bytes@[0]]);
                assert(s@ =~= start + seq!['['] + joined_decimals(t));
            }
        }
        i = i + 1;
    }
    push_char(s, ']');
    proof {
        assert(bytes@.take(bytes@.len() as int) =~= bytes@);
        assert(s@ =~= start + byte_list(bytes@));
    }
}

/// The list rendering of `bytes`, as in `[1, 22, 255]`.
pub fn byte_list_string(bytes: &[u8]) -> (s: String)
    ensures
        s@ == byte_list(bytes@),
{
    let mut s = String::new();
    push_byte_list(&mut s, bytes);
    proof {
        assert(s@ =~= byte_list(bytes@));
    }
    s
}

/// How a stored name is shown: its text when it is UTF-8, else a notice with its bytes.
pub fn name_text(bytes: &[u8]) -> (s: String)
    ensures
        s@ == display_name(bytes@),
        valid_utf8(bytes@) ==> s@ == decode_utf8(bytes@),
        !valid_utf8(bytes@) ==> s@ == "Invalid UTF-8: "@ + byte_list(bytes@),
{
    match utf8_text(bytes) {
        Some(t) => t,
        None => {
            let mut s = String::from_str("Invalid UTF-8: ");
            push_byte_list(&mut s, bytes);
            s
        },
    }
}

} // verus!
