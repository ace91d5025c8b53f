//! Text encodings used on the wire: decimal numbers, lowercase hex and the
//! `name:id` channel names of the stream API.

use vstd::prelude::*;
use vstd::string::StrSliceExecFns;
use vstd::string::StringExecFns;

verus! {

/// Appends one character to a string (std's `String::push`).
#[verifier::external_body]
pub(crate) fn string_push(s: &mut String, c: char)
    ensures
        final(s)@ == old(s)@.push(c),
{
    s.push(c);
}

/// The character of a decimal digit.
pub open spec fn digit_char(d: int) -> char {
    if d == 0 { '0' }
    else if d == 1 { '1' }
    else if d == 2 { '2' }
    else if d == 3 { '3' }
    else if d == 4 { '4' }
    else if d == 5 { '5' }
    else if d == 6 { '6' }
    else if d == 7 { '7' }
    else if d == 8 { '8' }
    else { '9' }
}

/// Decimal notation of a natural number, most significant digit first,
/// without leading zeros.
pub open spec fn decimal_of_nat(n: nat) -> Seq<char>
    decreases n,
{
    if n < 10 {
        seq![digit_char(n as int)]
    } else {
        decimal_of_nat(n / 10).push(digit_char((n % 10) as int))
    }
}

/// Decimal notation of an integer, with a leading `-` when it is negative.
pub open spec fn decimal_of_int(x: int) -> Seq<char> {
    if x < 0 {
        seq!['-'] + decimal_of_nat((-x) as nat)
    } else {
        decimal_of_nat(x as nat)
    }
}

fn digit(d: u64) -> (c: char)
    requires
        d < 10,
    ensures
        c == digit_char(d as int),
{
    if d == 0 { '0' }
    else if d == 1 { '1' }
    else if d == 2 { '2' }
    else if d == 3 { '3' }
    else if d == 4 { '4' }
    else if d == 5 { '5' }
    else if d == 6 { '6' }
    else if d == 7 { '7' }
    else if d == 8 { '8' }
    else { '9' }
}

fn push_decimal(s: &mut String, n: u64)
    ensures
        final(s)@ == old(s)@ + decimal_of_nat(n as nat),
    decreases n,
{
    if n >= 10 {
        push_decimal(s, n / 10);
    }
    string_push(s, digit(n % 10));
    proof {
        if n < 10 {
            assert(n % 10 == n);
        }
    }
}

/// Decimal notation of an unsigned integer.
pub fn u64_to_decimal(n: u64) -> (r: String)
    ensures
        r@ == decimal_of_nat(n as nat),
{
    let mut s = String::new();
    push_decimal(&mut s, n);
    assert(s@ =~= decimal_of_nat(n as nat));
    s
}

/// Decimal notation of a signed integer, as Rust's `Display` writes it.
pub fn i64_to_decimal(x: i64) -> (r: String)
    ensures
        r@ == decimal_of_int(x as int),
{
    let mut s = String::new();
    if x < 0 {
        string_push(&mut s, '-');
        let magnitude: u64 = (0i128 - (x as i128)) as u64;
        push_decimal(&mut s, magnitude);
    } else {
        push_decimal(&mut s, x as u64);
        assert(s@ =~= decimal_of_nat(x as nat));
    }
    s
}

/// Every character of a decimal notation of a natural number is a digit,
/// and the notation is never empty.
pub proof fn lemma_decimal_of_nat_digits(n: nat)
    ensures
        decimal_of_nat(n).len() >= 1,
        forall|i: int| 0 <= i < decimal_of_nat(n).len() ==> '0' <= #[trigger] decimal_of_nat(n)[i] <= '9',
    decreases n,
{
    if n >= 10 {
        lemma_decimal_of_nat_digits(n / 10);
    }
}

/// The lowercase hexadecimal digit of a value below 16.
pub open spec fn hex_digit(d: int) -> char {
    if d < 10 { digit_char(d) }
    else if d == 10 { 'a' }
    else if d == 11 { 'b' }
    else if d == 12 { 'c' }
    else if d == 13 { 'd' }
    else if d == 14 { 'e' }
    else { 'f' }
}

/// Lowercase hexadecimal notation of bytes: two digits per byte, the high
/// nibble first.
pub open spec fn hex_lower(bytes: Seq<u8>) -> Seq<char>
    decreases bytes.len(),
{
    if bytes.len() == 0 {
        Seq::empty()
    } else {
        hex_lower(bytes.drop_last()) + seq![
            hex_digit(bytes.last() as int / 16),
            hex_digit(bytes.last() as int % 16),
        ]
    }
}

/// Encodes bytes as lowercase hex (`hex::encode`).
///
/// Trusted: `hex::encode` maps each byte, in order, to the two characters of
/// the table `0123456789abcdef` at its high and its low nibble, which is
/// `hex_lower`.
#[verifier::external_body]
pub(crate) fn hex_encode(data: &[u8]) -> (r: String)
    ensures
        r@ == hex_lower(data@),
{
    hex::encode(data)
}

/// Hex notation has two characters per byte.
pub proof fn lemma_hex_lower_len(bytes: Seq<u8>)
    ensures
        hex_lower(bytes).len() == 2 * bytes.len(),
    decreases bytes.len(),
{
    if bytes.len() > 0 {
        lemma_hex_lower_len(bytes.drop_last());
    }
}

/// The position of the first `ch` in `s`, or `s.len()` when there is none.
pub open spec fn position_of(s: Seq<char>, ch: char) -> nat
    decreases s.len(),
{
    if s.len() == 0 {
        0
    } else if s[0] == ch {
        0
    } else {
        1 + position_of(s.drop_first(), ch)
    }
}

proof fn lemma_position_of(s: Seq<char>, ch: char, k: int)
    requires
        0 <= k <= s.len(),
        forall|i: int| 0 <= i < k ==> s[i] != ch,
        k == s.len() || s[k] == ch,
    ensures
        position_of(s, ch) == k,
    decreases s.len(),
{
    if s.len() > 0 && k > 0 {
        assert forall|i: int| 0 <= i < k - 1 implies s.drop_first()[i] != ch by {
            assert(s.drop_first()[i] == s[i + 1]);
        }
        lemma_position_of(s.drop_first(), ch, k - 1);
    }
}

/// The second `:`-separated field of a channel name (`"order_book:3"` gives
/// `"3"`), or `"unknown"` when the name holds no `:`.
pub open spec fn channel_key_of(channel: Seq<char>) -> Seq<char> {
    let i = position_of(channel, ':');
    if i >= channel.len() {
        "unknown"@
    } else {
        let rest = channel.skip(i as int + 1);
        rest.take(position_of(rest, ':') as int)
    }
}

/// Finds the first `:` in `s` at or after `from`.
fn find_colon(s: &str, from: usize, len: usize) -> (k: usize)
    requires
        len == s@.len(),
        from <= len,
    ensures
        from <= k <= len,
        forall|i: int| from <= i < k ==> s@[i] != ':',
        k == len || s@[k as int] == ':',
{
    let mut k = from;
    while k < len
        invariant
            len == s@.len(),
            from <= k <= len,
            forall|i: int| from <= i < k ==> s@[i] != ':',
        decreases len - k,
    {
        if s.get_char(k) == ':' {
            return k;
        }
        k = k + 1;
    }
    k
}

/// The key a channel name designates: its second `:`-separated field, or
/// `"unknown"` (as `channel.split(':').nth(1).unwrap_or("unknown")`).
pub fn channel_key(channel: &str) -> (r: String)
    ensures
        r@ == channel_key_of(channel@),
{
    let len = channel.unicode_len();
    let i = find_colon(channel, 0, len);
    proof {
        lemma_position_of(channel@, ':', i as int);
    }
    if i >= len {
        return String::from_str("unknown");
    }
    let j = find_colon(channel, i + 1, len);
    let ghost rest = channel@.skip(i + 1);
    proof {
        assert forall|t: int| 0 <= t < j - (i + 1) implies rest[t] != ':' by {
            assert(rest[t] == channel@[t + i + 1]);
        }
        if j < len {
            assert(rest[j - (i + 1)] == channel@[j as int]);
        }
        lemma_position_of(rest, ':', j - (i + 1));
    }
    let field = channel.substring_char(i + 1, j);
    assert(field@ =~= rest.take(j - (i + 1)));
    String::from_str(field)
}

} // verus!

verus! {

/// No character of `s` is a `:`.
pub open spec fn colon_free(s: Seq<char>) -> bool {
    forall|i: int| 0 <= i < s.len() ==> s[i] != ':'
}

/// A channel named `name:key`, possibly followed by more `:`-separated
/// fields, is keyed by `key`.
pub proof fn lemma_channel_key_second_field(name: Seq<char>, key: Seq<char>, tail: Seq<char>)
    requires
        colon_free(name),
        colon_free(key),
        tail.len() == 0 || tail[0] == ':',
    ensures
        channel_key_of(name + seq![':'] + key + tail) == key,
{
    let c = name + seq![':'] + key + tail;
    assert forall|i: int| 0 <= i < name.len() implies c[i] != ':' by {
        assert(c[i] == name[i]);
    }
    assert(c[name.len() as int] == ':');
    lemma_position_of(c, ':', name.len() as int);
    let rest = c.skip(name.len() as int + 1);
    assert(rest =~= key + tail);
    assert forall|i: int| 0 <= i < key.len() implies rest[i] != ':' by {
        assert(rest[i] == key[i]);
    }
    if tail.len() > 0 {
        assert(rest[key.len() as int] == tail[0]);
    }
    lemma_position_of(rest, ':', key.len() as int);
    assert(rest.take(key.len() as int) =~= key);
}

/// A channel name without `:` is keyed as `"unknown"`.
pub proof fn lemma_channel_key_without_colon(channel: Seq<char>)
    requires
        colon_free(channel),
    ensures
        channel_key_of(channel) == "unknown"@,
{
    lemma_position_of(channel, ':', channel.len() as int);
}

} // verus!
