//! UTF-8 conversions between strings and the byte strings on the wire.
use vstd::prelude::*;
use vstd::slice::slice_subrange;
use vstd::slice::slice_to_vec;
use vstd::utf8::decode_utf8;
use vstd::utf8::encode_utf8;
use vstd::utf8::valid_utf8;

verus! {

/// What `String::from_utf8_lossy` makes of a byte string.
pub uninterp spec fn lossy_utf8(b: Seq<u8>) -> Seq<char>;

/// Relies on `String::from_utf8`: it accepts exactly the well-formed UTF-8
/// byte strings, and the string it returns holds those bytes.
#[verifier::external_body]
fn string_from_utf8(bytes: Vec<u8>) -> (r: Option<String>)
    ensures
        r is Some <==> valid_utf8(bytes@),
        r matches Some(s) ==> encode_utf8(s@) == bytes@,
{
    String::from_utf8(bytes).ok()
}

/// The text that a byte string spells, where malformed UTF-8 is tolerated.
pub open spec fn text_of_lossy(b: Seq<u8>) -> Seq<char> {
    if valid_utf8(b) {
        decode_utf8(b)
    } else {
        lossy_utf8(b)
    }
}

/// Relies on `String::from_utf8_lossy`: well-formed UTF-8 is decoded as it
/// stands (malformed sequences become U+FFFD).
#[verifier::external_body]
fn string_from_utf8_lossy(bytes: &[u8]) -> (r: String)
    ensures
        r@ == lossy_utf8(bytes@),
        r@ == text_of_lossy(bytes@),
{
    String::from_utf8_lossy(bytes).into_owned()
}

/// The UTF-8 bytes of a string.
pub fn utf8_bytes(s: &String) -> (r: Vec<u8>)
    ensures
        r@ == encode_utf8(s@),
{
    slice_to_vec(s.as_str().as_bytes())
}

/// The number of UTF-8 bytes of a string.
pub fn utf8_len(s: &String) -> (r: usize)
    ensures
        r == encode_utf8(s@).len(),
{
    s.as_str().as_bytes().len()
}

/// The string spelled by `data[start..end]`, or `None` where those bytes are
/// not well-formed UTF-8.
pub fn decode_strict(data: &Vec<u8>, start: usize, end: usize) -> (r: Option<String>)
    requires
        start <= end <= data@.len(),
    ensures
        r is Some <==> valid_utf8(data@.subrange(start as int, end as int)),
        r matches Some(s) ==> s@ == decode_utf8(data@.subrange(start as int, end as int)),
{
    let bytes = slice_to_vec(slice_subrange(data.as_slice(), start, end));
    let r = string_from_utf8(bytes);
    proof {
        if r is Some {
            vstd::utf8::encode_utf8_decode_utf8(r->0@);
        }
    }
    r
}

/// The string spelled by `data[start..end]`, with malformed sequences replaced.
pub fn decode_lossy(data: &Vec<u8>, start: usize, end: usize) -> (r: String)
    requires
        start <= end <= data@.len(),
    ensures
        r@ == text_of_lossy(data@.subrange(start as int, end as int)),
{
    string_from_utf8_lossy(slice_subrange(data.as_slice(), start, end))
}

/// A string decodes from its own bytes.
pub proof fn lemma_utf8_round_trip(s: Seq<char>)
    ensures
        valid_utf8(encode_utf8(s)),
        decode_utf8(encode_utf8(s)) == s,
{
    vstd::utf8::encode_utf8_valid_utf8(s);
    vstd::utf8::encode_utf8_decode_utf8(s);
}

/// A string has at most as many characters as UTF-8 bytes.
pub proof fn lemma_utf8_len_bound(s: Seq<char>)
    ensures
        s.len() <= encode_utf8(s).len(),
    decreases s.len(),
{
    if s.len() > 0 {
        lemma_utf8_len_bound(s.drop_first());
    }
}

/// The encoding of two strings one after the other is the two encodings one
/// after the other.
pub proof fn lemma_utf8_concat(a: Seq<char>, b: Seq<char>)
    ensures
        encode_utf8(a + b) == encode_utf8(a) + encode_utf8(b),
    decreases a.len(),
{
    if a.len() == 0 {
        assert(a + b =~= b);
    } else {
        assert((a + b).drop_first() =~= a.drop_first() + b);
        lemma_utf8_concat(a.drop_first(), b);
        assert(encode_utf8(a + b) =~= encode_utf8(a) + encode_utf8(b));
    }
}

/// The string whose UTF-8 encoding is `bytes`.
pub(crate) fn string_from_encoding(bytes: Vec<u8>, Ghost(chars): Ghost<Seq<char>>) -> (r: String)
    requires
        bytes@ == encode_utf8(chars),
    ensures
        r@ == chars,
{
    proof {
        lemma_utf8_round_trip(chars);
    }
    match string_from_utf8(bytes) {
        Some(s) => {
            proof {
                lemma_utf8_round_trip(s@);
            }
            s
        },
        None => String::new(),
    }
}

/// The decimal digits of `n`, most significant first.
pub open spec fn decimal(n: nat) -> Seq<char>
    decreases n,
{
    if n < 10 {
        seq![((n + 48) as u32) as char]
    } else {
        decimal(n / 10) + seq![(((n % 10) + 48) as u32) as char]
    }
}

proof fn lemma_decimal_encoding(n: nat)
    ensures
        encode_utf8(decimal(n)).len() == decimal(n).len(),
        forall|i: int|
            0 <= i < decimal(n).len() ==> #[trigger] encode_utf8(decimal(n))[i] == decimal(n)[i] as u8,
    decreases n,
{
    if n >= 10 {
        lemma_decimal_encoding(n / 10);
    }
    assert(vstd::utf8::is_ascii_chars(decimal(n))) by {
        if n >= 10 {
            lemma_decimal_ascii(n / 10);
        }
    }
    vstd::utf8::is_ascii_chars_encode_utf8(decimal(n));
}

proof fn lemma_decimal_ascii(n: nat)
    ensures
        vstd::utf8::is_ascii_chars(decimal(n)),
    decreases n,
{
    if n >= 10 {
        lemma_decimal_ascii(n / 10);
    }
}

/// Appends the UTF-8 encoding of the decimal digits of `n`.
pub fn push_decimal(out: &mut Vec<u8>, n: u64)
    ensures
        final(out)@ == old(out)@ + encode_utf8(decimal(n as nat)),
    decreases n,
{
    if n >= 10 {
        push_decimal(out, n / 10);
    }
    let d = (n % 10) as u8 + 48;
    out.push(d);
    proof {
        lemma_decimal_encoding(n as nat);
        if n >= 10 {
            lemma_decimal_encoding((n / 10) as nat);
        }
        assert(final(out)@ =~= old(out)@ + encode_utf8(decimal(n as nat)));
    }
}

} // verus!
