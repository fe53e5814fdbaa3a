//! Address decoding: a recipient identifier, given either as a hexadecimal
//! string (with or without a leading `0x` marker) or as a checksummed SS58
//! string, is decoded into a fixed 32-byte account identifier.
//!
//! An input made only of hexadecimal digits (after stripping an optional
//! marker) is treated as the hexadecimal form; anything else is handed to the
//! SS58 decoder. Either way, a result of any length other than 32 bytes is a
//! decode failure: there is no truncation and no padding.

use vstd::prelude::*;
use vstd::string::StrSliceExecFns;

use crate::errors::Failure;

verus! {

/// A fixed 32-byte account identifier. The only way to obtain one is a
/// successful decode, so a value of this type always holds exactly 32 bytes.
#[derive(Debug)]
pub struct AccountId {
    bytes: Vec<u8>,
}

impl View for AccountId {
    type V = Seq<u8>;

    closed spec fn view(&self) -> Seq<u8> {
        self.bytes@
    }
}

impl AccountId {
    #[verifier::type_invariant]
    spec fn len_fixed(self) -> bool {
        self.bytes@.len() == 32
    }

    /// The identifier bytes; always exactly 32 of them.
    pub fn as_bytes(&self) -> (r: &Vec<u8>)
        ensures
            r@ == self@,
            r@.len() == 32,
    {
        proof {
            use_type_invariant(self);
        }
        &self.bytes
    }
}

pub open spec fn is_hex_digit(c: char) -> bool {
    (48 <= c as u32 && c as u32 <= 57)  // '0' ..= '9'
    || (97 <= c as u32 && c as u32 <= 102)  // 'a' ..= 'f'
    || (65 <= c as u32 && c as u32 <= 70)  // 'A' ..= 'F'
}

pub open spec fn hex_digit_value(c: char) -> u8 {
    if 48 <= c as u32 && c as u32 <= 57 {
        (c as u32 - 48) as u8
    } else if 97 <= c as u32 && c as u32 <= 102 {
        (c as u32 - 87) as u8
    } else {
        (c as u32 - 55) as u8
    }
}

pub open spec fn is_hex_seq(s: Seq<char>) -> bool {
    forall|i: int| 0 <= i < s.len() ==> is_hex_digit(#[trigger] s[i])
}

/// The bytes a hexadecimal character sequence stands for, two digits a byte,
/// high nibble first.
pub open spec fn hex_bytes(s: Seq<char>) -> Seq<u8> {
    Seq::new((s.len() / 2) as nat, |i: int| (16 * hex_digit_value(s[2 * i]) + hex_digit_value(s[2 * i + 1])) as u8)
}

/// Whether the input carries the leading `0x` marker.
pub open spec fn has_hex_marker(s: Seq<char>) -> bool {
    s.len() >= 2 && s[0] == '0' && s[1] == 'x'
}

pub open spec fn strip_hex_marker(s: Seq<char>) -> Seq<char> {
    if has_hex_marker(s) {
        s.subrange(2, s.len() as int)
    } else {
        s
    }
}

/// What a successful SS58 decode of the input yields. SS58 decoding (base58
/// plus checksum) is a deterministic function of the input string alone; its
/// value is known only through the decoder relied upon below.
pub uninterp spec fn ss58_decoded(s: Seq<char>) -> Option<Seq<u8>>;

/// Relies on the `FromStr` impl of `subxt::utils::AccountId32`: SS58 decoding
/// is a deterministic, side-effect-free function of the input string, it
/// returns an error value on every malformed input admitted here, and on
/// success the identifier holds the decoded body bytes. It is relied upon
/// only for inputs of at most 64 characters — a checksummed 32-byte account
/// is under 50 — because the base58 decoder beneath it does not return on
/// certain far longer inputs; `decode` rejects those before the call.
#[verifier::external_body]
fn decode_ss58(s: &str) -> (r: Option<Vec<u8>>)
    requires
        s@.len() <= 64,
    ensures
        r is Some <==> ss58_decoded(s@) is Some,
        (match (r, ss58_decoded(s@)) {
            (Some(v), Some(b)) => v@ == b,
            _ => true,
        }),
{
    match <subxt::utils::AccountId32 as core::str::FromStr>::from_str(s) {
        Ok(id) => Some(id.0.to_vec()),
        Err(_) => None,
    }
}

/// The decoded identifier bytes of an input string, if it is valid: the
/// hexadecimal form must consist of exactly 64 hexadecimal digits after the
/// optional marker, and either form must yield exactly 32 bytes. An input
/// past 64 characters that is not the hexadecimal form cannot be a
/// checksummed 32-byte account (those stay under 50 characters) and is
/// rejected outright.
pub open spec fn spec_decode(s: Seq<char>) -> Option<Seq<u8>> {
    let t = strip_hex_marker(s);
    if has_hex_marker(s) || is_hex_seq(s) {
        if is_hex_seq(t) && t.len() == 64 {
            Some(hex_bytes(t))
        } else {
            None
        }
    } else if s.len() > 64 {
        None
    } else {
        match ss58_decoded(s) {
            Some(b) => if b.len() == 32 {
                Some(b)
            } else {
                None
            },
            None => None,
        }
    }
}

fn is_hex_char(c: char) -> (r: bool)
    ensures
        r == is_hex_digit(c),
{
    let v = c as u32;
    (48 <= v && v <= 57) || (97 <= v && v <= 102) || (65 <= v && v <= 70)
}

fn hex_char_value(c: char) -> (r: u8)
    requires
        is_hex_digit(c),
    ensures
        r == hex_digit_value(c),
        r <= 15,
{
    let v = c as u32;
    if v <= 57 {
        (v - 48) as u8
    } else if v >= 97 {
        (v - 87) as u8
    } else {
        (v - 55) as u8
    }
}

/// Decodes a recipient identifier. Succeeds exactly on the inputs
/// `spec_decode` accepts and returns exactly the bytes it names; every other
/// input is a decode failure, with no partial output.
pub fn decode(s: &str) -> (r: Result<AccountId, Failure>)
    ensures
        (match spec_decode(s@) {
            Some(b) => r matches Ok(id) && id@ == b,
            None => r matches Err(f) && f == Failure::Decode,
        }),
{
    let n = s.unicode_len();
    let marker = n >= 2 && s.get_char(0) == '0' && s.get_char(1) == 'x';
    assert(marker == has_hex_marker(s@));
    let start: usize = if marker { 2 } else { 0 };
    let ghost t = strip_hex_marker(s@);
    assert(t =~= s@.subrange(start as int, n as int));

    let mut all_hex = true;
    let mut i: usize = start;
    while i < n
        invariant
            start <= i <= n,
            n == s@.len(),
            start == if has_hex_marker(s@) { 2int } else { 0int },
            all_hex == (forall|k: int| start <= k < i ==> is_hex_digit(#[trigger] s@[k])),
        decreases n - i,
    {
        if !is_hex_char(s.get_char(i)) {
            all_hex = false;
        }
        i += 1;
    }
    proof {
        if all_hex {
            assert forall|k: int| 0 <= k < t.len() implies is_hex_digit(#[trigger] t[k]) by {
                assert(t[k] == s@[start + k]);
            }
        } else {
            let k = choose|k: int| start <= k < n && !is_hex_digit(#[trigger] s@[k]);
            assert(t[k - start] == s@[k]);
            assert(!is_hex_seq(t));
        }
    }
    assert(all_hex == is_hex_seq(t));

    if marker || all_hex {
        if !(all_hex && n - start == 64) {
            return Err(Failure::Decode);
        }
        let mut out: Vec<u8> = Vec::new();
        let mut j: usize = start;
        while j < n
            invariant
                start <= j <= n,
                n == s@.len(),
                n - start == 64,
                (j - start) % 2 == 0,
                t =~= s@.subrange(start as int, n as int),
                is_hex_seq(t),
                out@.len() == (j - start) / 2,
                forall|k: int| 0 <= k < out@.len() ==> #[trigger] out@[k] == 16 * hex_digit_value(
                    s@[start + 2 * k]) + hex_digit_value(s@[start + 2 * k + 1]),
            decreases n - j,
        {
            assert(is_hex_digit(s@[j as int]) && is_hex_digit(s@[j + 1])) by {
                assert(s@[j as int] == t[j - start] && s@[j + 1] == t[j + 1 - start]);
            }
            let hi = hex_char_value(s.get_char(j));
            let lo = hex_char_value(s.get_char(j + 1));
            out.push(16 * hi + lo);
            j += 2;
        }
        assert(out@ =~= hex_bytes(t)) by {
            assert(forall|k: int| 0 <= k < 32 ==> #[trigger] t[2 * k] == s@[start + 2 * k]
                && t[2 * k + 1] == s@[start + 2 * k + 1]);
        }
        Ok(AccountId { bytes: out })
    } else {
        if n > 64 {
            return Err(Failure::Decode);
        }
        match decode_ss58(s) {
            Some(b) => {
                if b.len() == 32 {
                    Ok(AccountId { bytes: b })
                } else {
                    Err(Failure::Decode)
                }
            },
            None => Err(Failure::Decode),
        }
    }
}

/// Marker-insensitivity: a string of hexadecimal digits decodes to the same
/// identifier whether or not the `0x` marker is in front.
pub proof fn lemma_decode_marker_insensitive(s: Seq<char>)
    requires
        is_hex_seq(s),
    ensures
        spec_decode(seq!['0', 'x'] + s) == spec_decode(s),
{
    let m = seq!['0', 'x'] + s;
    assert(m[0] == '0' && m[1] == 'x');
    assert(has_hex_marker(m));
    assert(strip_hex_marker(m) =~= s);
    assert(!has_hex_marker(s)) by {
        if has_hex_marker(s) {
            assert(is_hex_digit(s[1]));
        }
    }
}

/// No truncation and no padding: whenever decoding succeeds, the decoded
/// identifier holds exactly 32 bytes.
pub proof fn lemma_decode_fixes_length(s: Seq<char>)
    ensures
        (match spec_decode(s) {
            Some(b) => b.len() == 32,
            None => true,
        }),
{
}

} // verus!
