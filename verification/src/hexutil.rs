//! Hexadecimal encoding and decoding, specified exactly.
//!
//! The final signature's `r` and `s` travel as lowercase hex without leading
//! zeros, the derived public-key address as plain lowercase hex, and a
//! message to sign may arrive hex-encoded. Encoding and decoding call the
//! `hex` crate through trusted wrappers whose contracts pin the full byte-level
//! behaviour.

use vstd::prelude::*;
use vstd::string::StringSliceAdditionalSpecFns;
use vstd::string::StrSliceExecFns;

verus! {

/// The lowercase character for a nibble value.
pub open spec fn nibble_char(d: nat) -> char {
    if d == 0 {
        '0'
    } else if d == 1 {
        '1'
    } else if d == 2 {
        '2'
    } else if d == 3 {
        '3'
    } else if d == 4 {
        '4'
    } else if d == 5 {
        '5'
    } else if d == 6 {
        '6'
    } else if d == 7 {
        '7'
    } else if d == 8 {
        '8'
    } else if d == 9 {
        '9'
    } else if d == 10 {
        'a'
    } else if d == 11 {
        'b'
    } else if d == 12 {
        'c'
    } else if d == 13 {
        'd'
    } else if d == 14 {
        'e'
    } else {
        'f'
    }
}

/// Lowercase hex of a byte string: two digits per byte, most significant
/// nibble first.
pub open spec fn hex_of(b: Seq<u8>) -> Seq<char>
    decreases b.len(),
{
    if b.len() == 0 {
        Seq::empty()
    } else {
        hex_of(b.drop_last()) + seq![
            nibble_char(b.last() as nat / 16),
            nibble_char(b.last() as nat % 16),
        ]
    }
}

/// The value of a hex digit character, either case; 16 marks a non-digit.
pub open spec fn hex_char_val(c: char) -> nat {
    if c == '0' {
        0
    } else if c == '1' {
        1
    } else if c == '2' {
        2
    } else if c == '3' {
        3
    } else if c == '4' {
        4
    } else if c == '5' {
        5
    } else if c == '6' {
        6
    } else if c == '7' {
        7
    } else if c == '8' {
        8
    } else if c == '9' {
        9
    } else if c == 'a' || c == 'A' {
        10
    } else if c == 'b' || c == 'B' {
        11
    } else if c == 'c' || c == 'C' {
        12
    } else if c == 'd' || c == 'D' {
        13
    } else if c == 'e' || c == 'E' {
        14
    } else if c == 'f' || c == 'F' {
        15
    } else {
        16
    }
}

pub open spec fn is_hex_char(c: char) -> bool {
    hex_char_val(c) < 16
}

/// A decodable hex string: even length, hex digits throughout.
pub open spec fn valid_hex_string(s: Seq<char>) -> bool {
    s.len() % 2 == 0 && (forall|i: int| 0 <= i < s.len() ==> is_hex_char(#[trigger] s[i]))
}

/// The bytes a hex string denotes, two digits a byte.
pub open spec fn hex_bytes(s: Seq<char>) -> Seq<u8>
    decreases s.len(),
{
    if s.len() < 2 {
        Seq::empty()
    } else {
        seq![(hex_char_val(s[0]) * 16 + hex_char_val(s[1])) as u8] + hex_bytes(s.skip(2))
    }
}

/// Relies on `hex::encode`: lowercase hex, two digits per byte, in byte order.
#[verifier::external_body]
pub(crate) fn hex_encode(b: &[u8]) -> (r: String)
    ensures
        r@ == hex_of(b@),
{
    hex::encode(b)
}

/// The `hex` crate's decode error; carried through untouched and mapped to a
/// library error by the verified caller.
#[verifier::external_type_specification]
#[verifier::external_body]
pub struct ExFromHexError(hex::FromHexError);

/// Relies on `hex::decode`: accepts exactly the even-length strings of hex
/// digits of either case, and returns their bytes.
#[verifier::external_body]
pub(crate) fn hex_decode(s: &str) -> (r: Result<Vec<u8>, hex::FromHexError>)
    ensures
        r is Ok <==> valid_hex_string(s@),
        r matches Ok(b) ==> b@ == hex_bytes(s@),
{
    hex::decode(s)
}

/// `hex_of` in head form: the first byte's two digits, then the rest.
proof fn lemma_hex_of_head(b: Seq<u8>)
    requires
        b.len() > 0,
    ensures
        hex_of(b) == seq![
            nibble_char(b[0] as nat / 16),
            nibble_char(b[0] as nat % 16),
        ] + hex_of(b.skip(1)),
    decreases b.len(),
{
    let head = seq![nibble_char(b[0] as nat / 16), nibble_char(b[0] as nat % 16)];
    if b.len() == 1 {
        assert(b.drop_last() =~= Seq::<u8>::empty());
        assert(hex_of(Seq::<u8>::empty()) == Seq::<char>::empty());
        assert(b.skip(1) =~= Seq::<u8>::empty());
        assert(b.last() == b[0]);
        assert(hex_of(b) =~= head + hex_of(b.skip(1)));
    } else {
        lemma_hex_of_head(b.drop_last());
        assert(b.drop_last()[0] == b[0]);
        assert(b.skip(1).drop_last() =~= b.drop_last().skip(1));
        assert(b.skip(1).last() == b.last());
        assert(b.skip(1).len() > 0);
        assert(hex_of(b.skip(1)) == hex_of(b.skip(1).drop_last()) + seq![
            nibble_char(b.skip(1).last() as nat / 16),
            nibble_char(b.skip(1).last() as nat % 16),
        ]);
        assert(hex_of(b) =~= head + hex_of(b.skip(1)));
    }
}

/// Decoding inverts encoding: the hex form of any byte string is a decodable
/// hex string that decodes back to exactly those bytes. A hex-encoded message
/// therefore reaches the signer unchanged.
pub proof fn lemma_hex_round_trip(b: Seq<u8>)
    ensures
        valid_hex_string(hex_of(b)),
        hex_bytes(hex_of(b)) == b,
    decreases b.len(),
{
    if b.len() == 0 {
        assert(hex_of(b) == Seq::<char>::empty());
        assert(hex_bytes(Seq::<char>::empty()) =~= Seq::<u8>::empty());
        assert(b =~= Seq::<u8>::empty());
    } else {
        lemma_hex_round_trip(b.skip(1));
        lemma_hex_of_head(b);
        let s = hex_of(b);
        let hi = b[0] as nat / 16;
        let lo = b[0] as nat % 16;
        assert(hi < 16);
        assert(lo < 16);
        assert(s[0] == nibble_char(hi));
        assert(s[1] == nibble_char(lo));
        assert(s.skip(2) =~= hex_of(b.skip(1)));
        assert(hex_char_val(nibble_char(hi)) == hi);
        assert(hex_char_val(nibble_char(lo)) == lo);
        assert(hi * 16 + lo == b[0]) by {
            vstd::arithmetic::div_mod::lemma_fundamental_div_mod(b[0] as int, 16);
        }
        assert(s.len() >= 2);
        assert(hex_bytes(s) == seq![(hex_char_val(s[0]) * 16 + hex_char_val(s[1])) as u8]
            + hex_bytes(s.skip(2)));
        assert(hex_bytes(s) =~= b);
        assert(s.len() % 2 == 0);
        assert forall|i: int| 0 <= i < s.len() implies is_hex_char(#[trigger] s[i]) by {
            if i >= 2 {
                assert(s[i] == hex_of(b.skip(1))[i - 2]);
            }
        }
    }
}

/// A hex rendering with the leading zero digits dropped: the form in which
/// the signature components travel. An all-zero rendering keeps one `'0'`.
pub open spec fn strip_zeros(s: Seq<char>) -> Seq<char>
    decreases s.len(),
{
    if s.len() == 0 {
        seq!['0']
    } else if s[0] != '0' {
        s
    } else if s.len() == 1 {
        s
    } else {
        strip_zeros(s.skip(1))
    }
}

/// Renders `b` as lowercase hex without leading zeros (`"0"` for all-zero
/// input), the layout of a big integer's shortest hex form.
pub fn hex_compact(b: &[u8]) -> (r: String)
    ensures
        r@ == strip_zeros(hex_of(b@)),
{
    let full = hex_encode(b);
    let full_str = full.as_str();
    let n = full_str.unicode_len();
    proof {
        assert(full_str@.skip(0) =~= full_str@);
    }
    let mut i: usize = 0;
    while i < n
        invariant
            full_str@ == hex_of(b@),
            n == full_str@.len(),
            0 <= i <= n,
            forall|j: int| 0 <= j < i ==> full_str@[j] == '0',
            i < n ==> strip_zeros(full_str@) == strip_zeros(full_str@.skip(i as int)),
            i == n ==> (n > 0 ==> strip_zeros(full_str@) == strip_zeros(
                full_str@.skip(n as int - 1),
            )),
        decreases n - i,
    {
        let c = full_str.get_char(i);
        if c != '0' {
            let ghost tail = full_str@.skip(i as int);
            proof {
                assert(tail[0] == full_str@[i as int]);
                assert(strip_zeros(tail) == tail);
            }
            let part = full_str.substring_char(i, n);
            proof {
                assert(part@ =~= tail);
            }
            return String::from_str(part);
        }
        proof {
            let ghost tail = full_str@.skip(i as int);
            if i + 1 < n {
                assert(tail[0] == '0');
                assert(tail.len() > 1);
                assert(tail.skip(1) =~= full_str@.skip(i as int + 1));
            } else {
                assert(i + 1 == n);
            }
        }
        i = i + 1;
    }
    proof {
        reveal_strlit("0");
        if n == 0 {
            assert(full_str@ =~= Seq::<char>::empty());
            assert(strip_zeros(full_str@) =~= seq!['0']);
        } else {
            let ghost last = full_str@.skip(n as int - 1);
            assert(last.len() == 1);
            assert(last[0] == full_str@[n as int - 1]);
            assert(full_str@[n as int - 1] == '0');
            assert(strip_zeros(last) == last);
            assert(last =~= seq!['0']);
        }
        assert("0"@ =~= seq!['0']);
    }
    String::from_str("0")
}

/// The bytes a message argument denotes: hex-decoded when it is a decodable
/// hex string, else its UTF-8 bytes as given.
pub open spec fn spec_message_bytes(s: &str) -> Seq<u8> {
    if valid_hex_string(s@) {
        hex_bytes(s@)
    } else {
        s.spec_bytes()
    }
}

/// Decodes a message argument: hex when possible, raw bytes otherwise.
pub fn decode_message(s: &str) -> (r: Vec<u8>)
    ensures
        r@ == spec_message_bytes(s),
{
    match hex_decode(s) {
        Ok(b) => b,
        Err(_) => s.as_bytes_vec(),
    }
}

} // verus!
