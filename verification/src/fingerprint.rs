//! Short fingerprints of conversation anchors, made from their SHA-256 digest.
use sha2::{Digest, Sha256};
use vstd::prelude::*;
use vstd::string::*;

verus! {

broadcast use vstd::string::group_string_axioms;

/// The SHA-256 digest of a byte string, as the `sha2` crate computes it.
pub uninterp spec fn sha256(data: Seq<u8>) -> Seq<u8>;

/// `Sha256::digest` of the `sha2` crate: the trusted claim is that the
/// result is the SHA-256 digest of the bytes (a function of them alone) and
/// is 32 bytes long, as the digest's output size `U32` fixes it.
#[verifier::external_body]
fn sha256_digest(data: &[u8]) -> (r: Vec<u8>)
    ensures
        r@ == sha256(data@),
        r@.len() == 32,
{
    Sha256::digest(data).to_vec()
}

/// The lower-case hexadecimal digit of a value below sixteen.
pub open spec fn hex_char(n: nat) -> char {
    if n < 10 {
        crate::text::digit_char(n)
    } else if n == 10 {
        'a'
    } else if n == 11 {
        'b'
    } else if n == 12 {
        'c'
    } else if n == 13 {
        'd'
    } else if n == 14 {
        'e'
    } else {
        'f'
    }
}

/// A byte as two lower-case hexadecimal digits, as `{:02x}` writes it.
pub open spec fn hex_byte(b: u8) -> Seq<char> {
    seq![hex_char((b / 16) as nat), hex_char((b % 16) as nat)]
}

/// Bytes as lower-case hexadecimal, two digits each.
pub open spec fn hex_lower(s: Seq<u8>) -> Seq<char>
    decreases s.len(),
{
    if s.len() == 0 {
        Seq::<char>::empty()
    } else {
        hex_lower(s.drop_last()) + hex_byte(s.last())
    }
}

/// The fingerprint of an anchor: the first eight bytes of the SHA-256
/// digest of its UTF-8 bytes, in lower-case hexadecimal.
pub open spec fn fingerprint_spec(value: &str) -> Seq<char> {
    hex_lower(sha256(value.spec_bytes()).take(8))
}

fn hex_digit(n: u8) -> (r: &'static str)
    requires
        n < 16,
    ensures
        r@ == seq![hex_char(n as nat)],
{
    if n < 10 {
        proof {
            reveal_strlit("0");
            reveal_strlit("1");
            reveal_strlit("2");
            reveal_strlit("3");
            reveal_strlit("4");
            reveal_strlit("5");
            reveal_strlit("6");
            reveal_strlit("7");
            reveal_strlit("8");
            reveal_strlit("9");
        }
        if n == 0 {
            "0"
        } else if n == 1 {
            "1"
        } else if n == 2 {
            "2"
        } else if n == 3 {
            "3"
        } else if n == 4 {
            "4"
        } else if n == 5 {
            "5"
        } else if n == 6 {
            "6"
        } else if n == 7 {
            "7"
        } else if n == 8 {
            "8"
        } else {
            "9"
        }
    } else {
        proof {
            reveal_strlit("a");
            reveal_strlit("b");
            reveal_strlit("c");
            reveal_strlit("d");
            reveal_strlit("e");
            reveal_strlit("f");
        }
        if n == 10 {
            "a"
        } else if n == 11 {
            "b"
        } else if n == 12 {
            "c"
        } else if n == 13 {
            "d"
        } else if n == 14 {
            "e"
        } else {
            "f"
        }
    }
}

/// The fingerprint of a conversation anchor: sixteen lower-case hexadecimal
/// digits, from the first eight bytes of its SHA-256 digest.
pub fn fingerprint_anchor(value: &str) -> (r: String)
    ensures
        r@ == fingerprint_spec(value),
        r@.len() == 16,
{
    let digest = sha256_digest(value.as_bytes());
    let ghost d = digest@;
    let mut out = String::new();
    let mut i: usize = 0;
    assert(d.take(0) =~= Seq::<u8>::empty());
    while i < 8
        invariant
            i <= 8,
            d == digest@,
            d.len() == 32,
            out@ == hex_lower(d.take(i as int)),
            out@.len() == 2 * i,
        decreases 8 - i,
    {
        let b = digest[i];
        proof {
            assert(d.take(i + 1).drop_last() =~= d.take(i as int));
            assert(d.take(i + 1).last() == b);
        }
        out.append(hex_digit(b / 16));
        out.append(hex_digit(b % 16));
        assert(out@ =~= hex_lower(d.take(i as int)) + hex_byte(b));
        i = i + 1;
    }
    out
}

} // verus!
