//! Random secrets, written as lower-case hexadecimal.
use vstd::prelude::*;
use crate::settings::{SecretLength, secret_bytes};

verus! {

/// The lower-case hexadecimal digit for `d` in `0..16`.
pub open spec fn hex_digit(d: int) -> char {
    if d < 10 {
        crate::numeral::digit_char(d)
    } else if d == 10 {
        'a'
    } else if d == 11 {
        'b'
    } else if d == 12 {
        'c'
    } else if d == 13 {
        'd'
    } else if d == 14 {
        'e'
    } else {
        'f'
    }
}

/// Each byte as two lower-case hexadecimal digits, as `{:02x}` writes it.
pub open spec fn hex_text(bytes: Seq<u8>) -> Seq<char>
    decreases bytes.len(),
{
    if bytes.len() == 0 {
        seq![]
    } else {
        hex_text(bytes.drop_last()) + seq![
            hex_digit((bytes.last() / 16) as int),
            hex_digit((bytes.last() % 16) as int),
        ]
    }
}

pub proof fn lemma_hex_text_len(bytes: Seq<u8>)
    ensures
        hex_text(bytes).len() == 2 * bytes.len(),
    decreases bytes.len(),
{
    if bytes.len() > 0 {
        lemma_hex_text_len(bytes.drop_last());
    }
}

fn hex_of(d: u8) -> (c: char)
    requires
        d < 16,
    ensures
        c == hex_digit(d as int),
{
    if d < 10 {
        if d == 0 {
            '0'
        } else if d == 1 {
            '1'
        } else if d == 2 {
            '2'
        } else if d == 3 {
            '3'
        } else if d == 4 {
            '4'
        } else if d == 5 {
            '5'
        } else if d == 6 {
            '6'
        } else if d == 7 {
            '7'
        } else if d == 8 {
            '8'
        } else {
            '9'
        }
    } else if d == 10 {
        'a'
    } else if d == 11 {
        'b'
    } else if d == 12 {
        'c'
    } else if d == 13 {
        'd'
    } else if d == 14 {
        'e'
    } else {
        'f'
    }
}

/// The bytes as lower-case hexadecimal, two digits per byte.
pub fn hex_encode(bytes: &[u8]) -> (out: String)
    ensures
        out@ == hex_text(bytes@),
{
    let mut out = String::new();
    let mut i: usize = 0;
    while i < bytes.len()
        invariant
            i <= bytes@.len(),
            out@ == hex_text(bytes@.take(i as int)),
        decreases bytes@.len() - i,
    {
        let b = bytes[i];
        out.push(hex_of(b / 16));
        out.push(hex_of(b % 16));
        i = i + 1;
        proof {
            assert(bytes@.take(i as int).drop_last() =~= bytes@.take(i - 1));
            assert(out@ =~= hex_text(bytes@.take(i as int)));
        }
    }
    assert(bytes@.take(bytes@.len() as int) =~= bytes@);
    out
}

/// Fills `buf` from the operating system's random number generator
/// (`rand::rngs::OsRng`, `RngCore::try_fill_bytes`) and tells whether that
/// succeeded: the call fails where the operating system cannot provide
/// random bytes. The buffer keeps its length; nothing is promised of its
/// bytes, which are random where the call succeeded.
#[verifier::external_body]
fn fill_random(buf: &mut Vec<u8>) -> (ok: bool)
    ensures
        final(buf)@.len() == old(buf)@.len(),
{
    rand::RngCore::try_fill_bytes(&mut rand::rngs::OsRng, buf.as_mut_slice()).is_ok()
}

/// A new random secret of the given length, as lower-case hexadecimal: two
/// digits for each of its random bytes; `None` where the operating system
/// could not provide random bytes.
pub fn random_secret(len: SecretLength) -> (out: Option<String>)
    ensures
        match out {
            Some(s) => {
                &&& exists|b: Seq<u8>| b.len() == secret_bytes(len) && s@ == hex_text(b)
                &&& s@.len() == 2 * secret_bytes(len)
            },
            None => true,
        },
{
    let n = len.byte_count();
    let mut buf: Vec<u8> = Vec::new();
    let mut i: usize = 0;
    while i < n
        invariant
            i <= n,
            buf@.len() == i,
        decreases n - i,
    {
        buf.push(0u8);
        i = i + 1;
    }
    if !fill_random(&mut buf) {
        return None;
    }
    let out = hex_encode(buf.as_slice());
    proof {
        lemma_hex_text_len(buf@);
    }
    Some(out)
}

} // verus!
