//! Hexadecimal text.

use vstd::prelude::*;

use crate::text::{ascii_bytes, is_ascii_text};
use crate::webhook::WebhookError;

verus! {

/// The lower-case hexadecimal digit of `n`.
pub open spec fn hex_char(n: int) -> char {
    if n < 10 {
        (48 + n) as char
    } else {
        (87 + n) as char
    }
}

/// The value of a hexadecimal digit of either case.
pub open spec fn nibble_value(c: int) -> Option<int> {
    if 48 <= c <= 57 {
        Some(c - 48)
    } else if 97 <= c <= 102 {
        Some(c - 87)
    } else if 65 <= c <= 70 {
        Some(c - 55)
    } else {
        None
    }
}

/// Whether `c` is a hexadecimal digit.
pub open spec fn is_hex(c: char) -> bool {
    nibble_value(c as int) is Some
}

/// The lower-case hexadecimal form of `bytes`, two digits for each byte.
pub open spec fn hex_text(bytes: Seq<u8>) -> Seq<char> {
    Seq::new(
        2 * bytes.len(),
        |i: int|
            if i % 2 == 0 {
                hex_char(bytes[i / 2] as int / 16)
            } else {
                hex_char(bytes[i / 2] as int % 16)
            },
    )
}

/// The 32 bytes that 64 hexadecimal digits write.
pub open spec fn digest_bytes(text: Seq<char>) -> Option<Seq<u8>> {
    if text.len() == 64 && (forall|i: int| 0 <= i < 64 ==> is_hex(#[trigger] text[i])) {
        Some(
            Seq::new(
                32,
                |i: int|
                    (nibble_value(text[2 * i] as int)->0 * 16 + nibble_value(
                        text[2 * i + 1] as int,
                    )->0) as u8,
            ),
        )
    } else {
        None
    }
}

fn nibble_char(n: u8) -> (c: char)
    requires
        n < 16,
    ensures
        c == hex_char(n as int),
{
    if n < 10 {
        (48 + n) as char
    } else {
        (87 + n) as char
    }
}

/// Writes `bytes` in lower-case hexadecimal.
pub fn encode_hex(bytes: &[u8]) -> (r: String)
    ensures
        r@ == hex_text(bytes@),
{
    let mut output = String::new();
    let mut i: usize = 0;
    assert(output@ == hex_text(bytes@.take(0)));
    while i < bytes.len()
        invariant
            i <= bytes@.len(),
            output@ == hex_text(bytes@.take(i as int)),
        decreases bytes@.len() - i,
    {
        let byte: u8 = bytes[i];
        let ghost before = output@;
        output.push(nibble_char(byte / 16));
        output.push(nibble_char(byte % 16));
        proof {
            let next = hex_text(bytes@.take(i + 1));
            assert(output@.len() == next.len());
            assert forall|j: int| 0 <= j < next.len() implies output@[j] == next[j] by {
                if j < 2 * i {
                    assert(output@[j] == before[j]);
                    assert(bytes@.take(i + 1)[j / 2] == bytes@.take(i as int)[j / 2]);
                } else {
                    assert(j == 2 * i || j == 2 * i + 1);
                }
            }
            assert(output@ == next);
        }
        i += 1;
    }
    assert(bytes@.take(i as int) == bytes@);
    output
}

/// Reads one hexadecimal digit.
pub fn hex_nibble(value: u8) -> (r: Result<u8, WebhookError>)
    ensures
        match nibble_value(value as int) {
            Some(n) => r is Ok && r->Ok_0 == n,
            None => r == Err::<u8, WebhookError>(WebhookError::InvalidSignature),
        },
        r is Ok ==> r->Ok_0 < 16,
{
    if 48 <= value && value <= 57 {
        Ok(value - 48)
    } else if 97 <= value && value <= 102 {
        Ok(value - 87)
    } else if 65 <= value && value <= 70 {
        Ok(value - 55)
    } else {
        Err(WebhookError::InvalidSignature)
    }
}

/// Reads a 32-byte digest written in hexadecimal.
pub fn decode_hex(value: &str) -> (r: Result<Vec<u8>, WebhookError>)
    ensures
        match digest_bytes(value@) {
            Some(bytes) => r is Ok && r->Ok_0@ == bytes,
            None => r == Err::<Vec<u8>, WebhookError>(WebhookError::InvalidSignature),
        },
{
    let bytes = match ascii_bytes(value) {
        Some(bytes) => bytes,
        None => {
            proof {
                if digest_bytes(value@) is Some {
                    assert forall|i: int| 0 <= i < value@.len() implies (#[trigger] value@[i] as int)
                        < 128 by {
                        assert(is_hex(value@[i]));
                    }
                }
            }
            return Err(WebhookError::InvalidSignature);
        },
    };
    if bytes.len() != 64 {
        return Err(WebhookError::InvalidSignature);
    }
    let mut out: Vec<u8> = Vec::new();
    let mut i: usize = 0;
    while i < 32
        invariant
            i <= 32,
            bytes@ == Seq::new(value@.len(), |i: int| value@[i] as u8),
            is_ascii_text(value@),
            bytes@.len() == 64,
            value@.len() == 64,
            out@.len() == i,
            forall|j: int| 0 <= j < 2 * i ==> is_hex(#[trigger] value@[j]),
            forall|j: int|
                0 <= j < i ==> #[trigger] out@[j] == (nibble_value(value@[2 * j] as int)->0 * 16
                    + nibble_value(value@[2 * j + 1] as int)->0) as u8,
        decreases 32 - i,
    {
        assert(bytes@[2 * i] == value@[2 * i] as u8);
        assert(bytes@[2 * i + 1] == value@[2 * i + 1] as u8);
        let high = hex_nibble(bytes[2 * i]);
        let low = hex_nibble(bytes[2 * i + 1]);
        match (high, low) {
            (Ok(high), Ok(low)) => {
                out.push(high * 16 + low);
            },
            _ => {
                assert(!is_hex(value@[2 * i]) || !is_hex(value@[2 * i + 1]));
                return Err(WebhookError::InvalidSignature);
            },
        }
        i += 1;
    }
    assert(out@ == digest_bytes(value@)->0);
    Ok(out)
}

/// Decoding the hexadecimal form of a 32-byte digest gives the digest.
pub proof fn law_digest_reads_back(bytes: Seq<u8>)
    requires
        bytes.len() == 32,
    ensures
        digest_bytes(hex_text(bytes)) == Some(bytes),
{
    let text = hex_text(bytes);
    assert forall|i: int| 0 <= i < 64 implies is_hex(#[trigger] text[i]) by {}
    assert forall|i: int| 0 <= i < 32 implies #[trigger] digest_bytes(text)->0[i] == bytes[i] by {
        assert((2 * i) / 2 == i && (2 * i + 1) / 2 == i);
        assert((2 * i) % 2 == 0 && (2 * i + 1) % 2 == 1);
        let b = bytes[i] as int;
        assert(nibble_value(text[2 * i] as int) == Some(b / 16));
        assert(nibble_value(text[2 * i + 1] as int) == Some(b % 16));
    }
    assert(digest_bytes(text)->0 == bytes);
}

/// Bytes are written with the digits 0 to 9 and a to f, high half first; capital digits read as
/// small ones, and nothing but 64 hexadecimal digits reads as a digest.
pub proof fn law_hexadecimal_digits(bytes: Seq<u8>, i: int, text: Seq<char>)
    requires
        0 <= i < bytes.len(),
    ensures
        hex_text(bytes).len() == 2 * bytes.len(),
        hex_text(bytes)[2 * i] == "0123456789abcdef"@[bytes[i] as int / 16],
        hex_text(bytes)[2 * i + 1] == "0123456789abcdef"@[bytes[i] as int % 16],
        digest_bytes(text) is Some ==> text.len() == 64,
        forall|n: int|
            0 <= n < 16 ==> nibble_value(#[trigger] "0123456789abcdef"@[n] as int) == Some(n),
        forall|n: int|
            0 <= n < 16 ==> nibble_value(#[trigger] "0123456789ABCDEF"@[n] as int) == Some(n),
        forall|c: char|
            #[trigger] is_hex(c) ==> "0123456789abcdefABCDEF"@.contains(c),
{
    reveal_strlit("0123456789abcdef");
    reveal_strlit("0123456789ABCDEF");
    reveal_strlit("0123456789abcdefABCDEF");
    let small = "0123456789abcdef"@;
    let capital = "0123456789ABCDEF"@;
    let all = "0123456789abcdefABCDEF"@;
    assert(small.len() == 16 && capital.len() == 16 && all.len() == 22);
    assert forall|n: int| 0 <= n < 16 implies nibble_value(#[trigger] small[n] as int) == Some(
        n,
    ) && small[n] == hex_char(n) by {
        assert(n < 10 ==> small[n] as int == 48 + n);
        assert(n >= 10 ==> small[n] as int == 87 + n);
    }
    assert forall|n: int| 0 <= n < 16 implies nibble_value(#[trigger] capital[n] as int) == Some(
        n,
    ) by {
        assert(n < 10 ==> capital[n] as int == 48 + n);
        assert(n >= 10 ==> capital[n] as int == 55 + n);
    }
    assert forall|c: char| #[trigger] is_hex(c) implies all.contains(c) by {
        let code = c as int;
        let place = if code <= 57 {
            code - 48
        } else if code >= 97 {
            code - 87
        } else {
            code - 49
        };
        assert(0 <= place < 22);
        assert(all[place] == c);
    }
    assert((2 * i) / 2 == i && (2 * i + 1) / 2 == i);
    assert((2 * i) % 2 == 0 && (2 * i + 1) % 2 == 1);
}

} // verus!
