//! The canonical byte encoding of a signed reading, and the signature check.

use vstd::prelude::*;
use vstd::string::StringSliceAdditionalSpecFns;

verus! {

/// The byte that separates the fields of a signed message.
pub const FIELD_SEPARATOR: u8 = 124;

/// Decimal digits of a natural number, most significant first, no leading zeros.
pub open spec fn decimal_digits(n: nat) -> Seq<u8>
    decreases n,
{
    if n < 10 {
        seq![(48 + n) as u8]
    } else {
        decimal_digits(n / 10).push((48 + n % 10) as u8)
    }
}

/// Decimal text of an integer: a leading '-' for negatives, then the digits.
pub open spec fn decimal(t: int) -> Seq<u8> {
    if t < 0 {
        seq![45u8] + decimal_digits((-t) as nat)
    } else {
        decimal_digits(t as nat)
    }
}

/// The message an authority signs for one reading:
/// `sensor_type | decimal(timestamp) | data | device_id`.
pub open spec fn signed_message(
    sensor_type: Seq<u8>,
    timestamp: int,
    data: Seq<u8>,
    device_id: Seq<u8>,
) -> Seq<u8> {
    sensor_type + seq![FIELD_SEPARATOR] + decimal(timestamp) + seq![FIELD_SEPARATOR] + data
        + seq![FIELD_SEPARATOR] + device_id
}

fn push_digits(n: u64, out: &mut Vec<u8>)
    ensures
        final(out)@ == old(out)@ + decimal_digits(n as nat),
    decreases n,
{
    if n >= 10 {
        push_digits(n / 10, out);
    }
    out.push(48u8 + (n % 10) as u8);
    proof {
        assert(old(out)@ + decimal_digits(n as nat) =~= final(out)@);
    }
}

fn push_bytes(out: &mut Vec<u8>, src: &[u8])
    ensures
        final(out)@ == old(out)@ + src@,
{
    let mut i: usize = 0;
    while i < src.len()
        invariant
            i <= src@.len(),
            out@ == old(out)@ + src@.subrange(0, i as int),
        decreases src@.len() - i,
    {
        out.push(src[i]);
        i = i + 1;
        proof {
            assert(out@ =~= old(out)@ + src@.subrange(0, i as int));
        }
    }
    proof {
        assert(src@.subrange(0, i as int) =~= src@);
    }
}

/// Appends the decimal text of `t` to `out`.
pub fn push_decimal(t: i64, out: &mut Vec<u8>)
    ensures
        final(out)@ == old(out)@ + decimal(t as int),
{
    if t < 0 {
        out.push(45u8);
        let magnitude: u64 = (0i128 - t as i128) as u64;
        push_digits(magnitude, out);
        proof {
            assert(final(out)@ =~= old(out)@ + decimal(t as int));
        }
    } else {
        push_digits(t as u64, out);
    }
}

/// Builds the canonical message for a reading, byte for byte.
pub fn create_message(sensor_type: &str, timestamp: i64, data: &[u8], device_id: &str) -> (r: Vec<
    u8,
>)
    ensures
        r@ == signed_message(sensor_type.spec_bytes(), timestamp as int, data@, device_id.spec_bytes()),
{
    let mut message: Vec<u8> = Vec::new();
    push_bytes(&mut message, sensor_type.as_bytes());
    message.push(FIELD_SEPARATOR);
    push_decimal(timestamp, &mut message);
    message.push(FIELD_SEPARATOR);
    push_bytes(&mut message, data);
    message.push(FIELD_SEPARATOR);
    push_bytes(&mut message, device_id.as_bytes());
    proof {
        assert(message@ =~= signed_message(
            sensor_type.spec_bytes(),
            timestamp as int,
            data@,
            device_id.spec_bytes(),
        ));
    }
    message
}

/// Whether `signature` is a valid Ed25519 signature by `public_key` over exactly
/// `message`.
pub uninterp spec fn ed25519_accepts(signature: Seq<u8>, public_key: Seq<u8>, message: Seq<u8>) -> bool;

/// Relies on ed25519_dalek 1.0.1: `PublicKey::from_bytes` and
/// `Signature::from_bytes` parse the two byte strings, and
/// `Verifier::verify` checks the signature over the message; a key or a
/// signature that does not parse is a failed check. The outcome depends on the
/// three byte strings alone.
#[verifier::external_body]
pub(crate) fn verify_ed25519_signature(signature: &[u8; 64], public_key: &[u8; 32], message: &[u8]) -> (r: bool)
    ensures
        r == ed25519_accepts(signature@, public_key@, message@),
{
    match (
        ed25519_dalek::PublicKey::from_bytes(public_key),
        ed25519_dalek::Signature::from_bytes(signature),
    ) {
        (Ok(key), Ok(sig)) => ed25519_dalek::Verifier::verify(&key, message, &sig).is_ok(),
        _ => false,
    }
}

} // verus!
