//! What goes out on the network: the text of a datagram and the address
//! that it is sent to.

use vstd::prelude::*;

verus! {

/// The ASCII digit for `d`, for `d` from 0 to 9.
pub open spec fn digit(d: int) -> u8 {
    (0x30 + d) as u8
}

/// `n` in decimal, without leading zeros.
pub open spec fn decimal(n: nat) -> Seq<u8>
    decreases n,
{
    if n < 10 {
        seq![digit(n as int)]
    } else {
        decimal(n / 10).push(digit((n % 10) as int))
    }
}

/// `n`, below one million, as six decimal digits with leading zeros.
pub open spec fn six_digits(n: nat) -> Seq<u8> {
    seq![
        digit((n / 100_000 % 10) as int),
        digit((n / 10_000 % 10) as int),
        digit((n / 1_000 % 10) as int),
        digit((n / 100 % 10) as int),
        digit((n / 10 % 10) as int),
        digit((n % 10) as int),
    ]
}

/// The distance of `v` from zero.
pub open spec fn magnitude(v: int) -> nat {
    if v < 0 {
        (-v) as nat
    } else {
        v as nat
    }
}

/// The sign that the text of `v` starts with: a minus for a negative
/// number, nothing otherwise.
pub open spec fn sign_text(v: int) -> Seq<u8> {
    if v < 0 {
        seq![0x2du8]
    } else {
        Seq::<u8>::empty()
    }
}

/// The text of a value `v` in millionths: sign, whole part, a point, and
/// exactly six digits after it. 123456 reads `0.123456`, -500000 reads
/// `-0.500000`.
pub open spec fn payload_text(v: int) -> Seq<u8> {
    sign_text(v) + decimal(magnitude(v) / 1_000_000) + seq![0x2eu8] + six_digits(
        magnitude(v) % 1_000_000,
    )
}

/// The multicast group that every feed is sent to: 224.0.0.123.
pub open spec fn group_octets() -> Seq<u8> {
    seq![224u8, 0u8, 0u8, 123u8]
}

/// The text of the address that the feed on `port` is sent to: the
/// multicast group in dotted form, a colon, and the port in decimal.
pub open spec fn destination_text(port: nat) -> Seq<u8> {
    decimal(224) + seq![0x2eu8] + decimal(0) + seq![0x2eu8] + decimal(0) + seq![0x2eu8] + decimal(
        123,
    ) + seq![0x3au8] + decimal(port)
}

/// `b` is an ASCII digit.
pub open spec fn is_digit(b: u8) -> bool {
    0x30 <= b <= 0x39
}

/// A number in decimal is one or more digits.
pub proof fn lemma_decimal_is_digits(n: nat)
    ensures
        decimal(n).len() >= 1,
        forall|i: int| 0 <= i < decimal(n).len() ==> is_digit(#[trigger] decimal(n)[i]),
    decreases n,
{
    if n >= 10 {
        lemma_decimal_is_digits(n / 10);
    }
}

/// The text of any value ends in a point and exactly six digits; before
/// the point stand digits only, after a minus where the value is
/// negative.
pub proof fn lemma_payload_has_six_decimals(v: int)
    ensures
        payload_text(v).len() >= 8,
        payload_text(v)[payload_text(v).len() - 7] == 0x2e,
        forall|k: int|
            payload_text(v).len() - 6 <= k < payload_text(v).len() ==> is_digit(
                #[trigger] payload_text(v)[k],
            ),
        forall|k: int|
            0 <= k < payload_text(v).len() - 7 ==> if k == 0 && v < 0 {
                #[trigger] payload_text(v)[k] == 0x2d
            } else {
                is_digit(payload_text(v)[k])
            },
{
    let whole = decimal(magnitude(v) / 1_000_000);
    let fraction = six_digits(magnitude(v) % 1_000_000);
    let sign = sign_text(v);
    let t = payload_text(v);
    lemma_decimal_is_digits(magnitude(v) / 1_000_000);
    assert(fraction.len() == 6);
    assert(t.len() == sign.len() + whole.len() + 7);
    assert forall|k: int| 0 <= k < 6 implies is_digit(#[trigger] fraction[k]) by {}
    assert forall|k: int| t.len() - 6 <= k < t.len() implies is_digit(#[trigger] t[k]) by {
        assert(t[k] == fraction[k - (t.len() - 6)]);
    }
    assert forall|k: int| 0 <= k < t.len() - 7 implies if k == 0 && v < 0 {
        #[trigger] t[k] == 0x2d
    } else {
        is_digit(t[k])
    } by {
        if k >= sign.len() {
            assert(t[k] == whole[k - sign.len()]);
        }
    }
}

/// The text of a value between -1.0 and 1.0 is eight bytes long, nine
/// with a minus.
pub proof fn lemma_unit_payload_length(v: int)
    requires
        -1_000_000 <= v <= 1_000_000,
    ensures
        payload_text(v).len() == if v < 0 {
            9int
        } else {
            8int
        },
{
    assert(magnitude(v) / 1_000_000 < 10);
}

/// The four octets of the multicast group.
pub fn multicast_group() -> (octets: [u8; 4])
    ensures
        octets@ == group_octets(),
{
    let octets: [u8; 4] = [224, 0, 0, 123];
    assert(octets@ =~= group_octets());
    octets
}

/// Appends `n` in decimal to `out`.
pub fn push_decimal(out: &mut Vec<u8>, n: u64)
    ensures
        final(out)@ == old(out)@ + decimal(n as nat),
    decreases n,
{
    if n >= 10 {
        push_decimal(out, n / 10);
    }
    let last: u8 = (n % 10) as u8;
    out.push(48 + last);
    assert(final(out)@ =~= old(out)@ + decimal(n as nat));
}

/// Appends `n`, below one million, as six digits to `out`.
fn push_six_digits(out: &mut Vec<u8>, n: u64)
    requires
        n < 1_000_000,
    ensures
        final(out)@ == old(out)@ + six_digits(n as nat),
{
    out.push(48 + (n / 100_000 % 10) as u8);
    out.push(48 + (n / 10_000 % 10) as u8);
    out.push(48 + (n / 1_000 % 10) as u8);
    out.push(48 + (n / 100 % 10) as u8);
    out.push(48 + (n / 10 % 10) as u8);
    out.push(48 + (n % 10) as u8);
    assert(final(out)@ =~= old(out)@ + six_digits(n as nat));
}

/// Writes a value in millionths as the text of one datagram.
pub fn encode_sentiment(value: i64) -> (text: Vec<u8>)
    ensures
        text@ == payload_text(value as int),
{
    let mut text: Vec<u8> = Vec::new();
    let size: u64 = if value < 0 {
        text.push(0x2d);
        (-(value as i128)) as u64
    } else {
        value as u64
    };
    assert(size == magnitude(value as int));
    assert(text@ =~= sign_text(value as int));
    push_decimal(&mut text, size / 1_000_000);
    text.push(0x2e);
    push_six_digits(&mut text, size % 1_000_000);
    text
}

/// Writes the address that the feed on `port` is sent to.
pub fn destination(port: u64) -> (text: Vec<u8>)
    ensures
        text@ == destination_text(port as nat),
{
    let group: [u8; 4] = multicast_group();
    let mut text: Vec<u8> = Vec::new();
    push_decimal(&mut text, group[0] as u64);
    text.push(0x2e);
    push_decimal(&mut text, group[1] as u64);
    text.push(0x2e);
    push_decimal(&mut text, group[2] as u64);
    text.push(0x2e);
    push_decimal(&mut text, group[3] as u64);
    text.push(0x3a);
    push_decimal(&mut text, port);
    assert(text@ =~= destination_text(port as nat));
    text
}

} // verus!
