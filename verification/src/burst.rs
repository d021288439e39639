//! Construction of the randomized ANSI-colored injection bursts.
//!
//! A burst is a foreground-color escape sequence `ESC [ 3 X m` (with `X` an
//! ASCII digit in 1..=7), followed by 1 to 25 raw payload bytes, followed by
//! the fixed reset sequence `ESC [ 0 m`.

use vstd::prelude::*;

verus! {

/// Fewest bytes a burst can hold: the two escape sequences and one payload byte.
pub const MIN_BURST_LEN: usize = 10;
/// Most bytes a burst can hold: the two escape sequences and 25 payload bytes.
pub const MAX_BURST_LEN: usize = 34;

/// The 5-byte color prefix `ESC [ 3 <digit> m` for a color code in 1..=7.
pub open spec fn color_prefix(color: u8) -> Seq<u8> {
    seq![0x1bu8, 0x5bu8, 0x33u8, (0x30 + color) as u8, 0x6du8]
}

/// The fixed 4-byte reset suffix `ESC [ 0 m`.
pub open spec fn reset_suffix() -> Seq<u8> {
    seq![0x1bu8, 0x5bu8, 0x30u8, 0x6du8]
}

/// The shape every injection burst has: a color prefix for some color code in
/// 1..=7, then 1 to 25 payload bytes, then the reset suffix.
pub open spec fn is_burst(s: Seq<u8>) -> bool {
    &&& MIN_BURST_LEN <= s.len() <= MAX_BURST_LEN
    &&& s[0] == 0x1bu8
    &&& s[1] == 0x5bu8
    &&& s[2] == 0x33u8
    &&& 0x31 <= s[3] <= 0x37
    &&& s[4] == 0x6du8
    &&& s.subrange(s.len() - 4, s.len() as int) =~= reset_suffix()
}

/// The payload bytes of a burst: everything between the two escape sequences.
pub open spec fn burst_payload(s: Seq<u8>) -> Seq<u8> {
    s.subrange(5, s.len() - 4)
}

/// Builds the burst for a given color code and payload.
pub fn make_burst(color: u8, payload: &Vec<u8>) -> (r: Vec<u8>)
    requires
        1 <= color <= 7,
        1 <= payload@.len() <= 25,
    ensures
        r@ =~= color_prefix(color) + payload@ + reset_suffix(),
        is_burst(r@),
        burst_payload(r@) =~= payload@,
{
    let mut r: Vec<u8> = Vec::new();
    r.push(0x1b);
    r.push(0x5b);
    r.push(0x33);
    r.push(0x30 + color);
    r.push(0x6d);
    let mut i: usize = 0;
    while i < payload.len()
        invariant
            i <= payload@.len(),
            payload@.len() <= 25,
            r@ =~= color_prefix(color) + payload@.take(i as int),
        decreases payload@.len() - i,
    {
        r.push(payload[i]);
        i += 1;
        proof {
            assert(payload@.take(i as int) =~= payload@.take(i - 1).push(payload@[i - 1]));
        }
    }
    r.push(0x1b);
    r.push(0x5b);
    r.push(0x30);
    r.push(0x6d);
    proof {
        assert(payload@.take(payload@.len() as int) =~= payload@);
        assert(r@ =~= color_prefix(color) + payload@ + reset_suffix());
        assert(burst_payload(r@) =~= payload@);
    }
    r
}

/// Draws a color code, a payload length and the payload bytes at random and
/// builds the burst from them.
pub fn random_burst() -> (r: Vec<u8>)
    ensures
        is_burst(r@),
{
    let color = random_in_range(1, 7);
    let len = random_in_range(1, 25);
    let payload = random_bytes(len as usize);
    make_burst(color, &payload)
}

/// Relies on `rand::Rng::gen_range` on the thread-local generator: the result
/// lies in the given inclusive range.
#[verifier::external_body]
fn random_in_range(lo: u8, hi: u8) -> (r: u8)
    requires
        lo <= hi,
    ensures
        lo <= r <= hi,
{
    rand::Rng::gen_range(&mut rand::thread_rng(), lo..=hi)
}

/// Relies on `rand::Rng::gen` for each byte: only the count of bytes drawn is
/// promised.
#[verifier::external_body]
fn random_bytes(n: usize) -> (r: Vec<u8>)
    ensures
        r@.len() == n,
{
    let mut rng = rand::thread_rng();
    let mut v: Vec<u8> = Vec::with_capacity(n);
    let mut i: usize = 0;
    while i < n {
        v.push(rand::Rng::gen(&mut rng));
        i += 1;
    }
    v
}

} // verus!
