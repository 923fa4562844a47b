//! ADS7830 8-channel analog-to-digital converter.
use vstd::prelude::*;
use vstd::relations::{sorted_by, total_ordering};
use crate::bus::{Error, Op, Transaction, ops, lemma_ops_push};

verus! {

/// Rotation of the three low bits of a natural channel index into the
/// chip's single-ended command encoding: `abc -> cab`.
pub open spec fn remap(ch: nat) -> nat {
    4 * (ch % 2) + ch / 2
}

/// Default bus address of the chip.
pub const ADS7830_ADDR: u8 = 0x48;
/// Command byte template: single-ended inputs, converter powered.
pub const CMD_TEMPLATE: u8 = 0x84;
/// Highest channel index.
pub const MAX_CHANNEL: u8 = 7;
/// Channel wired to the battery divider.
pub const BATTERY_CHANNEL: u8 = 0;
/// Number of samples taken for one battery reading.
pub const MEDIAN_SAMPLES: usize = 9;
/// Position of the median among the sorted samples.
pub const MEDIAN_INDEX: usize = 4;

/// The ascending order on sample codes.
pub open spec fn code_le(a: u8, b: u8) -> bool {
    a <= b
}

/// The middle value of nine samples once sorted ascending.
pub open spec fn median(s: Seq<u8>) -> u8 {
    s.sort_by(|a: u8, b: u8| code_le(a, b))[4]
}

/// Command byte that selects channel `ch` for a single-ended conversion.
pub open spec fn command_spec(ch: nat) -> nat {
    0x84 + 16 * remap(ch)
}

/// Maps a natural channel index `0..=7` to the chip's channel-select bits.
pub fn map_channel(ch: u8) -> (r: Result<u8, Error>)
    ensures
        ch > 7 ==> r == Err::<u8, Error>(Error::InvalidChannel),
        ch <= 7 ==> (r matches Ok(c) && c as nat == remap(ch as nat)),
{
    if ch > MAX_CHANNEL {
        return Err(Error::InvalidChannel);
    }
    Ok(select_bits(ch))
}

/// Rotates the three low bits of a valid channel index: `abc -> cab`.
fn select_bits(ch: u8) -> (r: u8)
    requires
        ch <= 7,
    ensures
        r as nat == remap(ch as nat),
{
    let r: u8 = ((ch << 2) | (ch >> 1)) & 0x07;
    assert(((ch << 2) | (ch >> 1)) & 0x07 == 4 * (ch % 2) + ch / 2) by (bit_vector)
        requires ch <= 7u8;
    r
}

/// Inverse of [`remap`] on `0..=7`: `cab -> abc`.
pub open spec fn unmap(y: nat) -> nat {
    2 * (y % 4) + y / 4
}

/// The channel remap is a bijection of `0..=7` onto itself: it stays in
/// range, distinct channels get distinct select bits, and every select value
/// is reached (from its `unmap`).
pub proof fn lemma_remap_bijective()
    ensures
        forall|ch: nat| ch < 8 ==> #[trigger] remap(ch) < 8,
        forall|a: nat, b: nat| a < 8 && b < 8 && #[trigger] remap(a) == #[trigger] remap(b) ==> a == b,
        forall|y: nat| y < 8 ==> #[trigger] unmap(y) < 8 && remap(unmap(y)) == y,
{
    assert forall|ch: nat| ch < 8 implies unmap(#[trigger] remap(ch)) == ch && remap(ch) < 8 by {
        assert(ch == 0 || ch == 1 || ch == 2 || ch == 3 || ch == 4 || ch == 5 || ch == 6 || ch == 7);
    }
    assert forall|y: nat| y < 8 implies #[trigger] unmap(y) < 8 && remap(unmap(y)) == y by {
        assert(y == 0 || y == 1 || y == 2 || y == 3 || y == 4 || y == 5 || y == 6 || y == 7);
    }
}

/// A single outlier among nine samples does not move the median: when all
/// samples but the one at `i` equal `v`, the median is `v`.
pub proof fn lemma_median_ignores_outlier(s: Seq<u8>, i: int, v: u8)
    requires
        s.len() == 9,
        0 <= i < 9,
        forall|j: int| 0 <= j < 9 && j != i ==> s[j] == v,
    ensures
        median(s) == v,
{
    let leq = |a: u8, b: u8| code_le(a, b);
    let x = s[i];
    let u = Seq::new(9, |j: int| v);
    let k: int = if x <= v { 0 } else { 8 };
    let w = u.update(k, x);
    broadcast use vstd::seq_lib::group_to_multiset_ensures;
    assert(s =~= u.update(i, x));
    assert(s.to_multiset() == w.to_multiset());
    lemma_code_le_total();
    s.lemma_sort_by_ensures(leq);
    assert(sorted_by(w, leq));
    vstd::seq_lib::lemma_sorted_unique(w, s.sort_by(leq), leq);
}

/// Relies on `slice::sort_unstable`: the samples end up in ascending order,
/// as a permutation of what they were.
#[verifier::external_body]
fn sort_samples(s: &mut [u8; 9])
    ensures
        sorted_by(final(s)@, |a: u8, b: u8| code_le(a, b)),
        final(s)@.to_multiset() == old(s)@.to_multiset(),
{
    s.sort_unstable();
}

proof fn lemma_code_le_total()
    ensures
        total_ordering(|a: u8, b: u8| code_le(a, b)),
{
}

/// Register protocol of the analog-to-digital converter.
pub struct Ads7830 {
    /// Bus address of the chip.
    pub address: u8,
}

impl Ads7830 {
    /// A driver for the chip at its default address.
    pub fn new() -> (r: Ads7830)
        ensures
            r.address == ADS7830_ADDR,
    {
        Ads7830 { address: ADS7830_ADDR }
    }

    /// The write-then-read that converts channel `channel` and returns its
    /// 8-bit code.
    pub fn read_adc(&self, channel: u8) -> (r: Result<Transaction, Error>)
        ensures
            channel > 7 ==> r == Err::<Transaction, Error>(Error::InvalidChannel),
            channel <= 7 ==> (r matches Ok(t) && t@ == Op::WriteRead(
                self.address,
                seq![command_spec(channel as nat) as u8],
                1,
            )),
    {
        if channel > MAX_CHANNEL {
            return Err(Error::InvalidChannel);
        }
        Ok(self.conversion(channel))
    }

    /// The transaction of [`Ads7830::read_adc`] for a valid channel.
    fn conversion(&self, channel: u8) -> (t: Transaction)
        requires
            channel <= 7,
        ensures
            t@ == Op::WriteRead(self.address, seq![command_spec(channel as nat) as u8], 1),
    {
        let bits = select_bits(channel);
        let command: u8 = CMD_TEMPLATE | (bits << 4);
        assert((0x84u8 | (bits << 4u8)) == 0x84u8 + 16u8 * bits) by (bit_vector)
            requires bits <= 7u8;
        let bytes = vec![command];
        assert(bytes@ =~= seq![command_spec(channel as nat) as u8]);
        Transaction::WriteRead { addr: self.address, bytes, read_len: 1 }
    }

    /// The nine conversions of the battery channel whose codes
    /// [`Ads7830::battery_code`] takes.
    pub fn battery_reads(&self) -> (r: Vec<Transaction>)
        ensures
            ops(r@) == Seq::new(9, |i: int| Op::WriteRead(self.address, seq![0x84u8], 1)),
    {
        let mut r: Vec<Transaction> = Vec::new();
        let mut i: usize = 0;
        while i < MEDIAN_SAMPLES
            invariant
                0 <= i <= 9,
                ops(r@) == Seq::new(i as nat, |k: int| Op::WriteRead(self.address, seq![0x84u8], 1)),
            decreases 9 - i,
        {
            let t = self.conversion(BATTERY_CHANNEL);
            proof {
                lemma_ops_push(r@, t);
            }
            r.push(t);
            assert(ops(r@) =~= Seq::new((i + 1) as nat, |k: int| Op::WriteRead(self.address, seq![0x84u8], 1)));
            i = i + 1;
        }
        r
    }

    /// Median-filtered battery code from nine conversions of the battery
    /// channel.
    pub fn battery_code(samples: [u8; 9]) -> (r: u8)
        ensures
            r == median(samples@),
    {
        let mut sorted = samples;
        sort_samples(&mut sorted);
        proof {
            let leq = |a: u8, b: u8| code_le(a, b);
            lemma_code_le_total();
            samples@.lemma_sort_by_ensures(leq);
            vstd::seq_lib::lemma_sorted_unique(sorted@, samples@.sort_by(leq), leq);
        }
        sorted[MEDIAN_INDEX]
    }
}

} // verus!
