use vstd::arithmetic::mul::lemma_mul_upper_bound;
use vstd::prelude::*;

verus! {

/// The bound below which every count handed to a frequency test lies.
pub open spec fn count_bound() -> nat {
    0x1_0000_0000_0000_0000_0000_0000
}

/// A frequency threshold `num / den`.
#[derive(Clone, Copy, Debug, PartialEq, Eq, Structural, Hash)]
pub struct Frequency {
    pub num: u32,
    pub den: u32,
}

impl Frequency {
    /// `part / total` is at least this frequency, compared without division; a
    /// frequency with `den == 0` is reached only where `num * total == 0`.
    pub open spec fn spec_reached_by(self, part: nat, total: nat) -> bool {
        part * self.den >= self.num * total
    }

    pub fn new(num: u32, den: u32) -> (r: Frequency)
        ensures
            r == (Frequency { num, den }),
    {
        Frequency { num, den }
    }

    pub fn reached_by(&self, part: u128, total: u128) -> (r: bool)
        requires
            part < count_bound(),
            total < count_bound(),
        ensures
            r == self.spec_reached_by(part as nat, total as nat),
    {
        let den = self.den as u128;
        let num = self.num as u128;
        proof {
            lemma_mul_upper_bound(part as int, count_bound() as int, den as int, 0xffff_ffff);
            lemma_mul_upper_bound(total as int, count_bound() as int, num as int, 0xffff_ffff);
            assert(count_bound() * 0xffff_ffff < 0x1_0000_0000_0000_0000_0000_0000_0000_0000);
        }
        part * den >= num * total
    }
}

} // verus!
