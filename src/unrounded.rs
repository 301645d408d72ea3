use vstd::prelude::*;

verus! {

/// An unrounded value: four times a real number `v`, truncated, with its lowest bit set
/// when the truncation lost anything. So `x >> 2` is `⌊v⌋`, bit 1 says whether the fraction
/// of `v` reaches one half, and bit 0 says whether `v` lies strictly beyond that point.
#[derive(Clone, Copy)]
pub struct Unrounded(pub u64);

/// `⌊u / 4⌋`.
pub open spec fn floor_spec(u: int) -> int {
    u / 4
}

/// `⌈u / 4⌉`.
pub open spec fn ceil_spec(u: int) -> int {
    (u + 3) / 4
}

/// `u / 4` rounded to the nearest integer, ties to even.
pub open spec fn round_spec(u: int) -> int {
    let q = u / 4;
    let r = u % 4;
    if r < 2 {
        q
    } else if r > 2 {
        q + 1
    } else {
        q + q % 2
    }
}

impl Unrounded {
    /// Rounds down.
    pub fn floor(self) -> (r: u64)
        ensures
            r == floor_spec(self.0 as int),
    {
        proof {
            let u = self.0;
            assert(u >> 2u64 == u / 4) by (bit_vector);
        }
        self.0 >> 2
    }

    /// Rounds to the nearest integer, ties to even.
    pub fn round(self) -> (r: u64)
        requires
            self.0 <= u64::MAX - 2,
        ensures
            r == round_spec(self.0 as int),
    {
        let u = self.0;
        proof {
            assert(u >> 2u64 == u / 4) by (bit_vector);
            assert((u / 4) & 1u64 == (u / 4) % 2) by (bit_vector);
        }
        let t = u + 1 + ((u >> 2) & 1);
        proof {
            assert(t >> 2u64 == t / 4) by (bit_vector);
        }
        t >> 2
    }

    /// Rounds up.
    pub fn ceil(self) -> (r: u64)
        requires
            self.0 <= u64::MAX - 3,
        ensures
            r == ceil_spec(self.0 as int),
    {
        let t = self.0 + 3;
        proof {
            assert(t >> 2u64 == t / 4) by (bit_vector);
        }
        t >> 2
    }

    /// Adds `delta` (one of -1, 0, 1) to the unrounded value, modulo 2^64: this moves a
    /// rounding boundary by a quarter of a unit.
    pub fn nudge(self, delta: i64) -> (r: Unrounded)
        requires
            -1 <= delta <= 1,
        ensures
            r.0 == (self.0 + delta) % 0x1_0000_0000_0000_0000int,
    {
        proof {
            assert(-1i64 as u64 == 0xffff_ffff_ffff_ffffu64) by (bit_vector);
        }
        Unrounded(self.0.wrapping_add(delta as u64))
    }

    /// Combines two unrounded values bit by bit, keeping the sticky bit of either.
    pub fn or(self, v: Unrounded) -> (r: Unrounded)
        ensures
            r.0 == self.0 | v.0,
    {
        Unrounded(self.0 | v.0)
    }

    /// The unrounded value of a flag: 1, the sticky bit alone, for `true`, else 0.
    pub fn from_bool(b: bool) -> (r: Unrounded)
        ensures
            r.0 == if b {
                1u64
            } else {
                0u64
            },
    {
        Unrounded(b as u64)
    }
}

/// Floor, round and ceiling are ordered, and at most one apart.
pub proof fn lemma_rounding_order(u: int)
    requires
        u >= 0,
    ensures
        floor_spec(u) <= round_spec(u) <= ceil_spec(u) <= floor_spec(u) + 1,
        u % 4 == 0 ==> floor_spec(u) == round_spec(u) && round_spec(u) == ceil_spec(u),
{
}

} // verus!
