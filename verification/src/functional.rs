//! Notes on closures and iterators, with the shirt-giveaway inventory and
//! the small pipelines the iterator notes walk through.

use vstd::prelude::*;

verus! {

/// Notes on closures.
#[derive(Debug)]
pub struct Closures {}

/// A shirt colour the company stocks.
#[derive(Debug, PartialEq, Eq, Structural, Clone, Copy)]
pub enum ShirtColor {
    Blue,
    Red,
}

/// How many shirts of colour `c` the sequence holds.
pub open spec fn count_of(s: Seq<ShirtColor>, c: ShirtColor) -> int
    decreases s.len(),
{
    if s.len() == 0 {
        0
    } else {
        count_of(s.drop_last(), c) + if s.last() == c {
            1int
        } else {
            0int
        }
    }
}

/// The colour a giveaway falls back to: the one with more stock, blue on a
/// tie.
pub open spec fn most_stocked_spec(s: Seq<ShirtColor>) -> ShirtColor {
    if count_of(s, ShirtColor::Red) > count_of(s, ShirtColor::Blue) {
        ShirtColor::Red
    } else {
        ShirtColor::Blue
    }
}

/// The company's stock of shirts.
pub struct Inventory {
    pub shirts: Vec<ShirtColor>,
}

impl Inventory {
    /// The colour with the most shirts in stock, blue on a tie.
    pub fn most_stocked(&self) -> (r: ShirtColor)
        ensures
            r == most_stocked_spec(self.shirts@),
    {
        let mut num_red: usize = 0;
        let mut num_blue: usize = 0;
        let mut k: usize = 0;
        while k < self.shirts.len()
            invariant
                k <= self.shirts@.len(),
                num_red == count_of(self.shirts@.subrange(0, k as int), ShirtColor::Red),
                num_blue == count_of(self.shirts@.subrange(0, k as int), ShirtColor::Blue),
                num_red <= k,
                num_blue <= k,
            decreases self.shirts@.len() - k,
        {
            proof {
                assert(self.shirts@.subrange(0, k + 1).drop_last() =~= self.shirts@.subrange(
                    0,
                    k as int,
                ));
            }
            match self.shirts[k] {
                ShirtColor::Red => {
                    num_red = num_red + 1;
                },
                ShirtColor::Blue => {
                    num_blue = num_blue + 1;
                },
            }
            k = k + 1;
        }
        proof {
            assert(self.shirts@.subrange(0, self.shirts@.len() as int) =~= self.shirts@);
        }
        if num_red > num_blue {
            ShirtColor::Red
        } else {
            ShirtColor::Blue
        }
    }

    /// The colour the user gets: their stated preference, or the most
    /// stocked colour when they state none.
    pub fn giveaway(&self, user_preference: Option<ShirtColor>) -> (r: ShirtColor)
        ensures
            user_preference matches Some(c) ==> r == c,
            user_preference is None ==> r == most_stocked_spec(self.shirts@),
    {
        match user_preference {
            Some(c) => c,
            None => self.most_stocked(),
        }
    }
}

/// Notes on iterators.
#[derive(Debug)]
pub struct Iterators {}

/// The sum of a sequence of 32-bit integers, as an unbounded integer.
pub open spec fn seq_sum(s: Seq<i32>) -> int
    decreases s.len(),
{
    if s.len() == 0 {
        0
    } else {
        seq_sum(s.drop_last()) + s.last()
    }
}

impl Iterators {
    /// Consumes the sequence into its sum, the way `sum` does; a 128-bit
    /// accumulator has room for any vector of 32-bit values.
    pub fn sum(v: &Vec<i32>) -> (r: i128)
        ensures
            r == seq_sum(v@),
    {
        let mut total: i128 = 0;
        let mut k: usize = 0;
        while k < v.len()
            invariant
                k <= v@.len(),
                total == seq_sum(v@.subrange(0, k as int)),
                -0x8000_0000 * (k as int) <= total <= 0x8000_0000 * (k as int),
            decreases v@.len() - k,
        {
            proof {
                assert(v@.subrange(0, k + 1).drop_last() =~= v@.subrange(0, k as int));
            }
            total = total + (v[k] as i128);
            k = k + 1;
        }
        proof {
            assert(v@.subrange(0, v@.len() as int) =~= v@);
        }
        total
    }

    /// The mapped vector with one added to each element, the lazy `map`
    /// pipeline collected.
    pub fn map_add_one(v: &Vec<i32>) -> (r: Vec<i32>)
        requires
            forall|i: int| 0 <= i < v@.len() ==> v@[i] < i32::MAX,
        ensures
            r@.len() == v@.len(),
            forall|i: int| 0 <= i < v@.len() ==> r@[i] == v@[i] + 1,
    {
        let mut out: Vec<i32> = Vec::new();
        let mut k: usize = 0;
        while k < v.len()
            invariant
                k <= v@.len(),
                out@.len() == k,
                forall|i: int| 0 <= i < k ==> out@[i] == v@[i] + 1,
                forall|i: int| 0 <= i < v@.len() ==> v@[i] < i32::MAX,
            decreases v@.len() - k,
        {
            out.push(v[k] + 1);
            k = k + 1;
        }
        out
    }
}

} // verus!
