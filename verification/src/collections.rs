//! Notes on vectors, strings and hash maps.

use std::collections::HashMap;
use vstd::prelude::*;
use vstd::string::StringExecFns;

verus! {

broadcast use vstd::std_specs::hash::group_hash_axioms;

/// Notes on storing lists of values in vectors.
#[derive(Debug)]
pub struct Vectors {}

impl Vectors {
    /// The third element, if there is one: the `get` way of reading rather
    /// than indexing and risking a failure.
    pub fn third(v: &Vec<i32>) -> (r: Option<i32>)
        ensures
            v@.len() >= 3 ==> r == Some(v@[2]),
            v@.len() < 3 ==> r is None,
    {
        if v.len() >= 3 {
            Some(v[2])
        } else {
            None
        }
    }

    /// Adds one to every element in place, the mutable-iteration walk.
    pub fn increment_all(v: &mut Vec<i32>)
        requires
            forall|i: int| 0 <= i < old(v)@.len() ==> old(v)@[i] < i32::MAX,
        ensures
            final(v)@.len() == old(v)@.len(),
            forall|i: int| 0 <= i < old(v)@.len() ==> final(v)@[i] == old(v)@[i] + 1,
    {
        let mut k: usize = 0;
        while k < v.len()
            invariant
                k <= v@.len(),
                v@.len() == old(v)@.len(),
                forall|i: int| 0 <= i < k ==> v@[i] == old(v)@[i] + 1,
                forall|i: int| k <= i < v@.len() ==> v@[i] == old(v)@[i],
                forall|i: int| 0 <= i < old(v)@.len() ==> old(v)@[i] < i32::MAX,
            decreases v@.len() - k,
        {
            let t = v[k];
            v.set(k, t + 1);
            k = k + 1;
        }
    }
}

/// Notes on UTF-8 strings.
#[derive(Debug)]
pub struct Strings {}

impl Strings {
    /// Concatenation: growing an empty string piece by piece.
    pub fn build_greeting() -> (r: String)
        ensures
            r@ == "Hello, world!"@,
    {
        let mut s = String::new();
        s.append("Hello, ");
        s.append("world!");
        proof {
            reveal_strlit("Hello, ");
            reveal_strlit("world!");
            reveal_strlit("Hello, world!");
            assert(s@ =~= "Hello, world!"@);
        }
        s
    }
}

/// Notes on hash maps.
#[derive(Debug)]
pub struct HashMaps {}

impl HashMaps {
    /// The score stored for a team, with zero for a team not yet entered:
    /// the `get`-then-default way of reading a map.
    pub fn score_of(scores: &HashMap<u64, u64>, team: u64) -> (r: u64)
        ensures
            scores@.contains_key(team) ==> r == scores@[team],
            !scores@.contains_key(team) ==> r == 0,
    {
        match scores.get(&team) {
            Some(v) => *v,
            None => 0,
        }
    }

    /// A fresh score table with `blue` and `yellow` entered under the keys
    /// 0 and 1.
    pub fn initial_scores(blue: u64, yellow: u64) -> (r: HashMap<u64, u64>)
        ensures
            r@ == Map::<u64, u64>::empty().insert(0, blue).insert(1, yellow),
    {
        let mut scores: HashMap<u64, u64> = HashMap::new();
        scores.insert(0, blue);
        scores.insert(1, yellow);
        scores
    }
}

} // verus!
