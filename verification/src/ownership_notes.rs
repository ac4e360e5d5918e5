//! Notes on ownership, references and borrowing, slices, and mending
//! ownership errors.

use vstd::prelude::*;
use vstd::string::StringExecFns;

verus! {

/// Notes on what ownership is.
#[derive(Debug)]
pub struct Ownership {}

impl Ownership {
    /// Takes the name by value — moving it from the caller — and returns the
    /// suffixed string, the only way back to it.
    pub fn add_suffix(name: String) -> (r: String)
        ensures
            r@ == name@ + " Jr."@,
    {
        let mut name = name;
        name.append(" Jr.");
        name
    }
}

/// Notes on references and borrowing.
#[derive(Debug)]
pub struct ReferenceBorrow {}

impl ReferenceBorrow {
    /// Greets without taking ownership: the borrowed strings stay usable at
    /// the call site, so only their combined greeting needs returning.
    pub fn greet(g1: &String, g2: &String) -> (r: String)
        ensures
            r@ == g1@ + " "@ + g2@ + "!"@,
    {
        let mut s = String::new();
        s.append(g1.as_str());
        s.append(" ");
        s.append(g2.as_str());
        s.append("!");
        proof {
            assert(s@ =~= g1@ + " "@ + g2@ + "!"@);
        }
        s
    }

    /// Mutates an element through a mutable reference into the vector: the
    /// unique, non-owning access of the notes.
    pub fn increment_third(v: &mut Vec<i32>)
        requires
            old(v)@.len() >= 3,
            old(v)@[2] < i32::MAX,
        ensures
            final(v)@ == old(v)@.update(2, (old(v)@[2] + 1) as i32),
    {
        let t = v[2];
        v.set(2, t + 1);
    }
}

/// The parts of a name joined by single spaces: empty for no parts, and
/// otherwise each further part preceded by one space.
pub open spec fn joined(parts: Seq<Seq<char>>) -> Seq<char>
    decreases parts.len(),
{
    if parts.len() == 0 {
        Seq::empty()
    } else if parts.len() == 1 {
        parts[0]
    } else {
        joined(parts.drop_last()) + " "@ + parts.last()
    }
}

/// Notes on mending programs the ownership rules reject.
#[derive(Debug)]
pub struct FixOwnershipError {}

impl FixOwnershipError {
    /// Returning a reference to a local would dangle; moving the string out
    /// is the first remedy.
    pub fn return_a_string() -> (r: String)
        ensures
            r@ == "Hello world"@,
    {
        String::from_str("Hello world")
    }

    /// The last remedy: the caller provides the slot and the function fills
    /// it through a mutable reference.
    pub fn fill_string(output: &mut String)
        ensures
            final(output)@ == "Hello world"@,
    {
        *output = String::from_str("Hello world");
    }

    /// Appends the title to the name's parts and joins them with spaces; the
    /// mutable borrow is the permission the immutable version lacked.
    pub fn stringify_name_with_title(name: &mut Vec<String>) -> (r: String)
        ensures
            final(name)@.len() == old(name)@.len() + 1,
            final(name)@.last()@ == "Esq."@,
            forall|i: int| 0 <= i < old(name)@.len() ==> final(name)@[i] == old(name)@[i],
            r@ == joined(final(name)@.map_values(|part: String| part@)),
    {
        name.push(String::from_str("Esq."));
        let ghost parts = name@.map_values(|part: String| part@);
        let mut full = String::new();
        let mut k: usize = 0;
        while k < name.len()
            invariant
                k <= name@.len(),
                name@.len() >= 1,
                parts == name@.map_values(|part: String| part@),
                full@ == joined(parts.subrange(0, k as int)),
            decreases name@.len() - k,
        {
            if k > 0 {
                full.append(" ");
            }
            full.append(name[k].as_str());
            proof {
                assert(parts.subrange(0, k + 1).drop_last() =~= parts.subrange(0, k as int));
                assert(parts.subrange(0, k + 1).last() == parts[k as int]);
            }
            k = k + 1;
        }
        proof {
            assert(parts.subrange(0, parts.len() as int) =~= parts);
        }
        full
    }
}

/// Notes on the slice type.
#[derive(Debug)]
pub struct SliceType {}

impl SliceType {
    /// Where the first word of a byte string ends: the index of the first
    /// space, or the whole length when there is none.
    pub fn first_word_end(s: &Vec<u8>) -> (r: usize)
        ensures
            r <= s@.len(),
            forall|i: int| 0 <= i < r ==> s@[i] != 32u8,
            r < s@.len() ==> s@[r as int] == 32u8,
    {
        let mut k: usize = 0;
        while k < s.len()
            invariant
                k <= s@.len(),
                forall|i: int| 0 <= i < k ==> s@[i] != 32u8,
            decreases s@.len() - k,
        {
            if s[k] == 32u8 {
                return k;
            }
            k = k + 1;
        }
        k
    }
}

} // verus!
