//! Notes on generics, traits and lifetimes.

use vstd::prelude::*;
use vstd::string::StringSliceAdditionalSpecFns;

verus! {

/// Notes on generic data types.
#[derive(Debug)]
pub struct Generics {}

/// A pair of coordinates of one type, the worked generic struct.
#[derive(Debug)]
pub struct GenPoint<T> {
    pub x: T,
    pub y: T,
}

impl<T> GenPoint<T> {
    /// The first coordinate.
    pub fn x(&self) -> (r: &T)
        ensures
            *r == self.x,
    {
        &self.x
    }
}

impl Generics {
    /// The largest element of a non-empty list.
    pub fn largest(list: &Vec<i32>) -> (r: i32)
        requires
            list@.len() > 0,
        ensures
            forall|i: int| 0 <= i < list@.len() ==> list@[i] <= r,
            list@.contains(r),
    {
        let mut largest: i32 = list[0];
        let mut k: usize = 1;
        while k < list.len()
            invariant
                1 <= k <= list@.len(),
                forall|i: int| 0 <= i < k ==> list@[i] <= largest,
                list@.contains(largest),
            decreases list@.len() - k,
        {
            if list[k] > largest {
                largest = list[k];
            }
            k = k + 1;
        }
        largest
    }
}

/// Notes on traits as shared behaviour.
#[derive(Debug)]
pub struct Traits {}

/// Shared behaviour: anything that can summarize itself. Each implementor
/// says in `summary_spec` what its summary is, and `summarize` is bound to
/// produce exactly that.
pub trait Summary {
    /// The summary this value owes.
    spec fn summary_spec(&self) -> Seq<char>;

    /// Produces the summary.
    fn summarize(&self) -> (r: String)
        ensures
            r@ == self.summary_spec(),
    ;
}

/// A tweet, summarized as author and content.
pub struct Tweet {
    pub username: String,
    pub content: String,
    pub reply: bool,
    pub retweet: bool,
}

impl Summary for Tweet {
    open spec fn summary_spec(&self) -> Seq<char> {
        self.username@ + ": "@ + self.content@
    }

    fn summarize(&self) -> (r: String) {
        let mut s = String::new();
        s.append(self.username.as_str());
        s.append(": ");
        s.append(self.content.as_str());
        proof {
            assert(s@ =~= self.summary_spec());
        }
        s
    }
}

/// A news article, summarized as headline, author and location.
pub struct NewsArticle {
    pub headline: String,
    pub location: String,
    pub author: String,
    pub content: String,
}

impl Summary for NewsArticle {
    open spec fn summary_spec(&self) -> Seq<char> {
        self.headline@ + ", by "@ + self.author@ + " ("@ + self.location@ + ")"@
    }

    fn summarize(&self) -> (r: String) {
        let mut s = String::new();
        s.append(self.headline.as_str());
        s.append(", by ");
        s.append(self.author.as_str());
        s.append(" (");
        s.append(self.location.as_str());
        s.append(")");
        proof {
            assert(s@ =~= self.summary_spec());
        }
        s
    }
}

impl Traits {
    /// A trait as a parameter: any summarizable item can be announced.
    pub fn notify<T: Summary>(item: &T) -> (r: String)
        ensures
            r@ == "Breaking news! "@ + item.summary_spec(),
    {
        let mut s = String::new();
        s.append("Breaking news! ");
        let summary = item.summarize();
        s.append(summary.as_str());
        proof {
            assert(s@ =~= "Breaking news! "@ + item.summary_spec());
        }
        s
    }
}

/// Notes on validating references with lifetimes.
#[derive(Debug)]
pub struct Lifetimes {}

impl Lifetimes {
    /// The longer of two string slices, by byte length; the shared lifetime
    /// ties the result to both inputs.
    pub fn longest<'a>(x: &'a str, y: &'a str) -> (r: &'a str)
        ensures
            x.spec_bytes().len() as usize > y.spec_bytes().len() as usize ==> r@ == x@,
            x.spec_bytes().len() as usize <= y.spec_bytes().len() as usize ==> r@ == y@,
    {
        if x.len() > y.len() {
            x
        } else {
            y
        }
    }
}

} // verus!
