//! Notes on defining enums and driving control flow with `match`.

use vstd::prelude::*;
use vstd::string::StringExecFns;

verus! {

/// Notes on defining an enum.
#[derive(Debug)]
pub struct DefineEnum {}

/// An address is one of two kinds, each variant carrying its own data.
#[derive(Debug)]
pub enum IpAddr {
    V4(u8, u8, u8, u8),
    V6(String),
}

impl DefineEnum {
    /// The home address, as four octets.
    pub fn home() -> (r: IpAddr)
        ensures
            r == IpAddr::V4(127u8, 0u8, 0u8, 1u8),
    {
        IpAddr::V4(127, 0, 0, 1)
    }

    /// The loopback address, in textual form.
    pub fn loopback() -> (r: IpAddr)
        ensures
            r matches IpAddr::V6(s) && s@ == "::1"@,
    {
        IpAddr::V6(String::from_str("::1"))
    }
}

/// Notes on the `match` control-flow construct.
#[derive(Debug)]
pub struct MatchControlFlow {}

/// A state a quarter may commemorate.
#[derive(Debug, Clone, Copy, PartialEq, Eq, Structural)]
pub enum UsState {
    Alabama,
    Alaska,
}

/// A coin; the quarter variant binds the state it shows.
#[derive(Debug, Clone, Copy, PartialEq, Eq, Structural)]
pub enum Coin {
    Penny,
    Nickel,
    Dime,
    Quarter(UsState),
}

/// The value of a coin in cents.
pub open spec fn coin_value(c: Coin) -> int {
    match c {
        Coin::Penny => 1,
        Coin::Nickel => 5,
        Coin::Dime => 10,
        Coin::Quarter(_) => 25,
    }
}

impl MatchControlFlow {
    /// Each coin's value in cents, one `match` arm per variant.
    pub fn value_in_cents(coin: Coin) -> (r: u8)
        ensures
            r == coin_value(coin),
    {
        match coin {
            Coin::Penny => 1,
            Coin::Nickel => 5,
            Coin::Dime => 10,
            Coin::Quarter(_) => 25,
        }
    }

    /// Adds one inside the `Some`, passing `None` through.
    pub fn plus_one(x: Option<i32>) -> (r: Option<i32>)
        requires
            x matches Some(i) ==> i < i32::MAX,
        ensures
            x matches Some(i) ==> r == Some((i + 1) as i32),
            x is None ==> r is None,
    {
        match x {
            None => None,
            Some(i) => Some(i + 1),
        }
    }

    /// Counts every coin that is not a quarter, the two-arm `match` that
    /// `if let` abbreviates.
    pub fn match_coin(coin: &Coin, count: &mut i32)
        requires
            !(*coin matches Coin::Quarter(_)) ==> *old(count) < i32::MAX,
        ensures
            *coin matches Coin::Quarter(_) ==> *final(count) == *old(count),
            !(*coin matches Coin::Quarter(_)) ==> *final(count) == *old(count) + 1,
    {
        match coin {
            Coin::Quarter(_) => {},
            _ => {
                *count = *count + 1;
            },
        }
    }
}

} // verus!
