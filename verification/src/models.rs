//! The rows the service stores: users, tips and API keys.

use vstd::prelude::*;

verus! {

/// A user's standing in the tipping game. The allowances `tips` and
/// `anti_tips` are the 32-bit values that the store holds.
#[derive(Clone, Copy, Debug, PartialEq, Eq, Structural)]
pub struct User {
    pub id: u64,
    pub lifetime_gross: i32,
    pub lifetime_net: i32,
    pub week_gross: i8,
    pub week_net: i8,
    pub tips: i32,
    pub tips_given: u32,
    pub anti_tips: i32,
    pub anti_tips_given: u32,
}

/// One tip (or anti-tip) given by `user_from` to `user_to` at `time`
/// (seconds since the Unix epoch).
#[derive(Clone, Copy, Debug, PartialEq, Eq, Structural)]
pub struct Tip {
    pub id: i32,
    pub user_from: u64,
    pub user_to: u64,
    pub time: u64,
    pub anti: bool,
}

/// An API key that authorizes the write endpoints.
#[derive(Clone, Copy, Debug, PartialEq, Eq, Structural)]
pub struct Key {
    pub key: i64,
}

} // verus!
