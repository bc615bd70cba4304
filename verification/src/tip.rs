//! Tipping: creating users, setting their allowances, and the two
//! transactions (tip and anti-tip) with the tip record each one leaves.

use vstd::prelude::*;
use crate::models::{Tip, User};

verus! {

/// The outcome of a tip or anti-tip transaction.
#[derive(Clone, Copy, Debug, PartialEq, Eq, Structural)]
pub enum TipState {
    /// The transaction went through and left this tip record.
    Accepted(Tip),
    /// A user tried to tip themself.
    SameId,
    /// The giver has no tips of that kind left, or (for an anti-tip) the
    /// receiver's net score is zero.
    NoTips,
}

// ---------------------------------------------------------------- users

/// A new user: the given id and every counter at zero.
pub open spec fn spec_create_user(provided_id: i64) -> User {
    User {
        id: #[verifier::truncate] (provided_id as u64),
        lifetime_gross: 0,
        lifetime_net: 0,
        week_gross: 0,
        week_net: 0,
        tips: 0,
        tips_given: 0,
        anti_tips: 0,
        anti_tips_given: 0,
    }
}

/// The row to store for a new user with id `provided_id` (an id read as a
/// signed integer is stored with the same bits).
pub fn create_user(provided_id: i64) -> (u: User)
    ensures
        u == spec_create_user(provided_id),
{
    User {
        id: #[verifier::truncate] (provided_id as u64),
        lifetime_gross: 0,
        lifetime_net: 0,
        week_gross: 0,
        week_net: 0,
        tips: 0,
        tips_given: 0,
        anti_tips: 0,
        anti_tips_given: 0,
    }
}

/// Whether an allowance update for `provided_id` reaches `u`: the id `-1`
/// stands for every user; any other id reaches the user stored with the
/// same bits.
pub open spec fn is_target(u: User, provided_id: i64) -> bool {
    provided_id == -1 || u.id == #[verifier::truncate] (provided_id as u64)
}

/// The users after their tip allowance is set to `new_tips`.
pub open spec fn spec_set_tips(users: Seq<User>, provided_id: i64, new_tips: i32) -> Seq<User> {
    users.map_values(
        |u: User|
            if is_target(u, provided_id) {
                User { tips: new_tips, ..u }
            } else {
                u
            },
    )
}

/// The users after their anti-tip allowance is set to `new_tips`.
pub open spec fn spec_set_anti_tips(users: Seq<User>, provided_id: i64, new_tips: i32) -> Seq<
    User,
> {
    users.map_values(
        |u: User|
            if is_target(u, provided_id) {
                User { anti_tips: new_tips, ..u }
            } else {
                u
            },
    )
}

fn targets(u: &User, provided_id: i64) -> (r: bool)
    ensures
        r == is_target(*u, provided_id),
{
    provided_id == -1 || u.id == #[verifier::truncate] (provided_id as u64)
}

/// Sets the tip allowance of user `provided_id`, or of every user when it
/// is `-1`.
pub fn set_tips(users: &mut Vec<User>, provided_id: i64, new_tips: i32)
    ensures
        final(users)@ == spec_set_tips(old(users)@, provided_id, new_tips),
{
    let n = users.len();
    let mut i: usize = 0;
    while i < n
        invariant
            n == old(users)@.len(),
            users@.len() == n,
            0 <= i <= n,
            forall|j: int|
                0 <= j < i ==> #[trigger] users@[j] == spec_set_tips(old(users)@, provided_id, new_tips)[j],
            forall|j: int| i <= j < n ==> #[trigger] users@[j] == old(users)@[j],
        decreases n - i,
    {
        let u = users[i];
        if targets(&u, provided_id) {
            users.set(i, User { tips: new_tips, ..u });
        }
        i = i + 1;
    }
    assert(users@ =~= spec_set_tips(old(users)@, provided_id, new_tips));
}

/// Sets the anti-tip allowance of user `provided_id`, or of every user when
/// it is `-1`.
pub fn set_anti_tips(users: &mut Vec<User>, provided_id: i64, new_tips: i32)
    ensures
        final(users)@ == spec_set_anti_tips(old(users)@, provided_id, new_tips),
{
    let n = users.len();
    let mut i: usize = 0;
    while i < n
        invariant
            n == old(users)@.len(),
            users@.len() == n,
            0 <= i <= n,
            forall|j: int|
                0 <= j < i ==> #[trigger] users@[j] == spec_set_anti_tips(
                    old(users)@,
                    provided_id,
                    new_tips,
                )[j],
            forall|j: int| i <= j < n ==> #[trigger] users@[j] == old(users)@[j],
        decreases n - i,
    {
        let u = users[i];
        if targets(&u, provided_id) {
            users.set(i, User { anti_tips: new_tips, ..u });
        }
        i = i + 1;
    }
    assert(users@ =~= spec_set_anti_tips(old(users)@, provided_id, new_tips));
}

// ---------------------------------------------------------------- tip records

/// The largest id among `ids` that is not `0`, if there is one.
pub open spec fn max_nonzero(ids: Seq<i32>) -> Option<int>
    decreases ids.len(),
{
    if ids.len() == 0 {
        None
    } else {
        let x = ids.last() as int;
        let m = max_nonzero(ids.drop_last());
        if x == 0 {
            m
        } else {
            match m {
                None => Some(x),
                Some(y) => Some(if x > y { x } else { y }),
            }
        }
    }
}

/// The id of the next tip: one more than the largest stored id other than
/// `0`, or `1` when there is none.
pub open spec fn spec_next_tip_id(ids: Seq<i32>) -> int {
    match max_nonzero(ids) {
        None => 1,
        Some(m) => m + 1,
    }
}

proof fn lemma_max_nonzero(ids: Seq<i32>)
    ensures
        match max_nonzero(ids) {
            None => forall|i: int| 0 <= i < ids.len() ==> ids[i] == 0,
            Some(m) => (exists|i: int| 0 <= i < ids.len() && ids[i] != 0 && ids[i] == m) && (forall|
                i: int,
            | 0 <= i < ids.len() && ids[i] != 0 ==> ids[i] <= m),
        },
    decreases ids.len(),
{
    if ids.len() > 0 {
        let p = ids.drop_last();
        lemma_max_nonzero(p);
        assert forall|i: int| 0 <= i < ids.len() - 1 implies ids[i] == p[i] by {}
        match max_nonzero(p) {
            Some(m) => {
                let i = choose|i: int| 0 <= i < p.len() && p[i] != 0 && p[i] == m;
                assert(ids[i] == p[i]);
            },
            None => {},
        }
    }
}

/// Every stored id other than `0` is below the next tip id.
pub proof fn lemma_next_tip_id_is_fresh(ids: Seq<i32>)
    ensures
        forall|i: int| 0 <= i < ids.len() && ids[i] != 0 ==> ids[i] < spec_next_tip_id(ids),
{
    lemma_max_nonzero(ids);
}

/// The largest stored tip id other than `0`, if there is one.
fn max_nonzero_id(ids: &Vec<i32>) -> (r: Option<i32>)
    ensures
        match r {
            None => max_nonzero(ids@) is None,
            Some(b) => max_nonzero(ids@) == Some(b as int),
        },
{
    let mut best: Option<i32> = None;
    let mut i: usize = 0;
    while i < ids.len()
        invariant
            0 <= i <= ids@.len(),
            match best {
                None => max_nonzero(ids@.take(i as int)) is None,
                Some(b) => max_nonzero(ids@.take(i as int)) == Some(b as int),
            },
        decreases ids@.len() - i,
    {
        assert(ids@.take(i + 1).drop_last() =~= ids@.take(i as int));
        let x = ids[i];
        if x != 0 {
            best = match best {
                None => Some(x),
                Some(b) => Some(if x > b { x } else { b }),
            };
        }
        i = i + 1;
    }
    assert(ids@.take(ids@.len() as int) =~= ids@);
    best
}

/// Whether the next tip id is still an `i32`.
pub fn next_tip_id_fits(ids: &Vec<i32>) -> (r: bool)
    ensures
        r == (spec_next_tip_id(ids@) <= i32::MAX),
{
    match max_nonzero_id(ids) {
        None => true,
        Some(b) => b < i32::MAX,
    }
}

/// The next tip id is `1` when no stored id is other than `0`, and one
/// more than some stored non-zero id otherwise.
pub proof fn lemma_next_tip_id_characterized(ids: Seq<i32>)
    ensures
        (forall|i: int| 0 <= i < ids.len() ==> ids[i] == 0) ==> spec_next_tip_id(ids) == 1,
        (exists|i: int| 0 <= i < ids.len() && ids[i] != 0) ==> (exists|i: int|
            0 <= i < ids.len() && ids[i] != 0 && ids[i] + 1 == spec_next_tip_id(ids)),
        forall|i: int| 0 <= i < ids.len() && ids[i] != 0 ==> ids[i] < spec_next_tip_id(ids),
{
    lemma_max_nonzero(ids);
}

/// The id for a new tip, given the ids of the stored tips.
pub fn next_tip_id(ids: &Vec<i32>) -> (r: i32)
    requires
        spec_next_tip_id(ids@) <= i32::MAX,
    ensures
        r == spec_next_tip_id(ids@),
        forall|i: int| 0 <= i < ids@.len() && ids@[i] != 0 ==> ids@[i] < r,
{
    proof {
        lemma_next_tip_id_is_fresh(ids@);
    }
    match max_nonzero_id(ids) {
        None => 1,
        Some(b) => b + 1,
    }
}

/// The record of a tip from `from` to `to` at `time`.
pub open spec fn spec_create_tip(ids: Seq<i32>, from: User, to: User, time: u64, is_anti: bool) -> Tip {
    Tip {
        id: spec_next_tip_id(ids) as i32,
        user_from: from.id,
        user_to: to.id,
        time: time,
        anti: is_anti,
    }
}

/// Builds the record of a tip from `from` to `to`, numbered after the
/// stored tips whose ids are `ids`; `time` is the current Unix time.
pub fn create_tip(ids: &Vec<i32>, from: &User, to: &User, time: u64, is_anti: bool) -> (t: Tip)
    requires
        spec_next_tip_id(ids@) <= i32::MAX,
    ensures
        t == spec_create_tip(ids@, *from, *to, time, is_anti),
{
    let id = next_tip_id(ids);
    Tip { id, user_from: from.id, user_to: to.id, time, anti: is_anti }
}

// ---------------------------------------------------------------- transactions

/// Why a tip from `from` to `to` is refused, if it is.
pub open spec fn tip_refusal(from: User, to: User) -> Option<TipState> {
    if from.id == to.id {
        Some(TipState::SameId)
    } else if from.tips < 1 {
        Some(TipState::NoTips)
    } else {
        None
    }
}

/// The giver after a tip: one tip fewer, one more tip given.
pub open spec fn tip_giver(u: User) -> User {
    User { tips: (u.tips - 1) as i32, tips_given: (u.tips_given + 1) as u32, ..u }
}

/// The receiver after a tip: each score, gross and net, lifetime and
/// weekly, one higher.
pub open spec fn tip_receiver(u: User) -> User {
    User {
        lifetime_gross: (u.lifetime_gross + 1) as i32,
        lifetime_net: (u.lifetime_net + 1) as i32,
        week_gross: (u.week_gross + 1) as i8,
        week_net: (u.week_net + 1) as i8,
        ..u
    }
}

/// The user counters that an accepted tip raises stay within their types.
pub open spec fn tip_counters_fit(from: User, to: User) -> bool {
    &&& from.tips_given < u32::MAX
    &&& to.lifetime_gross < i32::MAX
    &&& to.lifetime_net < i32::MAX
    &&& to.week_gross < i8::MAX
    &&& to.week_net < i8::MAX
}

/// Everything that an accepted tip raises, the new tip id included, stays
/// within its type.
pub open spec fn tip_fits(from: User, to: User, ids: Seq<i32>) -> bool {
    &&& tip_counters_fit(from, to)
    &&& spec_next_tip_id(ids) <= i32::MAX
}

/// A tip from `from` to `to`: the outcome, then the giver and the receiver
/// as they are afterwards.
pub open spec fn spec_transact_tip(from: User, to: User, ids: Seq<i32>, time: u64) -> (
    TipState,
    User,
    User,
) {
    match tip_refusal(from, to) {
        Some(s) => (s, from, to),
        None => (
            TipState::Accepted(spec_create_tip(ids, from, to, time, false)),
            tip_giver(from),
            tip_receiver(to),
        ),
    }
}

/// Why an anti-tip from `from` to `to` is refused, if it is.
pub open spec fn anti_tip_refusal(from: User, to: User) -> Option<TipState> {
    if from.id == to.id {
        Some(TipState::SameId)
    } else if from.anti_tips < 1 {
        Some(TipState::NoTips)
    } else if to.lifetime_net == 0 {
        Some(TipState::NoTips)
    } else if to.week_net == 0 {
        Some(TipState::NoTips)
    } else {
        None
    }
}

/// The giver after an anti-tip: one anti-tip fewer, one more given.
pub open spec fn anti_tip_giver(u: User) -> User {
    User {
        anti_tips: (u.anti_tips - 1) as i32,
        anti_tips_given: (u.anti_tips_given + 1) as u32,
        ..u
    }
}

/// The receiver after an anti-tip: both net scores one lower, the gross
/// scores untouched.
pub open spec fn anti_tip_receiver(u: User) -> User {
    User { lifetime_net: (u.lifetime_net - 1) as i32, week_net: (u.week_net - 1) as i8, ..u }
}

/// The user counters that an accepted anti-tip moves stay within their
/// types.
pub open spec fn anti_tip_counters_fit(from: User, to: User) -> bool {
    &&& from.anti_tips_given < u32::MAX
    &&& to.lifetime_net > i32::MIN
    &&& to.week_net > i8::MIN
}

/// Everything that an accepted anti-tip moves, the new tip id included,
/// stays within its type.
pub open spec fn anti_tip_fits(from: User, to: User, ids: Seq<i32>) -> bool {
    &&& anti_tip_counters_fit(from, to)
    &&& spec_next_tip_id(ids) <= i32::MAX
}

/// An anti-tip from `from` to `to`: the outcome, then the giver and the
/// receiver as they are afterwards.
pub open spec fn spec_transact_anti_tip(from: User, to: User, ids: Seq<i32>, time: u64) -> (
    TipState,
    User,
    User,
) {
    match anti_tip_refusal(from, to) {
        Some(s) => (s, from, to),
        None => (
            TipState::Accepted(spec_create_tip(ids, from, to, time, true)),
            anti_tip_giver(from),
            anti_tip_receiver(to),
        ),
    }
}

/// Whether a tip from `from` to `to` keeps every counter it moves within
/// its type (a refused tip moves none).
pub fn tip_within_limits(from: &User, to: &User, ids: &Vec<i32>) -> (r: bool)
    ensures
        r == (tip_refusal(*from, *to) is None ==> tip_fits(*from, *to, ids@)),
{
    if from.id == to.id || from.tips < 1 {
        return true;
    }
    from.tips_given < u32::MAX && to.lifetime_gross < i32::MAX && to.lifetime_net < i32::MAX
        && to.week_gross < i8::MAX && to.week_net < i8::MAX && next_tip_id_fits(ids)
}

/// Whether an anti-tip from `from` to `to` keeps every counter it moves
/// within its type (a refused anti-tip moves none).
pub fn anti_tip_within_limits(from: &User, to: &User, ids: &Vec<i32>) -> (r: bool)
    ensures
        r == (anti_tip_refusal(*from, *to) is None ==> anti_tip_fits(*from, *to, ids@)),
{
    if from.id == to.id || from.anti_tips < 1 || to.lifetime_net == 0 || to.week_net == 0 {
        return true;
    }
    from.anti_tips_given < u32::MAX && to.lifetime_net > i32::MIN && to.week_net > i8::MIN
        && next_tip_id_fits(ids)
}

/// `from` tips `to`. A refused tip changes neither user; an accepted one
/// moves one tip from the giver's allowance to the receiver's scores and
/// returns the new tip record, numbered after the stored tips `ids`.
pub fn transact_tip(from: &mut User, to: &mut User, ids: &Vec<i32>, time: u64) -> (r: TipState)
    requires
        tip_refusal(*old(from), *old(to)) is None ==> tip_fits(*old(from), *old(to), ids@),
    ensures
        (r, *final(from), *final(to)) == spec_transact_tip(*old(from), *old(to), ids@, time),
{
    if from.id == to.id {
        return TipState::SameId;
    }
    if from.tips < 1 {
        return TipState::NoTips;
    }
    from.tips = from.tips - 1;
    from.tips_given = from.tips_given + 1;

    to.lifetime_gross = to.lifetime_gross + 1;
    to.lifetime_net = to.lifetime_net + 1;
    to.week_gross = to.week_gross + 1;
    to.week_net = to.week_net + 1;

    TipState::Accepted(create_tip(ids, from, to, time, false))
}

/// `from` anti-tips `to`. A refused anti-tip changes neither user; an
/// accepted one spends one of the giver's anti-tips and lowers the
/// receiver's net scores, and returns the new tip record.
pub fn transact_anti_tip(from: &mut User, to: &mut User, ids: &Vec<i32>, time: u64) -> (r: TipState)
    requires
        anti_tip_refusal(*old(from), *old(to)) is None ==> anti_tip_fits(*old(from), *old(to), ids@),
    ensures
        (r, *final(from), *final(to)) == spec_transact_anti_tip(*old(from), *old(to), ids@, time),
{
    if from.id == to.id {
        return TipState::SameId;
    }
    if from.anti_tips < 1 {
        return TipState::NoTips;
    }
    if to.lifetime_net == 0 {
        return TipState::NoTips;
    }
    if to.week_net == 0 {
        return TipState::NoTips;
    }
    from.anti_tips = from.anti_tips - 1;
    from.anti_tips_given = from.anti_tips_given + 1;

    to.lifetime_net = to.lifetime_net - 1;
    to.week_net = to.week_net - 1;

    TipState::Accepted(create_tip(ids, from, to, time, true))
}

/// What the store must write after a transaction: both users as they now
/// are, and the new tip record.
#[derive(Clone, Copy, Debug, PartialEq, Eq, Structural)]
pub struct TipWrites {
    pub giver: User,
    pub receiver: User,
    pub tip: Tip,
}

/// An accepted transaction writes the giver, the receiver and the new
/// record; a refused one writes nothing.
pub open spec fn spec_tip_writes(state: TipState, from: User, to: User) -> Option<TipWrites> {
    match state {
        TipState::Accepted(tip) => Some(TipWrites { giver: from, receiver: to, tip }),
        _ => None,
    }
}

/// The writes to make after a transaction whose outcome is `state` and
/// whose users are now `from` and `to`.
pub fn tip_writes(state: TipState, from: User, to: User) -> (r: Option<TipWrites>)
    ensures
        r == spec_tip_writes(state, from, to),
{
    match state {
        TipState::Accepted(tip) => Some(TipWrites { giver: from, receiver: to, tip }),
        _ => None,
    }
}

} // verus!
