//! Properties of the tipping rules that span several operations.

use vstd::prelude::*;
use crate::models::{Tip, User};
use crate::keys::{key_pattern, spec_key_check, KeyCheck, KeyState};
use crate::number::{
    all_digits, digit_value, digits_value, is_digit, spec_parse_i64, spec_parse_u16, IdError,
};
use crate::pattern::regex_capture;
use crate::tip::{
    anti_tip_counters_fit, is_target, lemma_next_tip_id_is_fresh, spec_create_tip,
    spec_create_user, spec_next_tip_id, spec_set_anti_tips, spec_set_tips, spec_tip_writes,
    spec_transact_anti_tip, spec_transact_tip, tip_counters_fit, TipState,
};

verus! {

/// A user who has just been created has no tips and no anti-tips, so
/// every tip and every anti-tip they attempt is refused: as `SameId` when
/// aimed at themself, and as `NoTips` otherwise.
pub proof fn fresh_user_cannot_tip(provided_id: i64, to: User, ids: Seq<i32>, time: u64)
    ensures
        spec_transact_tip(spec_create_user(provided_id), to, ids, time).0 == (if to.id
            == spec_create_user(provided_id).id {
            TipState::SameId
        } else {
            TipState::NoTips
        }),
        spec_transact_anti_tip(spec_create_user(provided_id), to, ids, time).0 == (if to.id
            == spec_create_user(provided_id).id {
            TipState::SameId
        } else {
            TipState::NoTips
        }),
{
}

/// Setting the tip allowance of the user created with an id reaches that
/// user, whatever the id (`-1` reaching everybody).
pub proof fn set_tips_reaches_created_user(provided_id: i64, others: Seq<User>, new_tips: i32)
    ensures
        spec_set_tips(others.push(spec_create_user(provided_id)), provided_id, new_tips).last().tips
            == new_tips,
{
    assert(is_target(spec_create_user(provided_id), provided_id));
}

/// Once a user's tip allowance has been set to a positive amount, that
/// user's tip to anyone else goes through.
pub proof fn set_tips_enables_tip(
    users: Seq<User>,
    i: int,
    provided_id: i64,
    new_tips: i32,
    to: User,
    ids: Seq<i32>,
    time: u64,
)
    requires
        0 <= i < users.len(),
        is_target(users[i], provided_id),
        new_tips >= 1,
        to.id != users[i].id,
    ensures
        spec_transact_tip(spec_set_tips(users, provided_id, new_tips)[i], to, ids, time).0
            is Accepted,
{
}

/// Setting the tip allowance stores the given amount, touches no other
/// counter and no user outside the target.
pub proof fn set_tips_touches_only_the_allowance(users: Seq<User>, provided_id: i64, new_tips: i32)
    ensures
        spec_set_tips(users, provided_id, new_tips).len() == users.len(),
        forall|i: int|
            0 <= i < users.len() ==> (#[trigger] spec_set_tips(users, provided_id, new_tips)[i])
                == (if is_target(users[i], provided_id) {
                User { tips: new_tips, ..users[i] }
            } else {
                users[i]
            }),
{
}

/// An accepted tip keeps the giver's tips in hand plus tips given
/// constant, leaves the giver's anti-tips and the receiver's allowances
/// alone, raises the receiver's gross and net scores alike (so gross minus
/// net, lifetime and weekly, is unchanged); a refused one changes nobody.
pub proof fn tip_conserves_tips(from: User, to: User, ids: Seq<i32>, time: u64)
    requires
        tip_counters_fit(from, to),
    ensures
        ({
            let (r, f, t) = spec_transact_tip(from, to, ids, time);
            &&& r is Accepted ==> f.tips + f.tips_given == from.tips + from.tips_given
            &&& r is Accepted ==> f.anti_tips == from.anti_tips && t.tips == to.tips && t.anti_tips
                == to.anti_tips
            &&& r is Accepted ==> t.lifetime_gross - t.lifetime_net == to.lifetime_gross
                - to.lifetime_net
            &&& r is Accepted ==> t.week_gross - t.week_net == to.week_gross - to.week_net
            &&& r is Accepted ==> t.lifetime_gross == to.lifetime_gross + 1
            &&& !(r is Accepted) ==> f == from && t == to
        }),
{
}

/// An accepted anti-tip keeps the giver's anti-tips in hand plus anti-tips
/// given constant, leaves the giver's tips alone, leaves the receiver's
/// gross scores alone and lowers the net ones by one; a refused one changes
/// nobody.
pub proof fn anti_tip_conserves_tips(from: User, to: User, ids: Seq<i32>, time: u64)
    requires
        anti_tip_counters_fit(from, to),
    ensures
        ({
            let (r, f, t) = spec_transact_anti_tip(from, to, ids, time);
            &&& r is Accepted ==> f.anti_tips + f.anti_tips_given == from.anti_tips
                + from.anti_tips_given
            &&& r is Accepted ==> f.tips == from.tips && f.tips_given == from.tips_given
            &&& r is Accepted ==> t.lifetime_gross == to.lifetime_gross && t.week_gross
                == to.week_gross
            &&& r is Accepted ==> t.lifetime_net == to.lifetime_net - 1 && t.week_net == to.week_net
                - 1
            &&& !(r is Accepted) ==> f == from && t == to
        }),
{
}

/// An anti-tip never drives a net score below zero nor above the gross
/// score: a receiver whose net scores are non-negative and whose lifetime
/// net is at most the lifetime gross keeps all of that.
pub proof fn anti_tip_keeps_net_in_bounds(from: User, to: User, ids: Seq<i32>, time: u64)
    requires
        from.anti_tips_given < u32::MAX,
        to.lifetime_net >= 0,
        to.week_net >= 0,
        to.lifetime_net <= to.lifetime_gross,
    ensures
        ({
            let (r, f, t) = spec_transact_anti_tip(from, to, ids, time);
            &&& t.lifetime_net >= 0
            &&& t.week_net >= 0
            &&& t.lifetime_net <= t.lifetime_gross
            &&& t.lifetime_gross == to.lifetime_gross
            &&& t.week_gross == to.week_gross
            &&& f.anti_tips + f.anti_tips_given == from.anti_tips + from.anti_tips_given
            &&& f.tips == from.tips && f.tips_given == from.tips_given
        }),
{
}

/// An anti-tip from a third user cancels the net effect of a tip: after
/// `a` tips `b` and then `c` anti-tips `b`, `b`'s net scores are back where
/// they were, while the gross scores keep the tip.
pub proof fn anti_tip_undoes_tip_net(
    a: User,
    b: User,
    c: User,
    ids1: Seq<i32>,
    time1: u64,
    ids2: Seq<i32>,
    time2: u64,
)
    requires
        a.id != b.id,
        a.tips >= 1,
        tip_counters_fit(a, b),
        c.id != b.id,
        c.anti_tips >= 1,
        b.lifetime_net != -1,
        b.week_net != -1,
    ensures
        ({
            let (r1, a1, b1) = spec_transact_tip(a, b, ids1, time1);
            let (r2, c2, b2) = spec_transact_anti_tip(c, b1, ids2, time2);
            &&& r1 is Accepted
            &&& r2 is Accepted
            &&& b2.lifetime_net == b.lifetime_net
            &&& b2.week_net == b.week_net
            &&& b2.lifetime_gross == b.lifetime_gross + 1
            &&& b2.week_gross == b.week_gross + 1
        }),
{
}

/// Every tip record gets an id above the ids already stored (other than
/// `0`), so no two stored tips share an id.
pub proof fn tip_ids_are_fresh(ids: Seq<i32>, from: User, to: User, time: u64, is_anti: bool)
    requires
        spec_next_tip_id(ids) <= i32::MAX,
    ensures
        forall|i: int|
            0 <= i < ids.len() && ids[i] != 0 ==> ids[i] < spec_create_tip(
                ids,
                from,
                to,
                time,
                is_anti,
            ).id,
{
    lemma_next_tip_id_is_fresh(ids);
}

/// An accepted tip writes back exactly its giver and receiver as the
/// transaction left them, and adds one record to the stored tips: when the
/// ids it was numbered after cover every stored key (none of them `0`), the
/// new id is not yet a key, so the table grows by exactly that record and
/// keeps every other one.
pub proof fn accepted_tip_adds_one_record(
    tips: Map<i32, Tip>,
    ids: Seq<i32>,
    from: User,
    to: User,
    time: u64,
)
    requires
        forall|k: i32| #[trigger] tips.dom().contains(k) ==> ids.contains(k),
        !tips.dom().contains(0),
        spec_next_tip_id(ids) <= i32::MAX,
    ensures
        ({
            let (r, f, t) = spec_transact_tip(from, to, ids, time);
            r is Accepted ==> ({
                let w = spec_tip_writes(r, f, t)->Some_0;
                &&& spec_tip_writes(r, f, t) is Some
                &&& w.giver == f && w.receiver == t
                &&& !tips.dom().contains(w.tip.id)
                &&& tips.insert(w.tip.id, w.tip).dom() == tips.dom().insert(w.tip.id)
                &&& forall|k: i32| #[trigger] tips.dom().contains(k) ==> tips.insert(w.tip.id, w.tip)[k]
                    == tips[k]
            })
        }),
{
    lemma_next_tip_id_is_fresh(ids);
    let (r, f, t) = spec_transact_tip(from, to, ids, time);
    if r is Accepted {
        let w = spec_tip_writes(r, f, t)->Some_0;
        if tips.dom().contains(w.tip.id) {
            let i = choose|i: int| 0 <= i < ids.len() && ids[i] == w.tip.id;
            assert(ids[i] != 0);
        }
        assert(tips.insert(w.tip.id, w.tip).dom() =~= tips.dom().insert(w.tip.id));
    }
}

// ---------------------------------------------------------------- users

/// A new user carries the given id with the same bits and every counter
/// at zero.
pub proof fn created_user_is_blank(provided_id: i64)
    ensures
        spec_create_user(provided_id).id == #[verifier::truncate] (provided_id as u64),
        spec_create_user(provided_id).id as i64 == provided_id,
        spec_create_user(provided_id).lifetime_gross == 0,
        spec_create_user(provided_id).lifetime_net == 0,
        spec_create_user(provided_id).week_gross == 0,
        spec_create_user(provided_id).week_net == 0,
        spec_create_user(provided_id).tips == 0,
        spec_create_user(provided_id).tips_given == 0,
        spec_create_user(provided_id).anti_tips == 0,
        spec_create_user(provided_id).anti_tips_given == 0,
{
    assert(((#[verifier::truncate] (provided_id as u64)) as i64) == provided_id) by (bit_vector);
}

/// Setting the tip allowance of id `p` to `n` gives every user whose stored
/// id has the bits of `p` (every user, when `p` is `-1`) the allowance `n`,
/// changes nothing else of them, and leaves every other user as it was.
pub proof fn set_tips_effect(users: Seq<User>, p: i64, n: i32)
    ensures
        spec_set_tips(users, p, n).len() == users.len(),
        forall|i: int|
            0 <= i < users.len() ==> (#[trigger] spec_set_tips(users, p, n)[i]) == (if p == -1
                || users[i].id == #[verifier::truncate] (p as u64) {
                User {
                    id: users[i].id,
                    lifetime_gross: users[i].lifetime_gross,
                    lifetime_net: users[i].lifetime_net,
                    week_gross: users[i].week_gross,
                    week_net: users[i].week_net,
                    tips: n,
                    tips_given: users[i].tips_given,
                    anti_tips: users[i].anti_tips,
                    anti_tips_given: users[i].anti_tips_given,
                }
            } else {
                users[i]
            }),
{
}

/// Setting the anti-tip allowance of id `p` to `n` gives every user whose
/// stored id has the bits of `p` (every user, when `p` is `-1`) the
/// anti-tip allowance `n`, changes nothing else of them, and leaves every
/// other user as it was.
pub proof fn set_anti_tips_effect(users: Seq<User>, p: i64, n: i32)
    ensures
        spec_set_anti_tips(users, p, n).len() == users.len(),
        forall|i: int|
            0 <= i < users.len() ==> (#[trigger] spec_set_anti_tips(users, p, n)[i]) == (if p == -1
                || users[i].id == #[verifier::truncate] (p as u64) {
                User {
                    id: users[i].id,
                    lifetime_gross: users[i].lifetime_gross,
                    lifetime_net: users[i].lifetime_net,
                    week_gross: users[i].week_gross,
                    week_net: users[i].week_net,
                    tips: users[i].tips,
                    tips_given: users[i].tips_given,
                    anti_tips: n,
                    anti_tips_given: users[i].anti_tips_given,
                }
            } else {
                users[i]
            }),
{
}

/// Creating a user with id `p` and then setting allowances for `p` reaches
/// that user, for tips and for anti-tips alike.
pub proof fn allowances_reach_created_user(p: i64, others: Seq<User>, n: i32)
    ensures
        spec_set_tips(others.push(spec_create_user(p)), p, n).last().tips == n,
        spec_set_anti_tips(others.push(spec_create_user(p)), p, n).last().anti_tips == n,
{
    created_user_is_blank(p);
    set_tips_effect(others.push(spec_create_user(p)), p, n);
    set_anti_tips_effect(others.push(spec_create_user(p)), p, n);
    assert(spec_set_tips(others.push(spec_create_user(p)), p, n).last() == spec_set_tips(
        others.push(spec_create_user(p)),
        p,
        n,
    )[others.len() as int]);
    assert(spec_set_anti_tips(others.push(spec_create_user(p)), p, n).last()
        == spec_set_anti_tips(others.push(spec_create_user(p)), p, n)[others.len() as int]);
}

// ---------------------------------------------------------------- tip records

/// The next tip id is one more than the largest stored id other than `0`,
/// or `1` when every stored id is `0` (or none is stored).
pub proof fn next_tip_id_is_one_past_the_largest(ids: Seq<i32>)
    ensures
        (forall|i: int| 0 <= i < ids.len() ==> ids[i] == 0) ==> spec_next_tip_id(ids) == 1,
        (exists|i: int| 0 <= i < ids.len() && ids[i] != 0) ==> (exists|i: int|
            0 <= i < ids.len() && ids[i] != 0 && ids[i] + 1 == spec_next_tip_id(ids)),
        forall|i: int| 0 <= i < ids.len() && ids[i] != 0 ==> ids[i] < spec_next_tip_id(ids),
{
    crate::tip::lemma_next_tip_id_characterized(ids);
}

/// A tip record names its giver and receiver by their ids, carries the
/// given time and kind, and is numbered by the next tip id.
pub proof fn tip_record_names_the_pair(ids: Seq<i32>, from: User, to: User, time: u64, is_anti: bool)
    requires
        spec_next_tip_id(ids) <= i32::MAX,
    ensures
        spec_create_tip(ids, from, to, time, is_anti).user_from == from.id,
        spec_create_tip(ids, from, to, time, is_anti).user_to == to.id,
        spec_create_tip(ids, from, to, time, is_anti).time == time,
        spec_create_tip(ids, from, to, time, is_anti).anti == is_anti,
        spec_create_tip(ids, from, to, time, is_anti).id == spec_next_tip_id(ids),
{
    crate::tip::lemma_next_tip_id_characterized(ids);
}

// ---------------------------------------------------------------- transactions

/// What a tip does, field by field: it is refused as `SameId` exactly when
/// the two ids are equal, as `NoTips` exactly when they differ and the giver
/// has no tips left, and changes nobody then; otherwise the giver has one
/// tip fewer and one more given, the receiver's four scores are each one
/// higher, nothing else changes, and the record names the pair.
pub proof fn tip_effect(from: User, to: User, ids: Seq<i32>, time: u64)
    requires
        tip_counters_fit(from, to),
    ensures
        ({
            let (r, f, t) = spec_transact_tip(from, to, ids, time);
            &&& (r == TipState::SameId) <==> from.id == to.id
            &&& (r == TipState::NoTips) <==> (from.id != to.id && from.tips < 1)
            &&& (r is Accepted) <==> (from.id != to.id && from.tips >= 1)
            &&& !(r is Accepted) ==> f == from && t == to
            &&& r is Accepted ==> f == User {
                id: from.id,
                lifetime_gross: from.lifetime_gross,
                lifetime_net: from.lifetime_net,
                week_gross: from.week_gross,
                week_net: from.week_net,
                tips: (from.tips - 1) as i32,
                tips_given: (from.tips_given + 1) as u32,
                anti_tips: from.anti_tips,
                anti_tips_given: from.anti_tips_given,
            }
            &&& r is Accepted ==> t == User {
                id: to.id,
                lifetime_gross: (to.lifetime_gross + 1) as i32,
                lifetime_net: (to.lifetime_net + 1) as i32,
                week_gross: (to.week_gross + 1) as i8,
                week_net: (to.week_net + 1) as i8,
                tips: to.tips,
                tips_given: to.tips_given,
                anti_tips: to.anti_tips,
                anti_tips_given: to.anti_tips_given,
            }
            &&& r is Accepted ==> f.tips == from.tips - 1 && f.tips_given == from.tips_given + 1
            &&& r is Accepted ==> r == TipState::Accepted(spec_create_tip(ids, from, to, time, false))
        }),
{
}

/// What an anti-tip does, field by field: it is refused as `SameId`
/// exactly when the two ids are equal, as `NoTips` exactly when they
/// differ and the giver has no anti-tips left or either net score of the
/// receiver is zero, and changes nobody then; otherwise the giver has
/// exactly one anti-tip fewer and one more given, the receiver's two net
/// scores are each one lower, nothing else changes, and the record names
/// the pair.
pub proof fn anti_tip_effect(from: User, to: User, ids: Seq<i32>, time: u64)
    requires
        anti_tip_counters_fit(from, to),
    ensures
        ({
            let (r, f, t) = spec_transact_anti_tip(from, to, ids, time);
            &&& (r == TipState::SameId) <==> from.id == to.id
            &&& (r == TipState::NoTips) <==> (from.id != to.id && (from.anti_tips < 1
                || to.lifetime_net == 0 || to.week_net == 0))
            &&& (r is Accepted) <==> (from.id != to.id && from.anti_tips >= 1 && to.lifetime_net
                != 0 && to.week_net != 0)
            &&& !(r is Accepted) ==> f == from && t == to
            &&& r is Accepted ==> f == User {
                id: from.id,
                lifetime_gross: from.lifetime_gross,
                lifetime_net: from.lifetime_net,
                week_gross: from.week_gross,
                week_net: from.week_net,
                tips: from.tips,
                tips_given: from.tips_given,
                anti_tips: (from.anti_tips - 1) as i32,
                anti_tips_given: (from.anti_tips_given + 1) as u32,
            }
            &&& r is Accepted ==> t == User {
                id: to.id,
                lifetime_gross: to.lifetime_gross,
                lifetime_net: (to.lifetime_net - 1) as i32,
                week_gross: to.week_gross,
                week_net: (to.week_net - 1) as i8,
                tips: to.tips,
                tips_given: to.tips_given,
                anti_tips: to.anti_tips,
                anti_tips_given: to.anti_tips_given,
            }
            &&& r is Accepted ==> f.anti_tips == from.anti_tips - 1 && f.anti_tips_given
                == from.anti_tips_given + 1
            &&& r is Accepted ==> r == TipState::Accepted(spec_create_tip(ids, from, to, time, true))
        }),
{
}

/// After a transaction, an accepted outcome asks the store to write back
/// the giver and the receiver as given and to insert the accepted record;
/// a refusal asks for no write at all.
pub proof fn tip_writes_effect(state: TipState, from: User, to: User)
    ensures
        (spec_tip_writes(state, from, to) is Some) <==> (state is Accepted),
        state matches TipState::Accepted(tip) ==> spec_tip_writes(state, from, to) matches Some(w)
            && w.giver == from && w.receiver == to && w.tip == tip,
{
}

// ---------------------------------------------------------------- greetings

/// The named greeting is "Hello, " then the name itself, then "!".
pub proof fn greeting_wraps_the_name(name: Seq<char>)
    ensures
        crate::server::greeting(name).len() == name.len() + 8,
        crate::server::greeting(name).subrange(7, 7 + name.len() as int) == name,
        crate::server::greeting(name).take(7) == seq!['H', 'e', 'l', 'l', 'o', ',', ' '],
        crate::server::greeting(name).last() == '!',
{
    reveal_strlit("Hello, ");
    reveal_strlit("!");
    assert(crate::server::greeting(name).subrange(7, 7 + name.len() as int) =~= name);
    assert(crate::server::greeting(name).take(7) =~= seq!['H', 'e', 'l', 'l', 'o', ',', ' ']);
}

// ---------------------------------------------------------------- keys

/// How the key in a query is judged: with no query, or no text captured
/// after `key=`, the key is missing; a captured text that reads as an
/// `i64` `v` is looked up as `v`, whatever its size; any other captured text
/// is not an integer.
pub proof fn key_check_follows_the_captured_text(q: Seq<char>, text: Seq<char>)
    ensures
        spec_key_check(None) == KeyCheck::Decided(KeyState::MissingVar),
        regex_capture(key_pattern(), q, 1) is None ==> spec_key_check(Some(q)) == KeyCheck::Decided(
            KeyState::MissingVar,
        ),
        regex_capture(key_pattern(), q, 1) == Some(text) ==> match spec_parse_i64(text) {
            Ok(v) => i64::MIN <= v <= i64::MAX && spec_key_check(Some(q)) == KeyCheck::Lookup(
                v as i64,
            ) && (spec_key_check(Some(q)) matches KeyCheck::Lookup(k) && k as int == v),
            Err(_) => spec_key_check(Some(q)) == KeyCheck::Decided(KeyState::NotI64),
        },
{
}

// ---------------------------------------------------------------- numbers

/// The ASCII digit for `d` (taken modulo ten).
pub open spec fn digit_char(d: nat) -> char {
    let m = d % 10;
    if m == 0 {
        '0'
    } else if m == 1 {
        '1'
    } else if m == 2 {
        '2'
    } else if m == 3 {
        '3'
    } else if m == 4 {
        '4'
    } else if m == 5 {
        '5'
    } else if m == 6 {
        '6'
    } else if m == 7 {
        '7'
    } else if m == 8 {
        '8'
    } else {
        '9'
    }
}

/// The usual base-ten spelling of `n`, without sign or leading zeros.
pub open spec fn decimal(n: nat) -> Seq<char>
    decreases n,
{
    if n < 10 {
        seq![digit_char(n)]
    } else {
        decimal(n / 10).push(digit_char(n % 10))
    }
}

proof fn lemma_decimal(n: nat)
    ensures
        all_digits(decimal(n)),
        digits_value(decimal(n)) == n,
    decreases n,
{
    if n < 10 {
        let s = decimal(n);
        assert(s.drop_last() =~= Seq::<char>::empty());
        assert(n % 10 == n);
        assert(digit_value(digit_char(n)) == n);
        assert(digits_value(s) == digits_value(s.drop_last()) * 10 + digit_value(s.last()));
        assert(is_digit(s[0]));
    } else {
        lemma_decimal(n / 10);
        let s = decimal(n);
        assert(s.drop_last() =~= decimal(n / 10));
        assert((n % 10) % 10 == n % 10);
        assert(digit_value(digit_char(n % 10)) == n % 10);
        assert(n == (n / 10) * 10 + n % 10);
        assert forall|i: int| 0 <= i < s.len() implies is_digit(#[trigger] s[i]) by {
            if i < s.len() - 1 {
                assert(s[i] == decimal(n / 10)[i]);
            }
        }
    }
}

/// Decimal ids read back as themselves: the spelling of every `i64`, with
/// a `-` before a negative one and optionally a `+` before any other, parses
/// to that value; the spelling of any larger magnitude overflows; and text
/// that is empty, or has a character other than a digit after its first,
/// or starts with something other than a digit or sign, is refused.
pub proof fn parse_i64_reads_decimals(n: nat, s: Seq<char>)
    ensures
        n <= i64::MAX ==> spec_parse_i64(decimal(n)) == Ok::<int, IdError>(n as int),
        n <= i64::MAX ==> spec_parse_i64(seq!['+'] + decimal(n)) == Ok::<int, IdError>(n as int),
        1 <= n <= 0x8000_0000_0000_0000 ==> spec_parse_i64(seq!['-'] + decimal(n)) == Ok::<
            int,
            IdError,
        >(-(n as int)),
        n > i64::MAX ==> spec_parse_i64(decimal(n)) == Err::<int, IdError>(IdError::Overflow),
        n > 0x8000_0000_0000_0000 ==> spec_parse_i64(seq!['-'] + decimal(n)) == Err::<int, IdError>(
            IdError::Overflow,
        ),
        spec_parse_i64(Seq::<char>::empty()) == Err::<int, IdError>(IdError::Empty),
        s.len() > 0 && ((exists|i: int| 1 <= i < s.len() && !is_digit(#[trigger] s[i])) || (!is_digit(
            s[0],
        ) && s[0] != '+' && s[0] != '-')) ==> spec_parse_i64(s) == Err::<int, IdError>(
            IdError::InvalidDigit,
        ),
{
    lemma_decimal(n);
    assert((seq!['+'] + decimal(n)).drop_first() =~= decimal(n));
    assert((seq!['-'] + decimal(n)).drop_first() =~= decimal(n));
    assert(decimal(n)[0] != '+' && decimal(n)[0] != '-') by {
        assert(is_digit(decimal(n)[0]));
    }
    if s.len() > 0 && exists|i: int| 1 <= i < s.len() && !is_digit(#[trigger] s[i]) {
        let i = choose|i: int| 1 <= i < s.len() && !is_digit(#[trigger] s[i]);
        assert(s.drop_first()[i - 1] == s[i]);
    }
}

/// The port number reads the same way: the spelling of every `u16`,
/// optionally after a `+`, parses to that value, a larger one overflows,
/// and a `-` is never accepted.
pub proof fn parse_u16_reads_decimals(n: nat, s: Seq<char>)
    ensures
        n <= u16::MAX ==> spec_parse_u16(decimal(n)) == Ok::<int, IdError>(n as int),
        n <= u16::MAX ==> spec_parse_u16(seq!['+'] + decimal(n)) == Ok::<int, IdError>(n as int),
        n > u16::MAX ==> spec_parse_u16(decimal(n)) == Err::<int, IdError>(IdError::Overflow),
        s.len() > 0 && s[0] == '-' ==> spec_parse_u16(s) == Err::<int, IdError>(IdError::InvalidDigit),
{
    lemma_decimal(n);
    assert((seq!['+'] + decimal(n)).drop_first() =~= decimal(n));
    assert(decimal(n)[0] != '+') by {
        assert(is_digit(decimal(n)[0]));
    }
    if s.len() > 0 && s[0] == '-' {
        assert(!is_digit(s[0]));
    }
}

} // verus!
