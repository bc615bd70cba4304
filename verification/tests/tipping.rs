use discord_bot_api::models::{Tip, User};
use discord_bot_api::tip::{
    anti_tip_within_limits, create_tip, create_user, next_tip_id, next_tip_id_fits, set_anti_tips,
    set_tips, tip_within_limits, tip_writes, transact_anti_tip, transact_tip, TipState,
};

fn user(id: u64, tips: i32, anti_tips: i32) -> User {
    User {
        id,
        lifetime_gross: 3,
        lifetime_net: 2,
        week_gross: 1,
        week_net: 1,
        tips,
        tips_given: 4,
        anti_tips,
        anti_tips_given: 5,
    }
}

#[test]
fn create_user_starts_from_zero() {
    let u = create_user(25);
    assert_eq!(
        u,
        User {
            id: 25,
            lifetime_gross: 0,
            lifetime_net: 0,
            week_gross: 0,
            week_net: 0,
            tips: 0,
            tips_given: 0,
            anti_tips: 0,
            anti_tips_given: 0,
        }
    );
    assert_eq!(create_user(-1).id, u64::MAX);
}

#[test]
fn next_tip_id_follows_the_largest_nonzero_id() {
    assert_eq!(next_tip_id(&vec![]), 1);
    assert_eq!(next_tip_id(&vec![0]), 1);
    assert_eq!(next_tip_id(&vec![3, 0, 7, -2]), 8);
    assert_eq!(next_tip_id(&vec![-5]), -4);
    assert!(next_tip_id_fits(&vec![5]));
    assert!(!next_tip_id_fits(&vec![i32::MAX]));
}

#[test]
fn create_tip_records_the_pair() {
    let a = user(1, 1, 1);
    let b = user(2, 0, 0);
    let t = create_tip(&vec![1, 2], &a, &b, 1_600_000_000, true);
    assert_eq!(t, Tip { id: 3, user_from: 1, user_to: 2, time: 1_600_000_000, anti: true });
}

#[test]
fn tip_moves_one_tip() {
    let mut a = user(1, 2, 0);
    let mut b = user(2, 0, 0);
    let r = transact_tip(&mut a, &mut b, &vec![10], 77);
    assert_eq!(r, TipState::Accepted(Tip { id: 11, user_from: 1, user_to: 2, time: 77, anti: false }));
    assert_eq!(a.tips, 1);
    assert_eq!(a.tips_given, 5);
    assert_eq!((b.lifetime_gross, b.lifetime_net, b.week_gross, b.week_net), (4, 3, 2, 2));
}

#[test]
fn tip_to_oneself_is_refused() {
    let mut a = user(1, 2, 0);
    let mut b = user(1, 2, 0);
    assert_eq!(transact_tip(&mut a, &mut b, &vec![], 0), TipState::SameId);
    assert_eq!(a, user(1, 2, 0));
    assert_eq!(b, user(1, 2, 0));
}

#[test]
fn tip_without_tips_is_refused() {
    let mut a = user(1, 0, 3);
    let mut b = user(2, 0, 0);
    assert_eq!(transact_tip(&mut a, &mut b, &vec![], 0), TipState::NoTips);
    assert_eq!(a, user(1, 0, 3));
    assert_eq!(b, user(2, 0, 0));
}

#[test]
fn anti_tip_lowers_net_only() {
    let mut c = user(3, 0, 1);
    let mut b = user(2, 0, 0);
    let r = transact_anti_tip(&mut c, &mut b, &vec![], 9);
    assert_eq!(r, TipState::Accepted(Tip { id: 1, user_from: 3, user_to: 2, time: 9, anti: true }));
    assert_eq!((c.anti_tips, c.anti_tips_given), (0, 6));
    assert_eq!((b.lifetime_gross, b.lifetime_net, b.week_gross, b.week_net), (3, 1, 1, 0));
}

#[test]
fn anti_tip_refusals() {
    let mut c = user(3, 0, 0);
    let mut b = user(2, 0, 0);
    assert_eq!(transact_anti_tip(&mut c, &mut b, &vec![], 9), TipState::NoTips);
    let mut c = user(3, 0, 1);
    let mut same = user(3, 0, 1);
    assert_eq!(transact_anti_tip(&mut c, &mut same, &vec![], 9), TipState::SameId);
    let mut zero_life = user(2, 0, 0);
    zero_life.lifetime_net = 0;
    assert_eq!(transact_anti_tip(&mut c, &mut zero_life, &vec![], 9), TipState::NoTips);
    let mut zero_week = user(2, 0, 0);
    zero_week.week_net = 0;
    assert_eq!(transact_anti_tip(&mut c, &mut zero_week, &vec![], 9), TipState::NoTips);
    assert_eq!(c, user(3, 0, 1));
}

#[test]
fn limits_are_checked_only_for_accepted_transactions() {
    let a = user(1, 1, 1);
    let mut full = user(2, 0, 0);
    full.week_gross = i8::MAX;
    assert!(!tip_within_limits(&a, &full, &vec![]));
    assert!(tip_within_limits(&user(1, 0, 0), &full, &vec![]));
    assert!(tip_within_limits(&a, &user(2, 0, 0), &vec![]));
    let mut low = user(2, 0, 0);
    low.week_net = i8::MIN;
    assert!(!anti_tip_within_limits(&a, &low, &vec![]));
    assert!(!tip_within_limits(&a, &user(2, 0, 0), &vec![i32::MAX]));
}

#[test]
fn set_tips_for_one_user_or_everybody() {
    let mut users = vec![user(1, 0, 0), user(2, 0, 0), user(3, 9, 9)];
    set_tips(&mut users, 2, 5);
    assert_eq!(users[0].tips, 0);
    assert_eq!(users[1].tips, 5);
    assert_eq!(users[2].tips, 9);
    set_tips(&mut users, -1, 1);
    assert!(users.iter().all(|u| u.tips == 1));
    set_tips(&mut users, 40, 7);
    assert!(users.iter().all(|u| u.tips == 1));
    set_anti_tips(&mut users, 3, 2);
    assert_eq!(users[2].anti_tips, 2);
    assert_eq!(users[2].tips, 1);
    assert_eq!(users[0].anti_tips, 0);
    set_tips(&mut users, 1, 300);
    assert_eq!(users[0].tips, 300);
    set_anti_tips(&mut users, -1, 70000);
    assert!(users.iter().all(|u| u.anti_tips == 70000));
}

#[test]
fn set_tips_reaches_a_user_created_with_a_negative_id() {
    let mut users = vec![user(1, 0, 0), create_user(-5)];
    set_tips(&mut users, -5, 4);
    assert_eq!(users[1].tips, 4);
    assert_eq!(users[0].tips, 0);
    set_anti_tips(&mut users, -5, 2);
    assert_eq!(users[1].anti_tips, 2);
}

#[test]
fn fresh_user_cannot_tip_scenario() {
    let mut fresh = create_user(8);
    let mut other = user(2, 0, 0);
    assert_eq!(transact_tip(&mut fresh, &mut other, &vec![], 0), TipState::NoTips);
    assert_eq!(transact_anti_tip(&mut fresh, &mut other, &vec![], 0), TipState::NoTips);
    let mut me = create_user(8);
    assert_eq!(transact_tip(&mut fresh, &mut me, &vec![], 0), TipState::SameId);
}

#[test]
fn set_tips_enables_tip_scenario() {
    let mut users = vec![create_user(8)];
    set_tips(&mut users, 8, 3);
    let mut other = user(2, 0, 0);
    let r = transact_tip(&mut users[0], &mut other, &vec![], 0);
    assert!(matches!(r, TipState::Accepted(_)));
}

#[test]
fn anti_tip_undoes_tip_net_scenario() {
    let mut a = user(1, 1, 0);
    let mut b = user(2, 0, 0);
    let mut c = user(3, 0, 1);
    let before = b;
    assert!(matches!(transact_tip(&mut a, &mut b, &vec![], 1), TipState::Accepted(_)));
    assert!(matches!(transact_anti_tip(&mut c, &mut b, &vec![1], 2), TipState::Accepted(_)));
    assert_eq!(b.lifetime_net, before.lifetime_net);
    assert_eq!(b.week_net, before.week_net);
    assert_eq!(b.lifetime_gross, before.lifetime_gross + 1);
    assert_eq!(b.week_gross, before.week_gross + 1);
}

#[test]
fn tip_conserves_giver_total_scenario() {
    let mut a = user(1, 3, 2);
    let mut b = user(2, 0, 0);
    let total = a.tips as i64 + a.tips_given as i64;
    let week_gap = b.week_gross as i32 - b.week_net as i32;
    transact_tip(&mut a, &mut b, &vec![], 0);
    assert_eq!(a.tips as i64 + a.tips_given as i64, total);
    assert_eq!(b.week_gross as i32 - b.week_net as i32, week_gap);
    let anti_total = a.anti_tips as i64 + a.anti_tips_given as i64;
    transact_anti_tip(&mut a, &mut b, &vec![], 0);
    assert_eq!(a.anti_tips as i64 + a.anti_tips_given as i64, anti_total);
}

#[test]
fn anti_tip_keeps_net_in_bounds_scenario() {
    let mut c = user(3, 0, 1);
    let mut b = user(2, 0, 0);
    b.lifetime_net = 1;
    b.week_net = 1;
    assert!(matches!(transact_anti_tip(&mut c, &mut b, &vec![], 0), TipState::Accepted(_)));
    assert_eq!((b.lifetime_net, b.week_net), (0, 0));
    assert!(b.lifetime_net <= b.lifetime_gross);
    let mut c = user(3, 0, 1);
    assert_eq!(transact_anti_tip(&mut c, &mut b, &vec![], 0), TipState::NoTips);
    assert_eq!((b.lifetime_net, b.week_net), (0, 0));
}

#[test]
fn accepted_tip_writes_both_users_and_one_record() {
    let mut a = user(1, 1, 0);
    let mut b = user(2, 0, 0);
    let stored = vec![1, 2, 5];
    let state = transact_tip(&mut a, &mut b, &stored, 3);
    let w = tip_writes(state, a, b).expect("an accepted tip writes");
    assert_eq!(w.giver, a);
    assert_eq!(w.receiver, b);
    assert_eq!(w.tip, Tip { id: 6, user_from: 1, user_to: 2, time: 3, anti: false });
    assert!(!stored.contains(&w.tip.id));
    let mut a = user(1, 0, 0);
    let state = transact_tip(&mut a, &mut b, &stored, 3);
    assert_eq!(tip_writes(state, a, b), None);
}

#[test]
fn tip_ids_are_fresh_scenario() {
    let ids = vec![4, 0, -3, 9, 2];
    let t = create_tip(&ids, &user(1, 0, 0), &user(2, 0, 0), 0, false);
    assert!(ids.iter().all(|&i| i == 0 || i < t.id));
}
