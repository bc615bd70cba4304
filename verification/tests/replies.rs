use discord_bot_api::keys::KeyState;
use discord_bot_api::models::{Tip, User};
use discord_bot_api::reply::{
    apply_tips_update, create_user_view, get_user_view, set_tips_view, tip_party, tip_reply,
    transact_tip_view, user_reply, validate_key_test, Body, ContentType, Party, Reply, Status,
    TipsUpdate,
};
use discord_bot_api::server::{hello, hello_name};
use discord_bot_api::tip::{create_user, TipState};

fn plain(status: Status, text: &str) -> Reply {
    Reply { status: Some(status), content_type: Some(ContentType::Plaintext), body: Body::Text(text.to_string()) }
}

const REFUSED: [KeyState; 3] = [KeyState::Invalid, KeyState::NotI64, KeyState::MissingVar];

#[test]
fn get_user_view_steps() {
    assert_eq!(get_user_view("17"), Ok(17));
    assert_eq!(
        get_user_view("x"),
        Err(Reply { status: Some(Status::BadRequest), content_type: None, body: Body::Empty })
    );
    let u = create_user(17);
    assert_eq!(
        user_reply(&vec![u]),
        Reply { status: Some(Status::Success), content_type: Some(ContentType::Json), body: Body::User(u) }
    );
    assert_eq!(
        user_reply(&vec![]),
        Reply { status: Some(Status::NotFound), content_type: None, body: Body::Empty }
    );
}

#[test]
fn create_user_view_outcomes() {
    assert_eq!(
        create_user_view(KeyState::Valid, "25"),
        (Some(create_user(25)), plain(Status::Success, "User Created!"))
    );
    assert_eq!(create_user_view(KeyState::Valid, "abc"), (None, plain(Status::BadRequest, "Bad Request")));
    for k in REFUSED.iter() {
        assert_eq!(create_user_view(*k, "25"), (None, plain(Status::Forbidden, "Forbidden")));
    }
}

#[test]
fn set_tips_view_outcomes() {
    assert_eq!(
        set_tips_view(KeyState::Valid, "-1", "5", false),
        (Some(TipsUpdate { user: -1, value: 5, anti: false }), plain(Status::Success, "Tips set"))
    );
    assert_eq!(
        set_tips_view(KeyState::Valid, "3", "4294967297", true),
        (Some(TipsUpdate { user: 3, value: 1, anti: true }), plain(Status::Success, "Tips set"))
    );
    assert_eq!(set_tips_view(KeyState::Valid, "u", "5", false), (None, plain(Status::BadRequest, "Bad Request")));
    assert_eq!(set_tips_view(KeyState::Valid, "3", "v", false), (None, plain(Status::BadRequest, "Bad Request")));
    for k in REFUSED.iter() {
        assert_eq!(set_tips_view(*k, "3", "5", false), (None, plain(Status::Forbidden, "Forbidden")));
    }
}

#[test]
fn apply_tips_update_picks_the_allowance() {
    let mut users = vec![create_user(1), create_user(2)];
    apply_tips_update(&mut users, &TipsUpdate { user: 2, value: 6, anti: true });
    assert_eq!(users[1].anti_tips, 6);
    assert_eq!(users[1].tips, 0);
    apply_tips_update(&mut users, &TipsUpdate { user: -1, value: 2, anti: false });
    assert_eq!(users[0].tips, 2);
    assert_eq!(users[1].tips, 2);
}

#[test]
fn transact_tip_view_steps() {
    assert_eq!(transact_tip_view(KeyState::Valid, "1", "2"), Ok((1, 2)));
    assert_eq!(transact_tip_view(KeyState::Valid, "x", "2"), Err(plain(Status::BadRequest, "Bad Request")));
    assert_eq!(transact_tip_view(KeyState::Valid, "1", "y"), Err(plain(Status::BadRequest, "Bad Request")));
    for k in REFUSED.iter() {
        assert_eq!(transact_tip_view(*k, "1", "2"), Err(plain(Status::Forbidden, "Forbidden")));
    }
    let u = create_user(1);
    assert_eq!(tip_party(&vec![u], Party::From), Ok(u));
    assert_eq!(tip_party(&vec![], Party::From), Err(plain(Status::NotFound, "Not Found, From User")));
    assert_eq!(tip_party(&vec![u, u], Party::To), Err(plain(Status::NotFound, "Not Found, To User")));
}

#[test]
fn tip_reply_outcomes() {
    let t = Tip { id: 1, user_from: 1, user_to: 2, time: 3, anti: false };
    assert_eq!(
        tip_reply(TipState::Accepted(t)),
        Reply { status: Some(Status::Success), content_type: Some(ContentType::Json), body: Body::Tip(t) }
    );
    assert_eq!(tip_reply(TipState::NoTips), plain(Status::NotAcceptable, "No Tips"));
    assert_eq!(tip_reply(TipState::SameId), plain(Status::NotAcceptable, "Same ID"));
}

#[test]
fn validate_key_test_outcomes() {
    assert_eq!(validate_key_test(KeyState::Valid), plain(Status::Success, "Valid key"));
    assert_eq!(validate_key_test(KeyState::Invalid), plain(Status::Forbidden, "Invalid key"));
    assert_eq!(validate_key_test(KeyState::NotI64), plain(Status::Forbidden, "Key must be an integer"));
    assert_eq!(
        validate_key_test(KeyState::MissingVar),
        Reply {
            status: None,
            content_type: Some(ContentType::Plaintext),
            body: Body::Text("No key query variable".to_string())
        }
    );
}

#[test]
fn greetings() {
    assert_eq!(hello(), Reply { status: Some(Status::Success), content_type: None, body: Body::Text("Hello world!".to_string()) });
    assert_eq!(
        hello_name("Ada"),
        Reply { status: Some(Status::Success), content_type: None, body: Body::Text("Hello, Ada!".to_string()) }
    );
}

#[test]
fn user_json_fields_stay_what_was_stored() {
    let u = User { id: 9, lifetime_gross: 1, lifetime_net: -1, week_gross: 2, week_net: -2, tips: 3, tips_given: 4, anti_tips: 5, anti_tips_given: 6 };
    match user_reply(&vec![u]).body {
        Body::User(v) => assert_eq!(v, u),
        _ => panic!("expected a user body"),
    }
}
