//! The HTTP endpoints as decisions: from what a request carries (and what
//! the store held) to the reply the endpoint sends and the write it asks for.

use vstd::prelude::*;
use crate::keys::KeyState;
use crate::models::{Tip, User};
use crate::number::{get_id, spec_parse_i64};
use crate::tip::{
    create_user, set_anti_tips, set_tips, spec_create_user, spec_set_anti_tips, spec_set_tips,
    TipState,
};

verus! {

/// The status line of a reply.
#[derive(Clone, Copy, Debug, PartialEq, Eq, Structural)]
pub enum Status {
    /// 200
    Success,
    /// 400
    BadRequest,
    /// 403
    Forbidden,
    /// 404
    NotFound,
    /// 406
    NotAcceptable,
}

/// The `Content-Type` header of a reply.
#[derive(Clone, Copy, Debug, PartialEq, Eq, Structural)]
pub enum ContentType {
    Plaintext,
    Json,
}

/// The body of a reply; users and tips are sent as their JSON encoding.
#[derive(Clone, Debug, PartialEq, Eq)]
pub enum Body {
    Empty,
    Text(String),
    User(User),
    Tip(Tip),
}

/// A reply: a status (none set means the server's default, 404), an
/// optional content type and a body.
#[derive(Clone, Debug, PartialEq, Eq)]
pub struct Reply {
    pub status: Option<Status>,
    pub content_type: Option<ContentType>,
    pub body: Body,
}

/// `r` has this status and content type and the body `text`.
pub open spec fn is_text_reply(
    r: Reply,
    status: Option<Status>,
    content_type: Option<ContentType>,
    text: Seq<char>,
) -> bool {
    &&& r.status == status
    &&& r.content_type == content_type
    &&& r.body matches Body::Text(t) && t@ == text
}

fn text_reply(status: Option<Status>, content_type: Option<ContentType>, text: &str) -> (r: Reply)
    ensures
        is_text_reply(r, status, content_type, text@),
{
    Reply { status, content_type, body: Body::Text(String::from_str(text)) }
}

fn plain(status: Status, text: &str) -> (r: Reply)
    ensures
        is_text_reply(r, Some(status), Some(ContentType::Plaintext), text@),
{
    text_reply(Some(status), Some(ContentType::Plaintext), text)
}

// ---------------------------------------------------------------- users

/// Reading a user, first step: the id in the route. A malformed id is
/// answered 400 with an empty body; a good one is to be looked up.
pub fn get_user_view(user_param: &str) -> (r: Result<i64, Reply>)
    ensures
        match spec_parse_i64(user_param@) {
            Ok(v) => r == Ok::<i64, Reply>(v as i64),
            Err(_) => r == Err::<i64, Reply>(
                Reply { status: Some(Status::BadRequest), content_type: None, body: Body::Empty },
            ),
        },
{
    match get_id(user_param) {
        Ok(v) => Ok(v),
        Err(_) => Err(Reply { status: Some(Status::BadRequest), content_type: None, body: Body::Empty }),
    }
}

/// Reading a user, second step: the rows the lookup found. Exactly one row
/// is sent as JSON; otherwise the reply is 404 with an empty body.
pub fn user_reply(found: &Vec<User>) -> (r: Reply)
    ensures
        r == (if found@.len() == 1 {
            Reply {
                status: Some(Status::Success),
                content_type: Some(ContentType::Json),
                body: Body::User(found@[0]),
            }
        } else {
            Reply { status: Some(Status::NotFound), content_type: None, body: Body::Empty }
        }),
{
    if found.len() == 1 {
        Reply {
            status: Some(Status::Success),
            content_type: Some(ContentType::Json),
            body: Body::User(found[0]),
        }
    } else {
        Reply { status: Some(Status::NotFound), content_type: None, body: Body::Empty }
    }
}

/// Creating a user: with a valid key and a well-formed id, the user row to
/// insert and "User Created!"; otherwise nothing to insert and a plain-text
/// refusal (403 for the key, then 400 for the id).
pub fn create_user_view(key: KeyState, user_param: &str) -> (r: (Option<User>, Reply))
    ensures
        key != KeyState::Valid ==> r.0 is None && is_text_reply(
            r.1,
            Some(Status::Forbidden),
            Some(ContentType::Plaintext),
            "Forbidden"@,
        ),
        key == KeyState::Valid ==> match spec_parse_i64(user_param@) {
            Ok(v) => r.0 == Some(spec_create_user(v as i64)) && is_text_reply(
                r.1,
                Some(Status::Success),
                Some(ContentType::Plaintext),
                "User Created!"@,
            ),
            Err(_) => r.0 is None && is_text_reply(
                r.1,
                Some(Status::BadRequest),
                Some(ContentType::Plaintext),
                "Bad Request"@,
            ),
        },
{
    match key {
        KeyState::Valid => match get_id(user_param) {
            Ok(v) => (Some(create_user(v)), plain(Status::Success, "User Created!")),
            Err(_) => (None, plain(Status::BadRequest, "Bad Request")),
        },
        _ => (None, plain(Status::Forbidden, "Forbidden")),
    }
}

// ---------------------------------------------------------------- allowances

/// A change of allowance: the tips (or anti-tips) of user `user`, or of
/// everybody when it is `-1`, become `value`.
#[derive(Clone, Copy, Debug, PartialEq, Eq, Structural)]
pub struct TipsUpdate {
    pub user: i64,
    pub value: i32,
    pub anti: bool,
}

/// Setting allowances: with a valid key and well-formed user and amount,
/// the update to make (the amount cut to 32 bits) and "Tips set";
/// otherwise no update and a plain-text refusal (403 for the key, then 400
/// for the user, then 400 for the amount).
pub fn set_tips_view(key: KeyState, user_param: &str, val_param: &str, is_anti: bool) -> (r: (
    Option<TipsUpdate>,
    Reply,
))
    ensures
        key != KeyState::Valid ==> r.0 is None && is_text_reply(
            r.1,
            Some(Status::Forbidden),
            Some(ContentType::Plaintext),
            "Forbidden"@,
        ),
        key == KeyState::Valid ==> match (spec_parse_i64(user_param@), spec_parse_i64(val_param@)) {
            (Ok(u), Ok(v)) => r.0 == Some(
                TipsUpdate {
                    user: u as i64,
                    value: #[verifier::truncate] (v as i32),
                    anti: is_anti,
                },
            ) && is_text_reply(
                r.1,
                Some(Status::Success),
                Some(ContentType::Plaintext),
                "Tips set"@,
            ),
            _ => r.0 is None && is_text_reply(
                r.1,
                Some(Status::BadRequest),
                Some(ContentType::Plaintext),
                "Bad Request"@,
            ),
        },
{
    match key {
        KeyState::Valid => match get_id(user_param) {
            Ok(user) => match get_id(val_param) {
                Ok(val) => (
                    Some(
                        TipsUpdate {
                            user,
                            value: #[verifier::truncate] (val as i32),
                            anti: is_anti,
                        },
                    ),
                    plain(Status::Success, "Tips set"),
                ),
                Err(_) => (None, plain(Status::BadRequest, "Bad Request")),
            },
            Err(_) => (None, plain(Status::BadRequest, "Bad Request")),
        },
        _ => (None, plain(Status::Forbidden, "Forbidden")),
    }
}

/// Applies an allowance update to the stored users.
pub fn apply_tips_update(users: &mut Vec<User>, update: &TipsUpdate)
    ensures
        final(users)@ == (if update.anti {
            spec_set_anti_tips(old(users)@, update.user, update.value)
        } else {
            spec_set_tips(old(users)@, update.user, update.value)
        }),
{
    if update.anti {
        set_anti_tips(users, update.user, update.value);
    } else {
        set_tips(users, update.user, update.value);
    }
}

// ---------------------------------------------------------------- tips

/// The two users of a tip.
#[derive(Clone, Copy, Debug, PartialEq, Eq, Structural)]
pub enum Party {
    From,
    To,
}

/// Tipping, first step: with a valid key and well-formed giver and
/// receiver ids, the two ids to look up; otherwise a plain-text refusal
/// (403 for the key, then 400 for either id).
pub fn transact_tip_view(key: KeyState, from_param: &str, to_param: &str) -> (r: Result<
    (i64, i64),
    Reply,
>)
    ensures
        key != KeyState::Valid ==> (r matches Err(rep) && is_text_reply(
            rep,
            Some(Status::Forbidden),
            Some(ContentType::Plaintext),
            "Forbidden"@,
        )),
        key == KeyState::Valid ==> match (spec_parse_i64(from_param@), spec_parse_i64(to_param@)) {
            (Ok(f), Ok(t)) => r == Ok::<(i64, i64), Reply>((f as i64, t as i64)),
            _ => r matches Err(rep) && is_text_reply(
                rep,
                Some(Status::BadRequest),
                Some(ContentType::Plaintext),
                "Bad Request"@,
            ),
        },
{
    match key {
        KeyState::Valid => match get_id(from_param) {
            Ok(from) => match get_id(to_param) {
                Ok(to) => Ok((from, to)),
                Err(_) => Err(plain(Status::BadRequest, "Bad Request")),
            },
            Err(_) => Err(plain(Status::BadRequest, "Bad Request")),
        },
        _ => Err(plain(Status::Forbidden, "Forbidden")),
    }
}

/// Tipping, second step, once for the giver and then for the receiver: the
/// rows the lookup found. Exactly one row is that party; otherwise the
/// reply is 404 naming the party that was not found.
pub fn tip_party(found: &Vec<User>, party: Party) -> (r: Result<User, Reply>)
    ensures
        found@.len() == 1 ==> r == Ok::<User, Reply>(found@[0]),
        found@.len() != 1 ==> (r matches Err(rep) && is_text_reply(
            rep,
            Some(Status::NotFound),
            Some(ContentType::Plaintext),
            match party {
                Party::From => "Not Found, From User"@,
                Party::To => "Not Found, To User"@,
            },
        )),
{
    if found.len() == 1 {
        Ok(found[0])
    } else {
        match party {
            Party::From => Err(plain(Status::NotFound, "Not Found, From User")),
            Party::To => Err(plain(Status::NotFound, "Not Found, To User")),
        }
    }
}

/// Tipping, last step: the reply to the outcome of the transaction. An
/// accepted tip is sent as JSON; a refusal is 406 with its reason.
pub fn tip_reply(state: TipState) -> (r: Reply)
    ensures
        match state {
            TipState::Accepted(tip) => r == Reply {
                status: Some(Status::Success),
                content_type: Some(ContentType::Json),
                body: Body::Tip(tip),
            },
            TipState::NoTips => is_text_reply(
                r,
                Some(Status::NotAcceptable),
                Some(ContentType::Plaintext),
                "No Tips"@,
            ),
            TipState::SameId => is_text_reply(
                r,
                Some(Status::NotAcceptable),
                Some(ContentType::Plaintext),
                "Same ID"@,
            ),
        },
{
    match state {
        TipState::Accepted(tip) => Reply {
            status: Some(Status::Success),
            content_type: Some(ContentType::Json),
            body: Body::Tip(tip),
        },
        TipState::NoTips => plain(Status::NotAcceptable, "No Tips"),
        TipState::SameId => plain(Status::NotAcceptable, "Same ID"),
    }
}

// ---------------------------------------------------------------- keys

/// The reply of the key test endpoint: what was found of the key, in plain
/// text; a missing key sets no status.
pub fn validate_key_test(state: KeyState) -> (r: Reply)
    ensures
        match state {
            KeyState::Valid => is_text_reply(
                r,
                Some(Status::Success),
                Some(ContentType::Plaintext),
                "Valid key"@,
            ),
            KeyState::Invalid => is_text_reply(
                r,
                Some(Status::Forbidden),
                Some(ContentType::Plaintext),
                "Invalid key"@,
            ),
            KeyState::NotI64 => is_text_reply(
                r,
                Some(Status::Forbidden),
                Some(ContentType::Plaintext),
                "Key must be an integer"@,
            ),
            KeyState::MissingVar => is_text_reply(
                r,
                None,
                Some(ContentType::Plaintext),
                "No key query variable"@,
            ),
        },
{
    match state {
        KeyState::Valid => plain(Status::Success, "Valid key"),
        KeyState::Invalid => plain(Status::Forbidden, "Invalid key"),
        KeyState::NotI64 => plain(Status::Forbidden, "Key must be an integer"),
        KeyState::MissingVar => text_reply(None, Some(ContentType::Plaintext), "No key query variable"),
    }
}

} // verus!
