//! What each endpoint answers, given what storage or signing gave back.
use vstd::prelude::*;
use crate::db::StorageError;
use crate::models::{Claim, InsertedItem, Item};

verus! {

pub const STATUS_OK: u16 = 200;

pub const STATUS_INTERNAL_SERVER_ERROR: u16 = 500;

/// Subject written into every token the login stub issues.
pub const LOGIN_SUBJECT: &'static str = "user_id";

/// Expiry, in epoch seconds, of every token the login stub issues.
pub const LOGIN_EXPIRY: u64 = 10000000000;

/// The body of a reply.
pub enum ReplyBody {
    Empty,
    /// A JSON array of items.
    Items(Vec<Item>),
    /// A JSON object holding the generated id.
    Inserted(InsertedItem),
    /// A plain-text message.
    Text(String),
    /// A signed token, as plain text.
    Token(String),
}

/// An HTTP status and a body.
pub struct Reply {
    pub status: u16,
    pub body: ReplyBody,
}

pub open spec fn is_server_error(status: u16) -> bool {
    500 <= status < 600
}

/// Signing a token failed.
#[derive(Clone, Copy, Debug, PartialEq, Eq, Structural)]
pub enum SignError {
    Failed,
}

/// The health check: success, unconditionally.
pub fn health_check() -> (r: Reply)
    ensures
        r.status == STATUS_OK,
        r.body is Empty,
{
    Reply { status: STATUS_OK, body: ReplyBody::Empty }
}

/// The reply to listing the items, given what the read returned.
pub fn items_reply(result: Result<Vec<Item>, StorageError>) -> (r: Reply)
    ensures
        result is Ok ==> r.status == STATUS_OK && r.body == ReplyBody::Items(result->Ok_0),
        result is Err ==> r.status == STATUS_INTERNAL_SERVER_ERROR && r.body is Text
            && r.body->Text_0@ == "Failed to retrieve items"@,
{
    match result {
        Ok(records) => Reply { status: STATUS_OK, body: ReplyBody::Items(records) },
        Err(_) => Reply {
            status: STATUS_INTERNAL_SERVER_ERROR,
            body: ReplyBody::Text("Failed to retrieve items".to_owned()),
        },
    }
}

/// The reply to creating an item, given what the insert returned. On a
/// failure the reply is a server error that carries no id.
pub fn post_item_reply(result: Result<InsertedItem, StorageError>) -> (r: Reply)
    ensures
        result is Ok ==> r.status == STATUS_OK && r.body == ReplyBody::Inserted(result->Ok_0),
        result is Err ==> r.status == STATUS_INTERNAL_SERVER_ERROR && r.body is Text
            && r.body->Text_0@ == "Failed to insert item"@,
        result is Err ==> is_server_error(r.status) && !(r.body is Inserted),
{
    match result {
        Ok(record) => Reply { status: STATUS_OK, body: ReplyBody::Inserted(record) },
        Err(_) => Reply {
            status: STATUS_INTERNAL_SERVER_ERROR,
            body: ReplyBody::Text("Failed to insert item".to_owned()),
        },
    }
}

/// The claim the login stub signs: a fixed subject and a fixed far expiry.
pub fn login_claim() -> (r: Claim)
    ensures
        r.sub@ == LOGIN_SUBJECT@,
        r.exp == LOGIN_EXPIRY,
{
    Claim { sub: LOGIN_SUBJECT.to_owned(), exp: LOGIN_EXPIRY }
}

/// The reply to a login, given what signing returned: the token, or a
/// server error.
pub fn login_reply(token: Result<String, SignError>) -> (r: Reply)
    ensures
        token is Ok ==> r.status == STATUS_OK && r.body == ReplyBody::Token(token->Ok_0),
        token is Err ==> r.status == STATUS_INTERNAL_SERVER_ERROR && r.body is Text
            && r.body->Text_0@ == "Failed to create token"@,
{
    match token {
        Ok(t) => Reply { status: STATUS_OK, body: ReplyBody::Token(t) },
        Err(_) => Reply {
            status: STATUS_INTERNAL_SERVER_ERROR,
            body: ReplyBody::Text("Failed to create token".to_owned()),
        },
    }
}

} // verus!
