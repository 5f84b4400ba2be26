use crate::model::{RestaurantRecord, RestaurantView};
use vstd::prelude::*;

verus! {

/// The class of a reply, which fixes its HTTP status code.
#[derive(Clone, Copy, Debug, PartialEq, Eq, Structural)]
pub enum Status {
    /// A lookup or listing succeeded.
    Success,
    /// A record was inserted.
    Created,
    /// A record with the same natural key already exists.
    Conflict,
    /// Nothing matched, or a lookup failed in the store.
    NotFound,
    /// A write failed in the store.
    ServerError,
}

impl Status {
    /// The HTTP status code sent for this class.
    pub fn code(&self) -> (r: u16)
        ensures
            r == status_code(*self),
    {
        match self {
            Status::Success => 200,
            Status::Created => 201,
            Status::Conflict => 409,
            Status::NotFound => 404,
            Status::ServerError => 500,
        }
    }
}

pub open spec fn status_code(s: Status) -> u16 {
    match s {
        Status::Success => 200,
        Status::Created => 201,
        Status::Conflict => 409,
        Status::NotFound => 404,
        Status::ServerError => 500,
    }
}

/// The body of every reply: whether the request succeeded, the records it
/// returns and a human-readable error.
pub struct Response {
    pub success: bool,
    pub data: Option<Vec<RestaurantRecord>>,
    pub error_message: Option<String>,
}

/// A reply: its class and its body.
pub struct Reply {
    pub status: Status,
    pub body: Response,
}

/// The mathematical value of a reply.
pub struct ReplyView {
    pub status: Status,
    pub success: bool,
    pub data: Option<Seq<RestaurantView>>,
    pub error_message: Option<Seq<char>>,
}

pub open spec fn records_view(s: Seq<RestaurantRecord>) -> Seq<RestaurantView> {
    s.map_values(|r: RestaurantRecord| r@)
}

impl View for Reply {
    type V = ReplyView;

    open spec fn view(&self) -> ReplyView {
        ReplyView {
            status: self.status,
            success: self.body.success,
            data: match self.body.data {
                Some(v) => Some(records_view(v@)),
                None => None,
            },
            error_message: match self.body.error_message {
                Some(m) => Some(m@),
                None => None,
            },
        }
    }
}

/// A successful reply carrying `data`.
pub open spec fn success_reply(status: Status, data: Seq<RestaurantView>) -> ReplyView {
    ReplyView { status, success: true, data: Some(data), error_message: None }
}

/// A successful reply with no records.
pub open spec fn done_reply(status: Status) -> ReplyView {
    ReplyView { status, success: true, data: None, error_message: None }
}

/// A failed reply with the message `msg`.
pub open spec fn failure_reply(
    status: Status,
    msg: Seq<char>,
    data: Option<Seq<RestaurantView>>,
) -> ReplyView {
    ReplyView { status, success: false, data, error_message: Some(msg) }
}

pub fn success(status: Status, data: Vec<RestaurantRecord>) -> (r: Reply)
    ensures
        r@ == success_reply(status, records_view(data@)),
{
    Reply { status, body: Response { success: true, data: Some(data), error_message: None } }
}

pub fn done(status: Status) -> (r: Reply)
    ensures
        r@ == done_reply(status),
{
    Reply { status, body: Response { success: true, data: None, error_message: None } }
}

pub fn failure(status: Status, msg: String, data: Option<Vec<RestaurantRecord>>) -> (r: Reply)
    ensures
        r@ == failure_reply(
            status,
            msg@,
            match data {
                Some(v) => Some(records_view(v@)),
                None => None,
            },
        ),
{
    Reply { status, body: Response { success: false, data, error_message: Some(msg) } }
}

} // verus!
