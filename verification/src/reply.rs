//! What each route sends back, once its page has been rendered or has been
//! found impossible.

use vstd::prelude::*;
use crate::page::{PageError, RenderError};

verus! {

/// Body of the reply to a key that addresses no post.
pub const NOT_FOUND_BODY: &'static str = "404 not found";

/// Body of the reply for a post whose page could not be rendered.
pub const POST_FAILURE_BODY: &'static str = "try again later";

/// Body of the reply for a listing that could not be rendered.
pub const INDEX_FAILURE_BODY: &'static str = "Failed to render template.";

/// The three outcomes that a route can report.
#[derive(Clone, Copy, Debug, PartialEq, Eq, Structural)]
pub enum Status {
    Success,
    NotFound,
    InternalServerError,
}

/// How the body of a reply is to be read.
#[derive(Clone, Copy, Debug, PartialEq, Eq, Structural)]
pub enum Content {
    Html,
    PlainText,
}

/// One reply: a status, and a body with its kind.
#[derive(Debug)]
pub struct Reply {
    pub status: Status,
    pub content: Content,
    pub body: String,
}

/// A reply as plain values.
pub struct ReplyView {
    pub status: Status,
    pub content: Content,
    pub body: Seq<char>,
}

impl View for Reply {
    type V = ReplyView;

    open spec fn view(&self) -> ReplyView {
        ReplyView { status: self.status, content: self.content, body: self.body@ }
    }
}

/// The number that stands for a status on the wire.
pub open spec fn status_code(status: Status) -> int {
    match status {
        Status::Success => 200,
        Status::NotFound => 404,
        Status::InternalServerError => 500,
    }
}

/// The reply that carries a rendered page.
pub open spec fn page_sent(html: Seq<char>) -> ReplyView {
    ReplyView { status: Status::Success, content: Content::Html, body: html }
}

/// The reply that carries a plain sentence under a status.
pub open spec fn sentence_sent(status: Status, sentence: Seq<char>) -> ReplyView {
    ReplyView { status, content: Content::PlainText, body: sentence }
}

/// The reply of the route of one post: the page where there is one, a
/// fixed sentence under 404 where the key addresses nothing, and a fixed
/// sentence under 500 where rendering failed, whatever the failure was.
pub open spec fn post_reply_for(page: Result<Seq<char>, PageError>) -> ReplyView {
    match page {
        Ok(html) => page_sent(html),
        Err(PageError::NotFound) => sentence_sent(Status::NotFound, NOT_FOUND_BODY@),
        Err(PageError::Render(_)) => sentence_sent(
            Status::InternalServerError,
            POST_FAILURE_BODY@,
        ),
    }
}

/// The reply of the listing route: the page where there is one, and a fixed
/// sentence under 500 where rendering failed, whatever the failure was.
pub open spec fn index_reply_for(page: Result<Seq<char>, RenderError>) -> ReplyView {
    match page {
        Ok(html) => page_sent(html),
        Err(_) => sentence_sent(Status::InternalServerError, INDEX_FAILURE_BODY@),
    }
}

impl Status {
    /// The number that stands for this status on the wire.
    pub fn code(self) -> (code: u16)
        ensures
            code == status_code(self),
    {
        match self {
            Status::Success => 200,
            Status::NotFound => 404,
            Status::InternalServerError => 500,
        }
    }
}

/// Decides the reply of the route of one post.
pub fn post_reply(page: Result<String, PageError>) -> (reply: Reply)
    ensures
        reply@ == post_reply_for(
            match page {
                Ok(html) => Ok(html@),
                Err(error) => Err(error),
            },
        ),
{
    match page {
        Ok(html) => Reply { status: Status::Success, content: Content::Html, body: html },
        Err(PageError::NotFound) => Reply {
            status: Status::NotFound,
            content: Content::PlainText,
            body: NOT_FOUND_BODY.to_owned(),
        },
        Err(PageError::Render(_)) => Reply {
            status: Status::InternalServerError,
            content: Content::PlainText,
            body: POST_FAILURE_BODY.to_owned(),
        },
    }
}

/// Decides the reply of the listing route.
pub fn index_reply(page: Result<String, RenderError>) -> (reply: Reply)
    ensures
        reply@ == index_reply_for(
            match page {
                Ok(html) => Ok(html@),
                Err(error) => Err(error),
            },
        ),
{
    match page {
        Ok(html) => Reply { status: Status::Success, content: Content::Html, body: html },
        Err(_) => Reply {
            status: Status::InternalServerError,
            content: Content::PlainText,
            body: INDEX_FAILURE_BODY.to_owned(),
        },
    }
}

} // verus!
