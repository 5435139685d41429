use post_index::page::{PageError, RenderError};
use post_index::reply::{
    index_reply, post_reply, Content, Status, INDEX_FAILURE_BODY, NOT_FOUND_BODY,
    POST_FAILURE_BODY,
};

#[test]
fn statuses_have_their_codes() {
    assert_eq!(Status::Success.code(), 200);
    assert_eq!(Status::NotFound.code(), 404);
    assert_eq!(Status::InternalServerError.code(), 500);
}

#[test]
fn a_rendered_post_is_sent_as_html() {
    let reply = post_reply(Ok("<h1>x</h1>".to_string()));
    assert_eq!(reply.status, Status::Success);
    assert_eq!(reply.content, Content::Html);
    assert_eq!(reply.body, "<h1>x</h1>");
}

#[test]
fn a_missing_post_is_answered_with_404() {
    let reply = post_reply(Err(PageError::NotFound));
    assert_eq!(reply.status, Status::NotFound);
    assert_eq!(reply.content, Content::PlainText);
    assert_eq!(reply.body, "404 not found");
    assert_eq!(reply.body, NOT_FOUND_BODY);
}

#[test]
fn a_post_that_fails_to_render_is_answered_with_500() {
    for error in [
        RenderError::NoLocalTime,
        RenderError::AmbiguousLocalTime,
        RenderError::OutOfRange,
        RenderError::Template,
    ] {
        let reply = post_reply(Err(PageError::Render(error)));
        assert_eq!(reply.status, Status::InternalServerError);
        assert_eq!(reply.content, Content::PlainText);
        assert_eq!(reply.body, "try again later");
        assert_eq!(reply.body, POST_FAILURE_BODY);
    }
}

#[test]
fn a_rendered_listing_is_sent_as_html() {
    let reply = index_reply(Ok("<ul></ul>".to_string()));
    assert_eq!(reply.status, Status::Success);
    assert_eq!(reply.content, Content::Html);
    assert_eq!(reply.body, "<ul></ul>");
}

#[test]
fn a_listing_that_fails_to_render_is_answered_with_500() {
    let reply = index_reply(Err(RenderError::Template));
    assert_eq!(reply.status, Status::InternalServerError);
    assert_eq!(reply.content, Content::PlainText);
    assert_eq!(reply.body, "Failed to render template.");
    assert_eq!(reply.body, INDEX_FAILURE_BODY);
}
