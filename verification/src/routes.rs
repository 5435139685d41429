//! The two routes: from a request to its reply.

use vstd::prelude::*;
use crate::clock::LocalOffset;
use crate::decimal::decimal_text;
use crate::html::tag_count;
use crate::page::{
    date_text,
    lemma_links_in_order,
    lemma_listing_has_one_anchor_per_entry,
    link_html,
    link_start,
    links_html,
    listing_html,
    listing_opening,
    page_for_key,
    post_html,
    post_page,
    post_page_with,
    shows,
    IndexTemplateView,
    PageError,
    PostTemplate,
    PostTemplateView,
    LIST_CLOSE,
    SITE_TITLE,
};
use crate::post::{entry_for_key, listing_of, PostIndex, Record};
use crate::reply::{index_reply, page_sent, post_reply, post_reply_for, Reply, ReplyView, Status};

verus! {

/// The rendered page of a post, where there is a page.
pub open spec fn rendered(page: Result<PostTemplateView, PageError>) -> Result<
    Seq<char>,
    PageError,
> {
    match page {
        Ok(view) => Ok(post_html(view)),
        Err(error) => Err(error),
    }
}

/// The reply of the route of one post to `key`, given the offsets that the
/// zone of this machine had at the time of the post.
pub open spec fn post_route(records: Seq<Record>, key: Seq<char>, local: LocalOffset) -> ReplyView {
    post_reply_for(rendered(page_for_key(records, key, local)))
}

/// The reply of the listing route.
pub open spec fn index_route(records: Seq<Record>) -> ReplyView {
    page_sent(listing_html(IndexTemplateView { title: SITE_TITLE@, entries: listing_of(records) }))
}

/// Renders a page, where there is one, and decides the reply.
fn reply_to(page: Result<PostTemplate<'_>, PageError>) -> (reply: Reply)
    ensures
        forall|expected: Result<PostTemplateView, PageError>|
            shows(page, expected) ==> reply@ == post_reply_for(rendered(expected)),
{
    post_reply(
        match page {
            Ok(template) => Ok(template.render()),
            Err(error) => Err(error),
        },
    )
}

/// Answers a request for the post at `id`, for a zone of this machine that
/// had the offsets `local` at the time of the post.
pub fn post_with(id: &str, state: &PostIndex, local: LocalOffset) -> (reply: Reply)
    ensures
        reply@ == post_route(state@, id@, local),
{
    reply_to(post_page_with(state, id, local))
}

/// Answers a request for the post at `id`. The zone of this machine is
/// asked for its offset at the time of the post; whatever it answers, the
/// reply is the one that `post_with` gives for that answer.
pub fn post(id: &str, state: &PostIndex) -> (reply: Reply)
    ensures
        exists|local: LocalOffset|
            local.in_range() && reply@ == #[trigger] post_route(state@, id@, local),
{
    let page = post_page(state, id);
    let ghost local = choose|local: LocalOffset|
        local.in_range() && shows(page, #[trigger] page_for_key(state@, id@, local));
    let reply = reply_to(page);
    proof {
        assert(reply@ == post_route(state@, id@, local));
    }
    reply
}

/// Answers a request for the listing.
pub fn index(state: &PostIndex) -> (reply: Reply)
    ensures
        reply@ == index_route(state@),
{
    let listing = state.list_all();
    let page = listing.template();
    index_reply(page.render())
}

/// The route of one post answers with 404 exactly when the key addresses
/// nothing, with 500 exactly when the key addresses a post whose date
/// cannot be written, and otherwise with 200 and the page of the post that
/// the key addresses.
pub proof fn lemma_post_route_status(records: Seq<Record>, key: Seq<char>, local: LocalOffset)
    ensures
        match entry_for_key(records, key) {
            None => post_route(records, key, local).status == Status::NotFound,
            Some(record) => match date_text(record.created_at, local) {
                Err(_) => post_route(records, key, local).status == Status::InternalServerError,
                Ok(date) => post_route(records, key, local) == page_sent(
                    post_html(PostTemplateView { title: record.title, date, body: record.body }),
                ),
            },
        },
{
}

/// The listing route always answers with 200. Its page is the opening,
/// then the links, then the closing, and the links are one for every post
/// in the order of the index: the link of the post at `i` stands where the
/// links of the posts before it end, and it leads to the identifier of the
/// post under the label of its slug.
pub proof fn lemma_index_route_lists_every_post(records: Seq<Record>, i: int)
    requires
        0 <= i < records.len(),
    ensures
        index_route(records).status == Status::Success,
        index_route(records).body == listing_opening(SITE_TITLE@) + links_html(
            listing_of(records),
        ) + LIST_CLOSE@,
        listing_of(records).len() == records.len(),
        link_start(listing_of(records), 0) == 0,
        link_start(listing_of(records), records.len() as int) == links_html(
            listing_of(records),
        ).len(),
        link_start(listing_of(records), i + 1) <= links_html(listing_of(records)).len(),
        links_html(listing_of(records)).subrange(
            link_start(listing_of(records), i),
            link_start(listing_of(records), i + 1),
        ) == link_html((decimal_text(records[i].id), records[i].slug())),
{
    lemma_links_in_order(listing_of(records), i);
}

/// The page of the listing route opens exactly one anchor for every post
/// of the index, whatever the titles of the posts say.
pub proof fn lemma_index_route_has_one_anchor_per_post(records: Seq<Record>)
    ensures
        tag_count(index_route(records).body, 'a') == records.len(),
{
    lemma_listing_has_one_anchor_per_entry(
        IndexTemplateView { title: SITE_TITLE@, entries: listing_of(records) },
    );
}

/// The listing route of an empty index answers with a page without links.
pub proof fn lemma_index_route_of_nothing()
    ensures
        index_route(Seq::empty()).body == listing_opening(SITE_TITLE@) + LIST_CLOSE@,
{
    assert(listing_of(Seq::empty()) =~= Seq::empty());
}

} // verus!
