//! The two pages: what each template is filled with, and when a page cannot
//! be had.

use vstd::prelude::*;
use crate::clock::{
    clock_text,
    display_seconds,
    display_time,
    local_offset_at,
    write_clock,
    LocalOffset,
    NaiveTimestamp,
    DISPLAY_PATTERN,
};
use crate::html::{
    escape_html,
    escaped,
    lemma_escaped_is_inert,
    lemma_no_tag,
    lemma_one_tag,
    lemma_tag_count_of_pieces,
    settled,
    tag_count,
};
use crate::post::{entry_for_key, Listing, Post, PostIndex, Record};
use vstd::string::StringExecFns;

verus! {

/// The title that every listing carries.
pub const SITE_TITLE: &'static str = "My blog \u{1F408}\u{200D}\u{2B1B}";

/// How every page begins, up to the text of its title.
pub const PAGE_OPEN: &'static str =
    "<!DOCTYPE html>\n<html>\n<head>\n<meta charset=\"utf-8\">\n<title>";

/// What stands between the title of a page and its heading.
pub const HEADING_OPEN: &'static str = "</title>\n</head>\n<body>\n<h1>";

/// What stands between the heading of the listing and its first link.
pub const LIST_OPEN: &'static str = "</h1>\n<ul>\n";

/// How a link of the listing begins, up to the text of its target.
pub const LINK_OPEN: &'static str = "<li><a href=\"/post/";

/// What stands between the target of a link and its label.
pub const LABEL_OPEN: &'static str = "\">";

/// How a link of the listing ends.
pub const LINK_CLOSE: &'static str = "</a></li>\n";

/// How the listing ends.
pub const LIST_CLOSE: &'static str = "</ul>\n</body>\n</html>\n";

/// What stands between the heading of a post and its date.
pub const DATE_OPEN: &'static str = "</h1>\n<time>";

/// What stands between the date of a post and its body.
pub const BODY_OPEN: &'static str = "</time>\n<article>";

/// How the page of a post ends.
pub const POST_CLOSE: &'static str = "</article>\n</body>\n</html>\n";

/// Why a page could not be rendered.
#[derive(Clone, Copy, Debug, PartialEq, Eq, Structural)]
pub enum RenderError {
    /// The clock of this machine's zone never showed the stored time, or the
    /// zone could not be asked.
    NoLocalTime,
    /// The clock of this machine's zone showed the stored time twice.
    AmbiguousLocalTime,
    /// The time to display is more than a clock reading or the calendar can
    /// hold.
    OutOfRange,
    /// The template was handed values that do not fit it: a listing with
    /// more targets than labels, or fewer.
    Template,
}

/// Why a route has no page to send.
#[derive(Clone, Copy, Debug, PartialEq, Eq, Structural)]
pub enum PageError {
    /// The key addresses no post.
    NotFound,
    /// The post is there, but its page could not be rendered.
    Render(RenderError),
}

/// What the page of one post is filled with.
#[derive(Debug)]
pub struct PostTemplate<'a> {
    pub post_title: &'a str,
    pub post_date: String,
    pub post_body: &'a str,
}

/// What a filled post template shows.
pub struct PostTemplateView {
    pub title: Seq<char>,
    pub date: Seq<char>,
    pub body: Seq<char>,
}

impl<'a> View for PostTemplate<'a> {
    type V = PostTemplateView;

    open spec fn view(&self) -> PostTemplateView {
        PostTemplateView { title: self.post_title@, date: self.post_date@, body: self.post_body@ }
    }
}

/// What the listing page is filled with.
#[derive(Debug)]
pub struct IndexTemplate<'a> {
    pub id: &'a Vec<String>,
    pub index_title: String,
    pub index_links: &'a Vec<String>,
}

/// What a filled listing template shows: the title of the site, then for
/// every link its target and its label.
pub struct IndexTemplateView {
    pub title: Seq<char>,
    pub entries: Seq<(Seq<char>, Seq<char>)>,
}

impl<'a> View for IndexTemplate<'a> {
    type V = IndexTemplateView;

    open spec fn view(&self) -> IndexTemplateView {
        IndexTemplateView {
            title: self.index_title@,
            entries: Seq::new(self.id@.len(), |i: int| (self.id@[i]@, self.index_links@[i]@)),
        }
    }
}

/// One link of the listing: the target and the label, both escaped.
pub open spec fn link_html(entry: (Seq<char>, Seq<char>)) -> Seq<char> {
    LINK_OPEN@ + escaped(entry.0) + LABEL_OPEN@ + escaped(entry.1) + LINK_CLOSE@
}

/// The links of the listing, one behind the other in the order of the
/// entries.
pub open spec fn links_html(entries: Seq<(Seq<char>, Seq<char>)>) -> Seq<char>
    decreases entries.len(),
{
    if entries.len() == 0 {
        Seq::empty()
    } else {
        links_html(entries.drop_last()) + link_html(entries.last())
    }
}

/// How the page of the listing begins, up to its first link.
pub open spec fn listing_opening(title: Seq<char>) -> Seq<char> {
    PAGE_OPEN@ + escaped(title) + HEADING_OPEN@ + escaped(title) + LIST_OPEN@
}

/// The page of the listing.
pub open spec fn listing_html(page: IndexTemplateView) -> Seq<char> {
    listing_opening(page.title) + links_html(page.entries) + LIST_CLOSE@
}

/// The page of one post.
pub open spec fn post_html(page: PostTemplateView) -> Seq<char> {
    PAGE_OPEN@ + escaped(page.title) + HEADING_OPEN@ + escaped(page.title) + DATE_OPEN@
        + escaped(page.date) + BODY_OPEN@ + escaped(page.body) + POST_CLOSE@
}

/// The text that stands for a stored time on the page of a post, given the
/// offsets that the zone of this machine had at that time.
pub open spec fn date_text(naive: NaiveTimestamp, local: LocalOffset) -> Result<
    Seq<char>,
    RenderError,
> {
    match local {
        LocalOffset::Missing => Err(RenderError::NoLocalTime),
        LocalOffset::Ambiguous(_, _) => Err(RenderError::AmbiguousLocalTime),
        LocalOffset::Single(offset) => {
            let shown = display_seconds(naive, offset as int);
            if i64::MIN <= shown <= i64::MAX {
                written_date(clock_text(shown, DISPLAY_PATTERN@))
            } else {
                Err(RenderError::OutOfRange)
            }
        },
    }
}

/// The date of a page, given what the calendar wrote for it.
pub open spec fn written_date(written: Option<Seq<char>>) -> Result<Seq<char>, RenderError> {
    match written {
        Some(text) => Ok(text),
        None => Err(RenderError::OutOfRange),
    }
}

/// What the page of `record` shows under the date `date`.
pub open spec fn post_view(record: Record, date: Result<Seq<char>, RenderError>) -> Result<
    PostTemplateView,
    PageError,
> {
    match date {
        Ok(text) => Ok(PostTemplateView { title: record.title, date: text, body: record.body }),
        Err(error) => Err(PageError::Render(error)),
    }
}

/// What the route of one post answers to `key`, given the offsets of the
/// zone of this machine.
pub open spec fn page_for_key(records: Seq<Record>, key: Seq<char>, local: LocalOffset) -> Result<
    PostTemplateView,
    PageError,
> {
    match entry_for_key(records, key) {
        None => Err(PageError::NotFound),
        Some(record) => post_view(record, date_text(record.created_at, local)),
    }
}

/// Whether `page` is the page that `expected` describes.
pub open spec fn shows(page: Result<PostTemplate<'_>, PageError>, expected: Result<
    PostTemplateView,
    PageError,
>) -> bool {
    match page {
        Ok(template) => expected == Ok::<PostTemplateView, PageError>(template@),
        Err(error) => expected == Err::<PostTemplateView, PageError>(error),
    }
}

/// Takes what the calendar wrote for the date of a page: where it wrote
/// nothing, the time is out of range.
pub fn date_from_written(written: Option<String>) -> (date: Result<String, RenderError>)
    ensures
        match date {
            Ok(text) => written matches Some(w) && w@ == text@,
            Err(error) => written is None && error == RenderError::OutOfRange,
        },
{
    match written {
        Some(text) => Ok(text),
        None => Err(RenderError::OutOfRange),
    }
}

/// Writes a stored time for display: the time is taken to belong to the
/// zone of this machine, moved to the display zone and written as year,
/// month, day, hour, minute and second.
pub fn format_date(naive: NaiveTimestamp, local: LocalOffset) -> (date: Result<
    String,
    RenderError,
>)
    ensures
        match date {
            Ok(text) => date_text(naive, local) == Ok::<Seq<char>, RenderError>(text@),
            Err(error) => date_text(naive, local) == Err::<Seq<char>, RenderError>(error),
        },
{
    match local {
        LocalOffset::Missing => Err(RenderError::NoLocalTime),
        LocalOffset::Ambiguous(_, _) => Err(RenderError::AmbiguousLocalTime),
        LocalOffset::Single(offset) => match display_time(naive, offset) {
            Some(shown) => date_from_written(write_clock(shown.local_seconds, DISPLAY_PATTERN)),
            None => Err(RenderError::OutOfRange),
        },
    }
}

/// Fills the template of one post: title and body as they were written,
/// and the date as it was formatted.
pub fn post_template<'a>(post: &'a Post, date: Result<String, RenderError>) -> (page: Result<
    PostTemplate<'a>,
    PageError,
>)
    ensures
        shows(
            page,
            post_view(
                post@,
                match date {
                    Ok(text) => Ok(text@),
                    Err(error) => Err(error),
                },
            ),
        ),
{
    match date {
        Ok(post_date) => Ok(
            PostTemplate { post_title: post.title(), post_date, post_body: post.body() },
        ),
        Err(error) => Err(PageError::Render(error)),
    }
}

/// The page of the post that `key` addresses, for a zone of this machine
/// that had the offsets `local` at the time of the post.
pub fn post_page_with<'a>(index: &'a PostIndex, key: &str, local: LocalOffset) -> (page: Result<
    PostTemplate<'a>,
    PageError,
>)
    ensures
        shows(page, page_for_key(index@, key@, local)),
{
    match index.lookup(key) {
        None => Err(PageError::NotFound),
        Some(post) => post_template(post, format_date(post.created_at(), local)),
    }
}

/// The page of the post that `key` addresses. The zone of this machine is
/// asked for its offset at the time of the post; whatever it answers, the
/// page is the one that `post_page_with` gives for that answer.
pub fn post_page<'a>(index: &'a PostIndex, key: &str) -> (page: Result<PostTemplate<'a>, PageError>)
    ensures
        entry_for_key(index@, key@) is None ==> page == Err::<PostTemplate<'a>, PageError>(
            PageError::NotFound,
        ),
        exists|local: LocalOffset|
            local.in_range() && shows(page, #[trigger] page_for_key(index@, key@, local)),
{
    match index.lookup(key) {
        None => {
            proof {
                assert(shows(
                    Err(PageError::NotFound),
                    page_for_key(index@, key@, LocalOffset::Missing),
                ));
            }
            Err(PageError::NotFound)
        },
        Some(post) => {
            let local = local_offset_at(post.created_at());
            let page = post_template(post, format_date(post.created_at(), local));
            proof {
                assert(shows(page, page_for_key(index@, key@, local)));
            }
            page
        },
    }
}

impl<'a> PostTemplate<'a> {
    /// Renders the page of the post. Title, date and body are escaped.
    pub fn render(&self) -> (html: String)
        ensures
            html@ == post_html(self@),
    {
        let title = escape_html(self.post_title);
        let mut html = PAGE_OPEN.to_owned();
        html.append(title.as_str());
        html.append(HEADING_OPEN);
        html.append(title.as_str());
        html.append(DATE_OPEN);
        html.append(escape_html(self.post_date.as_str()).as_str());
        html.append(BODY_OPEN);
        html.append(escape_html(self.post_body).as_str());
        html.append(POST_CLOSE);
        html
    }
}

impl<'a> IndexTemplate<'a> {
    /// Whether every target has its label.
    pub open spec fn fits(&self) -> bool {
        self.id@.len() == self.index_links@.len()
    }

    /// Renders the page of the listing: the title, then one link for every
    /// target and its label, in order. Titles, targets and labels are
    /// escaped. A template with more targets than labels, or fewer, is
    /// refused, and nothing is rendered.
    pub fn render(&self) -> (html: Result<String, RenderError>)
        ensures
            match html {
                Ok(text) => self.fits() && text@ == listing_html(self@),
                Err(error) => !self.fits() && error == RenderError::Template,
            },
    {
        if self.id.len() != self.index_links.len() {
            return Err(RenderError::Template);
        }
        let title = escape_html(self.index_title.as_str());
        let mut html = PAGE_OPEN.to_owned();
        html.append(title.as_str());
        html.append(HEADING_OPEN);
        html.append(title.as_str());
        html.append(LIST_OPEN);
        let ghost opening = html@;
        let mut i: usize = 0;
        while i < self.id.len()
            invariant
                i <= self.id.len(),
                self.fits(),
                html@ == opening + links_html(self@.entries.take(i as int)),
            decreases self.id.len() - i,
        {
            proof {
                let upto = self@.entries.take(i + 1);
                assert(upto.drop_last() == self@.entries.take(i as int));
                assert(upto.last() == (self.id@[i as int]@, self.index_links@[i as int]@));
            }
            html.append(LINK_OPEN);
            html.append(escape_html(self.id[i].as_str()).as_str());
            html.append(LABEL_OPEN);
            html.append(escape_html(self.index_links[i].as_str()).as_str());
            html.append(LINK_CLOSE);
            i += 1;
        }
        proof {
            assert(self@.entries.take(i as int) == self@.entries);
        }
        html.append(LIST_CLOSE);
        Ok(html)
    }
}

impl Listing {
    /// Fills the template of the listing.
    pub fn template(&self) -> (page: IndexTemplate<'_>)
        ensures
            page@ == (IndexTemplateView { title: SITE_TITLE@, entries: self@ }),
            page.fits() == self.wf(),
    {
        IndexTemplate { id: &self.ids, index_title: SITE_TITLE.to_owned(), index_links: &self.links }
    }
}

/// Where the link of the entry at `i` begins, counted in characters from
/// the start of the links.
pub open spec fn link_start(entries: Seq<(Seq<char>, Seq<char>)>, i: int) -> int {
    links_html(entries.take(i)).len() as int
}

/// The links of the first `k` entries are how the links of all entries
/// begin.
proof fn lemma_links_begin_with(entries: Seq<(Seq<char>, Seq<char>)>, k: int)
    requires
        0 <= k <= entries.len(),
    ensures
        link_start(entries, k) <= links_html(entries).len(),
        links_html(entries).subrange(0, link_start(entries, k)) == links_html(entries.take(k)),
    decreases entries.len(),
{
    if k == entries.len() {
        assert(entries.take(k) == entries);
    } else {
        lemma_links_begin_with(entries.drop_last(), k);
        assert(entries.drop_last().take(k) == entries.take(k));
    }
}

/// The links of a listing are the links of its entries laid end to end in
/// the order of the entries: the first link begins where the links begin,
/// every link begins where the link before it ends, and the last link ends
/// where the links end.
pub proof fn lemma_links_in_order(entries: Seq<(Seq<char>, Seq<char>)>, i: int)
    requires
        0 <= i < entries.len(),
    ensures
        link_start(entries, 0) == 0,
        link_start(entries, entries.len() as int) == links_html(entries).len(),
        link_start(entries, i + 1) == link_start(entries, i) + link_html(entries[i]).len(),
        link_start(entries, i + 1) <= links_html(entries).len(),
        links_html(entries).subrange(link_start(entries, i), link_start(entries, i + 1))
            == link_html(entries[i]),
{
    assert(entries.take(entries.len() as int) == entries);
    assert(entries.take(i + 1).drop_last() == entries.take(i));
    assert(entries.take(i + 1).last() == entries[i]);
    lemma_links_begin_with(entries, i + 1);
    let upto = links_html(entries.take(i + 1));
    assert(upto.subrange(link_start(entries, i), link_start(entries, i + 1)) == link_html(
        entries[i],
    ));
    assert(links_html(entries).subrange(link_start(entries, i), link_start(entries, i + 1))
        == links_html(entries).subrange(0, link_start(entries, i + 1)).subrange(
        link_start(entries, i),
        link_start(entries, i + 1),
    ));
}

/// The fixed pieces of the listing: each is settled, the opening of a link
/// opens one anchor, and no other piece opens any.
proof fn lemma_pieces_of_the_listing()
    ensures
        settled(PAGE_OPEN@) && tag_count(PAGE_OPEN@, 'a') == 0,
        settled(HEADING_OPEN@) && tag_count(HEADING_OPEN@, 'a') == 0,
        settled(LIST_OPEN@) && tag_count(LIST_OPEN@, 'a') == 0,
        settled(LINK_OPEN@) && tag_count(LINK_OPEN@, 'a') == 1,
        settled(LABEL_OPEN@) && tag_count(LABEL_OPEN@, 'a') == 0,
        settled(LINK_CLOSE@) && tag_count(LINK_CLOSE@, 'a') == 0,
        settled(LIST_CLOSE@) && tag_count(LIST_CLOSE@, 'a') == 0,
{
    reveal_strlit("<!DOCTYPE html>\n<html>\n<head>\n<meta charset=\"utf-8\">\n<title>");
    reveal_strlit("</title>\n</head>\n<body>\n<h1>");
    reveal_strlit("</h1>\n<ul>\n");
    reveal_strlit("<li><a href=\"/post/");
    reveal_strlit("\">");
    reveal_strlit("</a></li>\n");
    reveal_strlit("</ul>\n</body>\n</html>\n");
    lemma_no_tag(PAGE_OPEN@, 'a');
    lemma_no_tag(HEADING_OPEN@, 'a');
    lemma_no_tag(LIST_OPEN@, 'a');
    lemma_one_tag(LINK_OPEN@, 'a', 4);
    lemma_no_tag(LABEL_OPEN@, 'a');
    lemma_no_tag(LINK_CLOSE@, 'a');
    lemma_no_tag(LIST_CLOSE@, 'a');
}

/// One link opens one anchor, whatever its target and its label say.
proof fn lemma_link_has_one_anchor(entry: (Seq<char>, Seq<char>))
    ensures
        settled(link_html(entry)),
        tag_count(link_html(entry), 'a') == 1,
{
    lemma_pieces_of_the_listing();
    lemma_escaped_is_inert(entry.0);
    lemma_escaped_is_inert(entry.1);
    let a = LINK_OPEN@;
    let b = a + escaped(entry.0);
    let c = b + LABEL_OPEN@;
    let d = c + escaped(entry.1);
    lemma_tag_count_of_pieces(a, escaped(entry.0), 'a');
    lemma_tag_count_of_pieces(b, LABEL_OPEN@, 'a');
    lemma_tag_count_of_pieces(c, escaped(entry.1), 'a');
    lemma_tag_count_of_pieces(d, LINK_CLOSE@, 'a');
}

/// The links of a listing open one anchor for every entry.
proof fn lemma_links_have_one_anchor_each(entries: Seq<(Seq<char>, Seq<char>)>)
    ensures
        settled(links_html(entries)),
        tag_count(links_html(entries), 'a') == entries.len(),
    decreases entries.len(),
{
    if entries.len() > 0 {
        lemma_links_have_one_anchor_each(entries.drop_last());
        lemma_link_has_one_anchor(entries.last());
        lemma_tag_count_of_pieces(
            links_html(entries.drop_last()),
            link_html(entries.last()),
            'a',
        );
    }
}

/// The page of a listing opens exactly one anchor for every entry.
/// Whatever the title, the targets and the labels say, escaping keeps them
/// from opening a tag of their own.
pub proof fn lemma_listing_has_one_anchor_per_entry(page: IndexTemplateView)
    ensures
        tag_count(listing_html(page), 'a') == page.entries.len(),
{
    lemma_pieces_of_the_listing();
    lemma_escaped_is_inert(page.title);
    lemma_links_have_one_anchor_each(page.entries);
    let a = PAGE_OPEN@;
    let b = a + escaped(page.title);
    let c = b + HEADING_OPEN@;
    let d = c + escaped(page.title);
    let e = d + LIST_OPEN@;
    let f = e + links_html(page.entries);
    lemma_tag_count_of_pieces(a, escaped(page.title), 'a');
    lemma_tag_count_of_pieces(b, HEADING_OPEN@, 'a');
    lemma_tag_count_of_pieces(c, escaped(page.title), 'a');
    lemma_tag_count_of_pieces(d, LIST_OPEN@, 'a');
    lemma_tag_count_of_pieces(e, links_html(page.entries), 'a');
    lemma_tag_count_of_pieces(f, LIST_CLOSE@, 'a');
}

} // verus!
