//! Articles as they are stored, posts as they are served, and the index
//! that holds the posts in the order in which they were loaded.

use vstd::prelude::*;
use crate::clock::NaiveTimestamp;
use crate::decimal::{decimal_string, decimal_text, decimal_value, parse_decimal};
use crate::slug::{slug_of, slugify};
use crate::text::same_text;

verus! {

/// What an article or a post says, as plain values.
pub struct Record {
    pub id: int,
    pub title: Seq<char>,
    pub body: Seq<char>,
    pub created_at: NaiveTimestamp,
}

impl Record {
    /// The slug under which the record is addressed.
    pub open spec fn slug(self) -> Seq<char> {
        slug_of(self.title)
    }
}

/// One stored article, as the store hands it out.
#[derive(Clone, Debug)]
pub struct Article {
    pub id: i32,
    pub title: String,
    pub body: String,
    pub created_at: NaiveTimestamp,
}

impl View for Article {
    type V = Record;

    open spec fn view(&self) -> Record {
        Record {
            id: self.id as int,
            title: self.title@,
            body: self.body@,
            created_at: self.created_at,
        }
    }
}

/// One post of the index: an article together with its slug.
#[derive(Debug)]
pub struct Post {
    post_id: i32,
    post_title: String,
    slug: String,
    post_date: NaiveTimestamp,
    post_body: String,
}

impl View for Post {
    type V = Record;

    closed spec fn view(&self) -> Record {
        Record {
            id: self.post_id as int,
            title: self.post_title@,
            body: self.post_body@,
            created_at: self.post_date,
        }
    }
}

impl Post {
    #[verifier::type_invariant]
    spec fn slug_is_derived(self) -> bool {
        self.slug@ == slug_of(self.post_title@)
    }

    /// Makes the post of an article: nothing changes, and the slug is
    /// derived from the title.
    pub fn from_article(article: Article) -> (post: Post)
        ensures
            post@ == article@,
    {
        let slug = slugify(article.title.as_str());
        Post {
            post_id: article.id,
            post_title: article.title,
            slug,
            post_date: article.created_at,
            post_body: article.body,
        }
    }

    /// The identifier that the store gave the article.
    pub fn id(&self) -> (id: i32)
        ensures
            id == self@.id,
    {
        self.post_id
    }

    /// The title as it was written, spaces and all.
    pub fn title(&self) -> (title: &str)
        ensures
            title@ == self@.title,
    {
        self.post_title.as_str()
    }

    /// The slug of the title.
    pub fn slug(&self) -> (slug: &str)
        ensures
            slug@ == self@.slug(),
    {
        proof {
            use_type_invariant(self);
        }
        self.slug.as_str()
    }

    /// The time at which the article was stored, without a zone.
    pub fn created_at(&self) -> (at: NaiveTimestamp)
        ensures
            at == self@.created_at,
    {
        self.post_date
    }

    /// The text of the article.
    pub fn body(&self) -> (body: &str)
        ensures
            body@ == self@.body,
    {
        self.post_body.as_str()
    }
}

/// The records of a run of articles, in order.
pub open spec fn records_of(articles: Seq<Article>) -> Seq<Record> {
    Seq::new(articles.len(), |i: int| articles[i]@)
}

/// The record that the ordinal `n` addresses: the first record has the
/// ordinal one.
pub open spec fn entry_at(records: Seq<Record>, n: int) -> Option<Record> {
    if 1 <= n <= records.len() {
        Some(records[n - 1])
    } else {
        None
    }
}

/// The position of the first record whose slug is `slug`.
pub open spec fn first_with_slug(records: Seq<Record>, slug: Seq<char>) -> Option<int>
    decreases records.len(),
{
    if records.len() == 0 {
        None
    } else {
        match first_with_slug(records.drop_last(), slug) {
            Some(i) => Some(i),
            None => if records.last().slug() == slug {
                Some(records.len() - 1)
            } else {
                None
            },
        }
    }
}

/// The record that `slug` addresses: the first one of that slug.
pub open spec fn entry_named(records: Seq<Record>, slug: Seq<char>) -> Option<Record> {
    match first_with_slug(records, slug) {
        Some(i) => Some(records[i]),
        None => None,
    }
}

/// The record that a route key addresses. A key is a decimal numeral and
/// addresses by ordinal; any other text addresses nothing.
pub open spec fn entry_for_key(records: Seq<Record>, key: Seq<char>) -> Option<Record> {
    match decimal_value(key) {
        Some(n) => entry_at(records, n as int),
        None => None,
    }
}

/// Whether a lookup that found `found` has answered as `expected` asks:
/// a post that says what the expected record says, or nothing where no
/// record is expected.
pub open spec fn answers(found: Option<&Post>, expected: Option<Record>) -> bool {
    match found {
        Some(post) => expected == Some(post@),
        None => expected is None,
    }
}

/// The posts of a server, in the order in which the store handed them out.
/// The index is built once and never changes.
#[derive(Debug)]
pub struct PostIndex {
    posts: Vec<Post>,
}

impl View for PostIndex {
    type V = Seq<Record>;

    closed spec fn view(&self) -> Seq<Record> {
        Seq::new(self.posts@.len(), |i: int| self.posts@[i]@)
    }
}

/// What the listing shows: for every post, in order, its identifier as a
/// numeral and its slug as the label of its link.
pub struct Listing {
    pub ids: Vec<String>,
    pub links: Vec<String>,
}

/// The listing of a run of records.
pub open spec fn listing_of(records: Seq<Record>) -> Seq<(Seq<char>, Seq<char>)> {
    Seq::new(records.len(), |i: int| (decimal_text(records[i].id), records[i].slug()))
}

impl View for Listing {
    type V = Seq<(Seq<char>, Seq<char>)>;

    open spec fn view(&self) -> Seq<(Seq<char>, Seq<char>)> {
        Seq::new(self.ids@.len(), |i: int| (self.ids@[i]@, self.links@[i]@))
    }
}

impl Listing {
    /// Whether every identifier has its label.
    pub open spec fn wf(&self) -> bool {
        self.ids@.len() == self.links@.len()
    }
}

impl PostIndex {
    /// Builds the index of a fetch: one post for every article, in the
    /// order of the fetch.
    pub fn build(articles: Vec<Article>) -> (index: PostIndex)
        ensures
            index@ == records_of(articles@),
    {
        let ghost fetched = articles@;
        let mut posts: Vec<Post> = Vec::new();
        for article in it: articles
            invariant
                it.seq() == fetched,
                posts@.len() == it.index(),
                forall|i: int| 0 <= i < posts@.len() ==> (#[trigger] posts@[i])@ == fetched[i]@,
        {
            posts.push(Post::from_article(article));
        }
        PostIndex { posts }
    }

    /// The number of posts.
    pub fn len(&self) -> (n: usize)
        ensures
            n == self@.len(),
    {
        self.posts.len()
    }

    /// The post at the ordinal `n`, counted from one.
    pub fn lookup_by_ordinal(&self, n: usize) -> (found: Option<&Post>)
        ensures
            found is Some <==> 1 <= n <= self@.len(),
            answers(found, entry_at(self@, n as int)),
    {
        if n > 0 && n <= self.posts.len() {
            Some(&self.posts[n - 1])
        } else {
            None
        }
    }

    /// The first post, in the order of the index, whose slug is `slug`.
    pub fn lookup_by_slug(&self, slug: &str) -> (found: Option<&Post>)
        ensures
            answers(found, entry_named(self@, slug@)),
    {
        let mut i: usize = 0;
        while i < self.posts.len()
            invariant
                i <= self.posts.len(),
                first_with_slug(self@.take(i as int), slug@) is None,
            decreases self.posts.len() - i,
        {
            let post = &self.posts[i];
            proof {
                assert(self@.take(i + 1).drop_last() == self@.take(i as int));
                assert(self@.take(i + 1).last() == post@);
            }
            if same_text(post.slug(), slug) {
                proof {
                    lemma_first_with_slug_extends(self@, slug@, i + 1);
                }
                return Some(post);
            }
            i += 1;
        }
        proof {
            assert(self@.take(i as int) == self@);
        }
        None
    }

    /// The post that a route key addresses: the key is read as a decimal
    /// numeral and taken as an ordinal.
    pub fn lookup(&self, key: &str) -> (found: Option<&Post>)
        ensures
            answers(found, entry_for_key(self@, key@)),
    {
        proof {
            assert(self@.len() == self.posts.len());
        }
        match parse_decimal(key) {
            Some(n) => self.lookup_by_ordinal(n),
            None => None,
        }
    }

    /// The listing: every post in the order of the index.
    pub fn list_all(&self) -> (listing: Listing)
        ensures
            listing.wf(),
            listing@ == listing_of(self@),
    {
        let mut ids: Vec<String> = Vec::new();
        let mut links: Vec<String> = Vec::new();
        let mut i: usize = 0;
        while i < self.posts.len()
            invariant
                i <= self.posts.len(),
                ids@.len() == i,
                links@.len() == i,
                forall|j: int| 0 <= j < i ==> (#[trigger] ids@[j])@ == decimal_text(self@[j].id),
                forall|j: int| 0 <= j < i ==> (#[trigger] links@[j])@ == self@[j].slug(),
            decreases self.posts.len() - i,
        {
            let post = &self.posts[i];
            links.push(post.slug().to_owned());
            ids.push(decimal_string(post.id()));
            i += 1;
        }
        Listing { ids, links }
    }
}

/// An ordinal addresses a record exactly when it lies between one and the
/// number of records; zero and the number after the last address nothing.
pub proof fn lemma_ordinal_within_bounds(records: Seq<Record>, n: int)
    ensures
        entry_at(records, n) is Some <==> 1 <= n <= records.len(),
        entry_at(records, n) matches Some(record) ==> record == records[n - 1],
        entry_at(records, 0) is None,
        entry_at(records, records.len() as int + 1) is None,
{
}

/// An index answers an ordinal with the article that the fetch held at
/// that place.
pub proof fn lemma_ordinal_follows_fetch(articles: Seq<Article>, n: int)
    requires
        1 <= n <= articles.len(),
    ensures
        entry_at(records_of(articles), n) == Some(articles[n - 1]@),
{
}

/// The record that a slug addresses is the first of that slug: it has the
/// slug, and no record before it has. Where a slug addresses nothing, no
/// record has it.
pub proof fn lemma_first_with_slug_is_first(records: Seq<Record>, slug: Seq<char>)
    ensures
        match first_with_slug(records, slug) {
            Some(i) => 0 <= i < records.len() && records[i].slug() == slug && forall|j: int|
                0 <= j < i ==> (#[trigger] records[j]).slug() != slug,
            None => forall|j: int|
                0 <= j < records.len() ==> (#[trigger] records[j]).slug() != slug,
        },
    decreases records.len(),
{
    if records.len() > 0 {
        let before = records.drop_last();
        lemma_first_with_slug_is_first(before, slug);
        assert forall|j: int| 0 <= j < before.len() implies (#[trigger] records[j]) == before[j] by {}
    }
}

/// Asking an unchanged index twice for the same slug gives the same
/// answer: both times nothing, or both times a post that says the same.
pub proof fn lemma_lookup_by_slug_repeats(
    index: &PostIndex,
    slug: Seq<char>,
    first: Option<&Post>,
    second: Option<&Post>,
)
    requires
        answers(first, entry_named(index@, slug)),
        answers(second, entry_named(index@, slug)),
    ensures
        first is Some <==> second is Some,
        first is Some ==> first.unwrap()@ == second.unwrap()@,
{
}

/// A listing has one entry for every record, in the order of the records:
/// the identifier as a numeral and the slug as the label.
pub proof fn lemma_listing_keeps_order(records: Seq<Record>)
    ensures
        listing_of(records).len() == records.len(),
        forall|i: int|
            0 <= i < records.len() ==> #[trigger] listing_of(records)[i] == (
                decimal_text(records[i].id),
                records[i].slug(),
            ),
{
}

/// A match among the first `k` records is the match among all of them.
proof fn lemma_first_with_slug_extends(records: Seq<Record>, slug: Seq<char>, k: int)
    requires
        0 <= k <= records.len(),
        first_with_slug(records.take(k), slug) is Some,
    ensures
        first_with_slug(records, slug) == first_with_slug(records.take(k), slug),
    decreases records.len() - k,
{
    if k < records.len() {
        assert(records.take(k + 1).drop_last() == records.take(k));
        lemma_first_with_slug_extends(records, slug, k + 1);
    } else {
        assert(records.take(k) == records);
    }
}

} // verus!
