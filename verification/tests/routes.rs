use post_index::clock::{LocalOffset, NaiveTimestamp};
use post_index::post::{Article, PostIndex};
use post_index::reply::{Content, Reply, Status};
use post_index::routes::{index, post, post_with};

const T1: i64 = 1_718_454_645;

fn get_post(state: &PostIndex, key: &str) -> Reply {
    post_with(key, state, LocalOffset::Single(0))
}

fn hello() -> PostIndex {
    PostIndex::build(vec![Article {
        id: 1,
        title: "Hello World".to_string(),
        body: "first".to_string(),
        created_at: NaiveTimestamp { seconds: T1 },
    }])
}

#[test]
fn the_first_post_is_served_with_its_title_and_date() {
    let reply = get_post(&hello(), "1");
    assert_eq!(reply.status.code(), 200);
    assert_eq!(reply.content, Content::Html);
    assert!(reply.body.contains("<h1>Hello World</h1>"));
    assert!(reply.body.contains("<time>2024-06-15 21:30:45</time>"));
    assert!(reply.body.contains("<article>first</article>"));
}

#[test]
fn the_post_after_the_last_is_not_found() {
    let reply = get_post(&hello(), "2");
    assert_eq!(reply.status.code(), 404);
    assert_eq!(reply.content, Content::PlainText);
    assert_eq!(reply.body, "404 not found");
}

#[test]
fn the_post_before_the_first_is_not_found() {
    let reply = get_post(&hello(), "0");
    assert_eq!(reply.status.code(), 404);
    assert_eq!(reply.body, "404 not found");
}

#[test]
fn a_key_that_is_no_number_is_not_found() {
    for key in ["", "first", "Hello-World", "1a", "-1", "1/"] {
        let reply = get_post(&hello(), key);
        assert_eq!(reply.status, Status::NotFound, "{:?}", key);
        assert_eq!(reply.body, "404 not found");
    }
}

#[test]
fn the_listing_links_to_the_slug() {
    let reply = index(&hello());
    assert_eq!(reply.status.code(), 200);
    assert_eq!(reply.content, Content::Html);
    assert!(reply.body.contains("<a href=\"/post/1\">Hello-World</a>"));
    assert_eq!(reply.body.matches("<a ").count(), 1);
}

#[test]
fn an_empty_index_serves_an_empty_listing() {
    let state = PostIndex::build(Vec::new());
    let reply = index(&state);
    assert_eq!(reply.status, Status::Success);
    assert_eq!(reply.content, Content::Html);
    assert_eq!(reply.body.matches("<a ").count(), 0);
    assert!(reply.body.contains("<ul>\n</ul>"));
}

#[test]
fn an_empty_index_has_no_first_post() {
    let state = PostIndex::build(Vec::new());
    let reply = get_post(&state, "1");
    assert_eq!(reply.status.code(), 404);
    assert_eq!(reply.body, "404 not found");
    assert_eq!(post("1", &state).status.code(), 404);
}

#[test]
fn a_listing_of_many_posts_has_as_many_links_in_order() {
    let articles: Vec<Article> = (1..=5)
        .map(|i| Article {
            id: i * 11,
            title: format!("Post number {}", i),
            body: String::new(),
            created_at: NaiveTimestamp { seconds: T1 },
        })
        .collect();
    let state = PostIndex::build(articles);
    let reply = index(&state);
    assert_eq!(reply.body.matches("<a ").count(), 5);
    let mut from = 0;
    for i in 1..=5 {
        let link = format!("<li><a href=\"/post/{}\">Post-number-{}</a></li>\n", i * 11, i);
        assert!(reply.body[from..].starts_with(&link) || from == 0);
        let at = reply.body[from..].find(&link).expect("link in order");
        from += at + link.len();
    }
    assert_eq!(&reply.body[from..], "</ul>\n</body>\n</html>\n");
}

#[test]
fn a_post_whose_time_cannot_be_shown_is_answered_with_500() {
    let state = hello();
    for local in [LocalOffset::Missing, LocalOffset::Ambiguous(3_600, 0)] {
        let reply = post_with("1", &state, local);
        assert_eq!(reply.status.code(), 500);
        assert_eq!(reply.content, Content::PlainText);
        assert_eq!(reply.body, "try again later");
    }
    let far = PostIndex::build(vec![Article {
        id: 1,
        title: "far".to_string(),
        body: String::new(),
        created_at: NaiveTimestamp { seconds: i64::MAX - 10 },
    }]);
    assert_eq!(post_with("1", &far, LocalOffset::Single(0)).status.code(), 500);
    assert_eq!(post_with("2", &far, LocalOffset::Single(0)).status.code(), 404);
}

#[test]
fn the_zone_of_this_machine_serves_the_post_or_fails_with_500() {
    let reply = post("1", &hello());
    match reply.status {
        Status::Success => {
            assert_eq!(reply.content, Content::Html);
            assert!(reply.body.contains("<h1>Hello World</h1>"));
            assert!(reply.body.contains("<time>2024-06-1"));
        }
        Status::InternalServerError => assert_eq!(reply.body, "try again later"),
        Status::NotFound => panic!("the first post is there"),
    }
}

#[test]
fn a_title_cannot_add_a_link_to_the_listing() {
    let state = PostIndex::build(vec![
        Article {
            id: 1,
            title: "<a href=\"/post/2\">free</a>".to_string(),
            body: String::new(),
            created_at: NaiveTimestamp { seconds: T1 },
        },
        Article {
            id: 2,
            title: "</ul><li><a href='x'>".to_string(),
            body: String::new(),
            created_at: NaiveTimestamp { seconds: T1 },
        },
    ]);
    let reply = index(&state);
    assert_eq!(reply.body.matches("<a").count(), 2);
    assert_eq!(reply.body.matches("<li>").count(), 2);
    assert!(reply.body.contains(
        "<li><a href=\"/post/1\">&lt;a-href=&quot;/post/2&quot;&gt;free&lt;/a&gt;</a></li>\n"
    ));
    assert!(reply.body.contains(
        "<li><a href=\"/post/2\">&lt;/ul&gt;&lt;li&gt;&lt;a-href=&#x27;x&#x27;&gt;</a></li>\n"
    ));
}
