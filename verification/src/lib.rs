//! A verified post index for a small blog.
//!
//! The articles of a store are loaded once, in the order in which the store
//! hands them out, and become the posts of an index that never changes.
//! Every post has a slug, its title with hyphens in place of spaces. The
//! index answers lookups by ordinal and by slug, lists its posts, and
//! renders two pages: the listing, and the page of one post with its time
//! shown in a fixed zone nine hours east of Greenwich.
//!
//! The route of one post addresses by ordinal: its key is a decimal
//! numeral, and the first post has the ordinal one. Lookup by slug is there
//! for callers that address by slug; the route does not fall back to it.
//!
//! - [`text`], [`slug`], [`decimal`], [`html`]: the texts that the rest is
//!   made of.
//! - [`clock`]: stored times and their display in another zone.
//! - [`post`]: articles, posts and the index.
//! - [`page`]: what the two pages show, and their HTML.
//! - [`reply`], [`routes`]: what the two routes answer.
//! - [`config`]: the settings of the store, read from an environment.

pub mod clock;
pub mod config;
pub mod decimal;
pub mod html;
pub mod page;
pub mod post;
pub mod reply;
pub mod routes;
pub mod slug;
pub mod text;
