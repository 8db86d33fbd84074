//! Plain-data model of a syndication feed.
//!
//! A fetched feed is normalized by the application into this model before it
//! reaches the verified pipeline.  Only entry titles are ever replaced; every
//! other field passes through unchanged.  Timestamps are carried as Unix
//! epoch seconds.

use vstd::prelude::*;

verus! {

/// The format the feed was originally served in; it picks the renderer.
#[derive(Clone, Copy, Debug, PartialEq, Eq, Structural)]
pub enum FeedFormat {
    Rss0,
    Rss1,
    Rss2,
    Atom,
    Json,
}

/// A text field together with whether its content is HTML.
pub struct FeedText {
    pub content: String,
    pub is_html: bool,
}

/// A link attached to a feed or an entry.
pub struct FeedLink {
    pub href: String,
    pub rel: Option<String>,
    pub media_type: Option<String>,
    pub title: Option<String>,
    /// Length of the linked resource in bytes, already rendered as text.
    pub length: Option<String>,
}

/// An author of a feed or an entry.
pub struct FeedPerson {
    pub name: String,
    pub email: Option<String>,
}

/// A category a feed or an entry belongs to.
pub struct FeedCategory {
    pub term: String,
    pub scheme: Option<String>,
}

/// One item of a feed.
pub struct FeedEntry {
    pub title: Option<String>,
    pub id: String,
    pub links: Vec<FeedLink>,
    pub summary: Option<FeedText>,
    pub updated: Option<i64>,
    pub published: Option<i64>,
    pub authors: Vec<FeedPerson>,
    pub categories: Vec<FeedCategory>,
}

/// A normalized feed.
pub struct NormalizedFeed {
    pub format: FeedFormat,
    pub title: Option<String>,
    pub id: String,
    pub links: Vec<FeedLink>,
    pub description: Option<FeedText>,
    pub updated: Option<i64>,
    pub icon: Option<String>,
    pub logo: Option<String>,
    pub authors: Vec<FeedPerson>,
    pub categories: Vec<FeedCategory>,
    pub entries: Vec<FeedEntry>,
}

/// The character-level view of an optional string.
pub open spec fn opt_view(o: Option<String>) -> Option<Seq<char>> {
    match o {
        Some(s) => Some(s@),
        None => None,
    }
}

/// A copy of an optional string.
pub fn opt_clone(o: &Option<String>) -> (r: Option<String>)
    ensures
        r == *o,
{
    match o {
        Some(s) => Some(s.clone()),
        None => None,
    }
}

/// Whether every entry of the feed carries a title.
pub open spec fn all_have_titles(feed: NormalizedFeed) -> bool {
    forall|i: int| 0 <= i < feed.entries@.len() ==> feed.entries@[i].title is Some
}

/// The raw title of each entry, for feeds where every entry has one.
pub open spec fn raw_titles(feed: NormalizedFeed) -> Seq<String> {
    feed.entries@.map_values(|e: FeedEntry| e.title.unwrap())
}

/// Two entries that agree on everything except possibly the title.
pub open spec fn same_except_title(a: FeedEntry, b: FeedEntry) -> bool {
    &&& a.id == b.id
    &&& a.links == b.links
    &&& a.summary == b.summary
    &&& a.updated == b.updated
    &&& a.published == b.published
    &&& a.authors == b.authors
    &&& a.categories == b.categories
}

/// Two feeds that agree on everything except their entry list.
pub open spec fn same_except_entries(a: NormalizedFeed, b: NormalizedFeed) -> bool {
    &&& a.format == b.format
    &&& a.title == b.title
    &&& a.id == b.id
    &&& a.links == b.links
    &&& a.description == b.description
    &&& a.updated == b.updated
    &&& a.icon == b.icon
    &&& a.logo == b.logo
    &&& a.authors == b.authors
    &&& a.categories == b.categories
}

} // verus!
