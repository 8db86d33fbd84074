//! The RSS renderer.
//!
//! The verified code performs the whole field mapping — title fallback,
//! first-link selection, author joining, timestamp formatting — and hands
//! the mapped plain values to the `rss` crate through small trusted
//! wrappers.  What each built channel holds is tracked by an uninterpreted
//! model, so the rendered text is pinned, through `rss_xml_of`, to exactly
//! the mapped fields.

use vstd::prelude::*;
use vstd::string::StringExecFns;

use crate::feed::{opt_clone, opt_view, FeedEntry, NormalizedFeed, FeedPerson};

verus! {

/// What one `rss::Item` holds of the fields this library sets.
#[verifier::ext_equal]
pub struct RssItemRep {
    pub title: Option<Seq<char>>,
    pub link: Option<Seq<char>>,
    pub description: Option<Seq<char>>,
    pub pub_date: Option<Seq<char>>,
    pub author: Option<Seq<char>>,
    pub categories: Seq<(Seq<char>, Option<Seq<char>>)>,
}

/// What one `rss::Channel` holds of the fields this library sets.
#[verifier::ext_equal]
pub struct RssChannelRep {
    pub title: Seq<char>,
    pub link: Seq<char>,
    pub description: Seq<char>,
    pub last_build_date: Option<Seq<char>>,
    pub items: Seq<RssItemRep>,
}

#[verifier::external_type_specification]
#[verifier::external_body]
pub struct ExRssChannel(rss::Channel);

#[verifier::external_type_specification]
#[verifier::external_body]
pub struct ExRssItem(rss::Item);

/// The fields an `rss::Item` value holds.
pub uninterp spec fn rss_item_rep(item: rss::Item) -> RssItemRep;

/// The fields an `rss::Channel` value holds.
pub uninterp spec fn rss_channel_rep(channel: rss::Channel) -> RssChannelRep;

/// The RFC 2822 rendering of a Unix timestamp, in UTC.
pub uninterp spec fn rfc2822_of(epoch_secs: i64) -> Seq<char>;

/// The timestamps RFC 2822 can carry: years 0 through 9999, in UTC.  A
/// feed's update time outside this range is left out of the channel.
pub open spec fn rfc2822_representable(epoch_secs: i64) -> bool {
    -62_167_219_200 <= epoch_secs < 253_402_300_800
}

/// Whether RFC 2822 can carry this timestamp.
fn rfc2822_in_range(epoch_secs: i64) -> (r: bool)
    ensures
        r == rfc2822_representable(epoch_secs),
{
    -62_167_219_200 <= epoch_secs && epoch_secs < 253_402_300_800
}

/// Relies on chrono's `DateTime::from_timestamp` and `to_rfc2822`: both
/// depend on the timestamp alone (the offset is fixed to UTC and the
/// weekday and month names on the fixed POSIX locale).  The required range
/// keeps the year in 0 through 9999, which `from_timestamp` accepts and
/// `to_rfc2822` can write out; `to_rfc2822` panics outside it.
#[verifier::external_body]
fn format_rfc2822(epoch_secs: i64) -> (r: String)
    requires
        rfc2822_representable(epoch_secs),
    ensures
        r@ == rfc2822_of(epoch_secs),
{
    chrono::DateTime::from_timestamp(epoch_secs, 0)
        .map(|t| t.to_rfc2822())
        .unwrap_or_default()
}

/// Relies on the `rss` crate's `Channel` being a plain record: the struct
/// literal stores exactly these fields, everything else stays at its
/// (empty) default.
#[verifier::external_body]
fn rss_channel_new(
    title: String,
    link: String,
    description: String,
    last_build_date: Option<String>,
) -> (c: rss::Channel)
    ensures
        rss_channel_rep(c) == (RssChannelRep {
            title: title@,
            link: link@,
            description: description@,
            last_build_date: opt_view(last_build_date),
            items: Seq::empty(),
        }),
{
    rss::Channel {
        title,
        link,
        description,
        last_build_date,
        ..rss::Channel::default()
    }
}

/// Relies on the `rss` crate's `Item` being a plain record: the struct
/// literal stores exactly these fields, with no categories yet.
#[verifier::external_body]
fn rss_item_new(
    title: Option<String>,
    link: Option<String>,
    description: Option<String>,
    pub_date: Option<String>,
    author: Option<String>,
) -> (item: rss::Item)
    ensures
        rss_item_rep(item) == (RssItemRep {
            title: opt_view(title),
            link: opt_view(link),
            description: opt_view(description),
            pub_date: opt_view(pub_date),
            author: opt_view(author),
            categories: Seq::empty(),
        }),
{
    rss::Item {
        title,
        link,
        description,
        pub_date,
        author,
        ..rss::Item::default()
    }
}

/// Relies on `rss::Item`'s public `categories` vector: pushing appends one
/// category with exactly this name and domain.
#[verifier::external_body]
fn rss_item_push_category(item: &mut rss::Item, name: String, domain: Option<String>)
    ensures
        rss_item_rep(*final(item)) == (RssItemRep {
            categories: rss_item_rep(*old(item)).categories.push((name@, opt_view(domain))),
            ..rss_item_rep(*old(item))
        }),
{
    item.categories.push(rss::Category { name, domain });
}

/// Relies on `rss::Channel`'s public `items` vector: pushing appends the
/// given item and changes nothing else.
#[verifier::external_body]
fn rss_channel_push_item(channel: &mut rss::Channel, item: rss::Item)
    ensures
        rss_channel_rep(*final(channel)) == (RssChannelRep {
            items: rss_channel_rep(*old(channel)).items.push(rss_item_rep(item)),
            ..rss_channel_rep(*old(channel))
        }),
{
    channel.items.push(item);
}

/// The RSS document text of a channel holding the given fields.
pub uninterp spec fn rss_xml_of(rep: RssChannelRep) -> Seq<char>;

/// Relies on `rss::Channel`'s `Display` implementation: the document it
/// writes is a function of the channel's fields alone.
#[verifier::external_body]
fn rss_channel_to_string(channel: &rss::Channel) -> (r: String)
    ensures
        r@ == rss_xml_of(rss_channel_rep(*channel)),
{
    channel.to_string()
}

/// The names of the authors joined with a comma separator.
pub open spec fn joined_names(authors: Seq<FeedPerson>) -> Seq<char>
    decreases authors.len(),
{
    if authors.len() == 0 {
        Seq::empty()
    } else if authors.len() == 1 {
        authors[0].name@
    } else {
        joined_names(authors.drop_last()) + ", "@ + authors.last().name@
    }
}

/// Joins the author names into one comma-separated field, or `None` when
/// there is no author.
fn join_authors(authors: &Vec<FeedPerson>) -> (r: Option<String>)
    ensures
        authors@.len() == 0 ==> r is None,
        authors@.len() > 0 ==> (r matches Some(joined) && joined@ == joined_names(authors@)),
{
    if authors.len() == 0 {
        return None;
    }
    let mut joined = authors[0].name.clone();
    let n = authors.len();
    assert(joined@ == joined_names(authors@.take(1)));
    for i in 1..n
        invariant
            1 <= i <= n,
            n == authors@.len(),
            joined@ == joined_names(authors@.take(i as int)),
    {
        joined.append(", ");
        joined.append(authors[i].name.as_str());
        proof {
            assert(authors@.take(i + 1).drop_last() =~= authors@.take(i as int));
            assert(authors@.take(i + 1).last() == authors@[i as int]);
        }
    }
    proof {
        assert(authors@.take(n as int) =~= authors@);
    }
    Some(joined)
}

/// What one entry contributes to the channel: title, first link, summary
/// and update time pass through; the authors are joined into one field.
pub open spec fn rss_item_rep_of(e: FeedEntry) -> RssItemRep {
    RssItemRep {
        title: opt_view(e.title),
        link: if e.links@.len() > 0 {
            Some(e.links@[0].href@)
        } else {
            None
        },
        description: match e.summary {
            Some(d) => Some(d.content@),
            None => None,
        },
        pub_date: match e.updated {
            Some(t) => if rfc2822_representable(t) {
                Some(rfc2822_of(t))
            } else {
                None
            },
            None => None,
        },
        author: if e.authors@.len() == 0 {
            None
        } else {
            Some(joined_names(e.authors@))
        },
        categories: e.categories@.map_values(|c: crate::feed::FeedCategory| (c.term@, opt_view(
            c.scheme))),
    }
}

/// The channel a feed maps to: an untitled feed falls back to "Untitled",
/// the channel link is the feed's first link, and each entry becomes one
/// item in order.
pub open spec fn rss_channel_rep_of(feed: NormalizedFeed) -> RssChannelRep {
    RssChannelRep {
        title: match feed.title {
            Some(t) => t@,
            None => "Untitled"@,
        },
        link: if feed.links@.len() > 0 {
            feed.links@[0].href@
        } else {
            Seq::empty()
        },
        description: match feed.description {
            Some(d) => d.content@,
            None => Seq::empty(),
        },
        last_build_date: match feed.updated {
            Some(t) => if rfc2822_representable(t) {
                Some(rfc2822_of(t))
            } else {
                None
            },
            None => None,
        },
        items: feed.entries@.map_values(|e: FeedEntry| rss_item_rep_of(e)),
    }
}

/// Renders feeds in the RSS formats.
pub struct RssGenerator;

impl RssGenerator {
    pub fn new() -> (r: RssGenerator) {
        RssGenerator {  }
    }

    /// The RSS document for the given feed: exactly the text the `rss`
    /// crate writes for the channel the feed maps to.
    pub fn generate_feed(&self, feed: &NormalizedFeed) -> (r: String)
        ensures
            r@ == rss_xml_of(rss_channel_rep_of(*feed)),
    {
        let channel_title = match &feed.title {
            Some(t) => t.clone(),
            None => String::from_str("Untitled"),
        };
        let channel_link = if feed.links.len() > 0 {
            feed.links[0].href.clone()
        } else {
            String::new()
        };
        let channel_description = match &feed.description {
            Some(d) => d.content.clone(),
            None => String::new(),
        };
        let channel_last_build_date = match feed.updated {
            Some(t) => if rfc2822_in_range(t) {
                Some(format_rfc2822(t))
            } else {
                None
            },
            None => None,
        };
        let mut channel = rss_channel_new(
            channel_title,
            channel_link,
            channel_description,
            channel_last_build_date,
        );
        let ghost fixed = rss_channel_rep_of(*feed);
        proof {
            assert(feed.entries@.take(0).map_values(|e: FeedEntry| rss_item_rep_of(e))
                =~= Seq::<RssItemRep>::empty());
            assert(rss_channel_rep(channel) =~~= (RssChannelRep {
                items: feed.entries@.take(0).map_values(|e: FeedEntry| rss_item_rep_of(e)),
                ..fixed
            }));
        }
        let n = feed.entries.len();
        for i in 0..n
            invariant
                n == feed.entries@.len(),
                fixed == rss_channel_rep_of(*feed),
                rss_channel_rep(channel) == (RssChannelRep {
                    items: feed.entries@.take(i as int).map_values(|e: FeedEntry| rss_item_rep_of(
                        e)),
                    ..fixed
                }),
        {
            let e = &feed.entries[i];
            let item_title = opt_clone(&e.title);
            let item_link = if e.links.len() > 0 {
                Some(e.links[0].href.clone())
            } else {
                None
            };
            let item_description = match &e.summary {
                Some(d) => Some(d.content.clone()),
                None => None,
            };
            let item_pub_date = match e.updated {
                Some(t) => if rfc2822_in_range(t) {
                    Some(format_rfc2822(t))
                } else {
                    None
                },
                None => None,
            };
            let item_author = join_authors(&e.authors);
            let mut item = rss_item_new(
                item_title,
                item_link,
                item_description,
                item_pub_date,
                item_author,
            );
            let m = e.categories.len();
            let ghost item_fixed = rss_item_rep_of(*e);
            proof {
                assert(e.categories@.take(0).map_values(
                    |c: crate::feed::FeedCategory| (c.term@, opt_view(c.scheme)))
                    =~= Seq::<(Seq<char>, Option<Seq<char>>)>::empty());
                assert(rss_item_rep(item) =~~= (RssItemRep {
                    categories: e.categories@.take(0).map_values(
                        |c: crate::feed::FeedCategory| (c.term@, opt_view(c.scheme))),
                    ..item_fixed
                }));
            }
            for j in 0..m
                invariant
                    m == e.categories@.len(),
                    item_fixed == rss_item_rep_of(*e),
                    rss_item_rep(item) == (RssItemRep {
                        categories: e.categories@.take(j as int).map_values(
                            |c: crate::feed::FeedCategory| (c.term@, opt_view(c.scheme))),
                        ..item_fixed
                    }),
            {
                let c = &e.categories[j];
                rss_item_push_category(&mut item, c.term.clone(), opt_clone(&c.scheme));
                proof {
                    assert(e.categories@.take(j + 1).drop_last() =~= e.categories@.take(
                        j as int));
                    assert(rss_item_rep(item).categories =~~= e.categories@.take(j + 1)
                        .map_values(|c: crate::feed::FeedCategory| (c.term@, opt_view(
                        c.scheme))));
                    assert(rss_item_rep(item) =~~= (RssItemRep {
                        categories: e.categories@.take(j + 1).map_values(
                            |c: crate::feed::FeedCategory| (c.term@, opt_view(c.scheme))),
                        ..item_fixed
                    }));
                }
            }
            proof {
                assert(e.categories@.take(m as int) =~= e.categories@);
                assert(rss_item_rep(item) =~~= rss_item_rep_of(feed.entries@[i as int]));
            }
            rss_channel_push_item(&mut channel, item);
            proof {
                assert(feed.entries@.take(i + 1).drop_last() =~= feed.entries@.take(i as int));
                assert(rss_channel_rep(channel).items =~~= feed.entries@.take(i + 1)
                    .map_values(|e: FeedEntry| rss_item_rep_of(e)));
                assert(rss_channel_rep(channel) =~~= (RssChannelRep {
                    items: feed.entries@.take(i + 1).map_values(|e: FeedEntry| rss_item_rep_of(e)),
                    ..fixed
                }));
            }
        }
        proof {
            assert(feed.entries@.take(n as int) =~= feed.entries@);
            assert(rss_channel_rep(channel) =~~= rss_channel_rep_of(*feed));
        }
        rss_channel_to_string(&channel)
    }

    /// The content type RSS documents are served with.
    pub fn content_type(&self) -> (r: String)
        ensures
            r@ == "application/rss+xml"@,
    {
        String::from_str("application/rss+xml")
    }
}

} // verus!
