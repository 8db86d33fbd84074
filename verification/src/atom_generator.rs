//! The Atom renderer.
//!
//! As with the RSS renderer, the verified code performs the whole field
//! mapping and hands plain values to `atom_syndication` through small
//! trusted wrappers; an uninterpreted model tracks what each built feed
//! holds, so the rendered text is pinned, through `atom_xml_of`, to
//! exactly the mapped fields.  Timestamps enter the model as the epoch
//! seconds they were set from; a feed keeps its default epoch timestamp
//! (modelled as `None`) until one is set.

use vstd::prelude::*;
use vstd::string::StringExecFns;

use crate::feed::{opt_clone, opt_view, FeedCategory, FeedLink, FeedPerson};

verus! {

/// What one `atom_syndication::Link` holds of the fields this library sets.
#[verifier::ext_equal]
pub struct AtomLinkRep {
    pub href: Seq<char>,
    pub rel: Seq<char>,
    pub mime_type: Option<Seq<char>>,
    pub title: Option<Seq<char>>,
    pub length: Option<Seq<char>>,
}

/// What one `atom_syndication::Entry` holds of the fields this library
/// sets.  `updated` and `published` record the epoch seconds they were set
/// from; `summary` pairs the text with whether it is HTML.
#[verifier::ext_equal]
pub struct AtomEntryRep {
    pub title: Seq<char>,
    pub id: Seq<char>,
    pub updated: Option<int>,
    pub links: Seq<AtomLinkRep>,
    pub summary: Option<(Seq<char>, bool)>,
    pub categories: Seq<(Seq<char>, Option<Seq<char>>)>,
    pub authors: Seq<(Seq<char>, Option<Seq<char>>)>,
    pub published: Option<int>,
}

/// What one `atom_syndication::Feed` holds of the fields this library sets.
#[verifier::ext_equal]
pub struct AtomFeedRep {
    pub title: Seq<char>,
    pub icon: Option<Seq<char>>,
    pub id: Seq<char>,
    pub updated: Option<int>,
    pub links: Seq<AtomLinkRep>,
    pub subtitle: Seq<char>,
    pub authors: Seq<(Seq<char>, Option<Seq<char>>)>,
    pub categories: Seq<(Seq<char>, Option<Seq<char>>)>,
    pub logo: Option<Seq<char>>,
    pub entries: Seq<AtomEntryRep>,
}

#[verifier::external_type_specification]
#[verifier::external_body]
pub struct ExAtomFeed(atom_syndication::Feed);

#[verifier::external_type_specification]
#[verifier::external_body]
pub struct ExAtomEntry(atom_syndication::Entry);

/// The fields an `atom_syndication::Feed` value holds.
pub uninterp spec fn atom_feed_rep(feed: atom_syndication::Feed) -> AtomFeedRep;

/// The fields an `atom_syndication::Entry` value holds.
pub uninterp spec fn atom_entry_rep(entry: atom_syndication::Entry) -> AtomEntryRep;

/// Whether the calendar backend can represent this epoch timestamp.
pub uninterp spec fn epoch_in_chrono_range(epoch_secs: i64) -> bool;

/// Relies on `atom_syndication::Feed` being a plain record with an empty
/// default: the assignments store exactly these fields, the title and
/// subtitle as plain text.
#[verifier::external_body]
fn atom_feed_new(
    title: String,
    icon: Option<String>,
    id: String,
    subtitle: String,
    logo: Option<String>,
) -> (f: atom_syndication::Feed)
    ensures
        atom_feed_rep(f) == (AtomFeedRep {
            title: title@,
            icon: opt_view(icon),
            id: id@,
            updated: None,
            links: Seq::empty(),
            subtitle: subtitle@,
            authors: Seq::empty(),
            categories: Seq::empty(),
            logo: opt_view(logo),
            entries: Seq::empty(),
        }),
{
    let mut f = atom_syndication::Feed::default();
    f.title = atom_syndication::Text::plain(title);
    f.icon = icon;
    f.id = id;
    f.subtitle = Some(atom_syndication::Text::plain(subtitle));
    f.logo = logo;
    f
}

/// Relies on chrono's `DateTime::from_timestamp`, which accepts exactly
/// the in-range timestamps, and on `atom_syndication::Feed`'s public `updated` field.
#[verifier::external_body]
fn atom_feed_set_updated(feed: &mut atom_syndication::Feed, epoch_secs: i64)
    ensures
        atom_feed_rep(*final(feed)) == (AtomFeedRep {
            updated: if epoch_in_chrono_range(epoch_secs) {
                Some(epoch_secs as int)
            } else {
                atom_feed_rep(*old(feed)).updated
            },
            ..atom_feed_rep(*old(feed))
        }),
{
    if let Some(t) = chrono::DateTime::from_timestamp(epoch_secs, 0) {
        feed.updated = t.fixed_offset();
    }
}

/// Relies on `atom_syndication::Feed`'s public `links` vector: pushing appends one link with
/// exactly these fields.
#[verifier::external_body]
fn atom_feed_push_link(
    feed: &mut atom_syndication::Feed,
    href: String,
    rel: String,
    mime_type: Option<String>,
    title: Option<String>,
    length: Option<String>,
)
    ensures
        atom_feed_rep(*final(feed)) == (AtomFeedRep {
            links: atom_feed_rep(*old(feed)).links.push(AtomLinkRep {
                href: href@,
                rel: rel@,
                mime_type: opt_view(mime_type),
                title: opt_view(title),
                length: opt_view(length),
            }),
            ..atom_feed_rep(*old(feed))
        }),
{
    feed.links.push(atom_syndication::Link {
        href,
        rel,
        hreflang: None,
        mime_type,
        title,
        length,
    });
}

/// Relies on `atom_syndication::Feed`'s public `authors` vector: pushing appends one person
/// with exactly this name and email.
#[verifier::external_body]
fn atom_feed_push_author(feed: &mut atom_syndication::Feed, name: String, email: Option<String>)
    ensures
        atom_feed_rep(*final(feed)) == (AtomFeedRep {
            authors: atom_feed_rep(*old(feed)).authors.push((name@, opt_view(email))),
            ..atom_feed_rep(*old(feed))
        }),
{
    feed.authors.push(atom_syndication::Person {
        name,
        email,
        uri: None,
        extensions: Default::default(),
    });
}

/// Relies on `atom_syndication::Feed`'s public `categories` vector: pushing appends one
/// category with exactly this term and scheme.
#[verifier::external_body]
fn atom_feed_push_category(feed: &mut atom_syndication::Feed, term: String, scheme: Option<String>)
    ensures
        atom_feed_rep(*final(feed)) == (AtomFeedRep {
            categories: atom_feed_rep(*old(feed)).categories.push((term@, opt_view(scheme))),
            ..atom_feed_rep(*old(feed))
        }),
{
    feed.categories.push(atom_syndication::Category { term, scheme, label: None });
}

/// Relies on `atom_syndication::Entry` being a plain record with an empty
/// default: the assignments store the title as plain text and the id.
#[verifier::external_body]
fn atom_entry_new(title: String, id: String) -> (e: atom_syndication::Entry)
    ensures
        atom_entry_rep(e) == (AtomEntryRep {
            title: title@,
            id: id@,
            updated: None,
            links: Seq::empty(),
            summary: None,
            categories: Seq::empty(),
            authors: Seq::empty(),
            published: None,
        }),
{
    let mut e = atom_syndication::Entry::default();
    e.title = atom_syndication::Text::plain(title);
    e.id = id;
    e
}

/// Relies on chrono's `DateTime::from_timestamp` and `atom_syndication::Entry`'s public
/// `updated` field, as for the feed.
#[verifier::external_body]
fn atom_entry_set_updated(entry: &mut atom_syndication::Entry, epoch_secs: i64)
    ensures
        atom_entry_rep(*final(entry)) == (AtomEntryRep {
            updated: if epoch_in_chrono_range(epoch_secs) {
                Some(epoch_secs as int)
            } else {
                atom_entry_rep(*old(entry)).updated
            },
            ..atom_entry_rep(*old(entry))
        }),
{
    if let Some(t) = chrono::DateTime::from_timestamp(epoch_secs, 0) {
        entry.updated = t.fixed_offset();
    }
}

/// Relies on chrono's `DateTime::from_timestamp` and `atom_syndication::Entry`'s public
/// `published` field.
#[verifier::external_body]
fn atom_entry_set_published(entry: &mut atom_syndication::Entry, epoch_secs: i64)
    ensures
        atom_entry_rep(*final(entry)) == (AtomEntryRep {
            published: if epoch_in_chrono_range(epoch_secs) {
                Some(epoch_secs as int)
            } else {
                atom_entry_rep(*old(entry)).published
            },
            ..atom_entry_rep(*old(entry))
        }),
{
    if let Some(t) = chrono::DateTime::from_timestamp(epoch_secs, 0) {
        entry.published = Some(t.fixed_offset());
    }
}

/// Relies on `Text::plain` and `atom_syndication::Entry`'s public `summary` field.
#[verifier::external_body]
fn atom_entry_set_summary_plain(entry: &mut atom_syndication::Entry, content: String)
    ensures
        atom_entry_rep(*final(entry)) == (AtomEntryRep {
            summary: Some((content@, false)),
            ..atom_entry_rep(*old(entry))
        }),
{
    entry.summary = Some(atom_syndication::Text::plain(content));
}

/// Relies on `Text::html` and `atom_syndication::Entry`'s public `summary` field.
#[verifier::external_body]
fn atom_entry_set_summary_html(entry: &mut atom_syndication::Entry, content: String)
    ensures
        atom_entry_rep(*final(entry)) == (AtomEntryRep {
            summary: Some((content@, true)),
            ..atom_entry_rep(*old(entry))
        }),
{
    entry.summary = Some(atom_syndication::Text::html(content));
}

/// Relies on `atom_syndication::Entry`'s public `links` vector, as for the feed.
#[verifier::external_body]
fn atom_entry_push_link(
    entry: &mut atom_syndication::Entry,
    href: String,
    rel: String,
    mime_type: Option<String>,
    title: Option<String>,
    length: Option<String>,
)
    ensures
        atom_entry_rep(*final(entry)) == (AtomEntryRep {
            links: atom_entry_rep(*old(entry)).links.push(AtomLinkRep {
                href: href@,
                rel: rel@,
                mime_type: opt_view(mime_type),
                title: opt_view(title),
                length: opt_view(length),
            }),
            ..atom_entry_rep(*old(entry))
        }),
{
    entry.links.push(atom_syndication::Link {
        href,
        rel,
        hreflang: None,
        mime_type,
        title,
        length,
    });
}

/// Relies on `atom_syndication::Entry`'s public `authors` vector, as for the feed.
#[verifier::external_body]
fn atom_entry_push_author(entry: &mut atom_syndication::Entry, name: String, email: Option<String>)
    ensures
        atom_entry_rep(*final(entry)) == (AtomEntryRep {
            authors: atom_entry_rep(*old(entry)).authors.push((name@, opt_view(email))),
            ..atom_entry_rep(*old(entry))
        }),
{
    entry.authors.push(atom_syndication::Person {
        name,
        email,
        uri: None,
        extensions: Default::default(),
    });
}

/// Relies on `atom_syndication::Entry`'s public `categories` vector, as for the feed.
#[verifier::external_body]
fn atom_entry_push_category(
    entry: &mut atom_syndication::Entry,
    term: String,
    scheme: Option<String>,
)
    ensures
        atom_entry_rep(*final(entry)) == (AtomEntryRep {
            categories: atom_entry_rep(*old(entry)).categories.push((term@, opt_view(scheme))),
            ..atom_entry_rep(*old(entry))
        }),
{
    entry.categories.push(atom_syndication::Category { term, scheme, label: None });
}

/// Relies on `atom_syndication::Feed`'s public `entries` vector: pushing appends the given
/// entry and changes nothing else.
#[verifier::external_body]
fn atom_feed_push_entry(feed: &mut atom_syndication::Feed, entry: atom_syndication::Entry)
    ensures
        atom_feed_rep(*final(feed)) == (AtomFeedRep {
            entries: atom_feed_rep(*old(feed)).entries.push(atom_entry_rep(entry)),
            ..atom_feed_rep(*old(feed))
        }),
{
    feed.entries.push(entry);
}

/// The Atom document text of a feed holding the given fields.
pub uninterp spec fn atom_xml_of(rep: AtomFeedRep) -> Seq<char>;

/// Relies on `atom_syndication::Feed`'s `ToString` implementation: the
/// document it writes is a function of the feed's fields alone.
#[verifier::external_body]
fn atom_feed_to_string(feed: &atom_syndication::Feed) -> (r: String)
    ensures
        r@ == atom_xml_of(atom_feed_rep(*feed)),
{
    feed.to_string()
}

/// What one link maps to: a missing relationship falls back to the
/// default "alternate".
pub open spec fn atom_link_rep_of(l: FeedLink) -> AtomLinkRep {
    AtomLinkRep {
        href: l.href@,
        rel: match l.rel {
            Some(r) => r@,
            None => "alternate"@,
        },
        mime_type: opt_view(l.media_type),
        title: opt_view(l.title),
        length: opt_view(l.length),
    }
}

/// What one author maps to.
pub open spec fn person_rep_of(p: FeedPerson) -> (Seq<char>, Option<Seq<char>>) {
    (p.name@, opt_view(p.email))
}

/// What one category maps to.
pub open spec fn category_rep_of(c: FeedCategory) -> (Seq<char>, Option<Seq<char>>) {
    (c.term@, opt_view(c.scheme))
}

/// The timestamp recorded when `t` is set on a fresh field: the value
/// itself when the calendar backend accepts it, else nothing.
pub open spec fn recorded_time(t: Option<i64>) -> Option<int> {
    match t {
        Some(secs) => if epoch_in_chrono_range(secs) {
            Some(secs as int)
        } else {
            None
        },
        None => None,
    }
}

/// What one entry maps to: an untitled entry falls back to "Untitle", and
/// a missing summary becomes an empty plain-text one.
pub open spec fn atom_entry_rep_of(e: crate::feed::FeedEntry) -> AtomEntryRep {
    AtomEntryRep {
        title: match e.title {
            Some(t) => t@,
            None => "Untitle"@,
        },
        id: e.id@,
        updated: recorded_time(e.updated),
        links: e.links@.map_values(|l: FeedLink| atom_link_rep_of(l)),
        summary: match e.summary {
            Some(d) => Some((d.content@, d.is_html)),
            None => Some((Seq::empty(), false)),
        },
        categories: e.categories@.map_values(|c: FeedCategory| category_rep_of(c)),
        authors: e.authors@.map_values(|p: FeedPerson| person_rep_of(p)),
        published: recorded_time(e.published),
    }
}

/// The Atom feed a normalized feed maps to: an untitled feed falls back to
/// "Untitled", the description becomes the subtitle, and each entry maps in
/// order.
pub open spec fn atom_feed_rep_of(feed: crate::feed::NormalizedFeed) -> AtomFeedRep {
    AtomFeedRep {
        title: match feed.title {
            Some(t) => t@,
            None => "Untitled"@,
        },
        icon: opt_view(feed.icon),
        id: feed.id@,
        updated: recorded_time(feed.updated),
        links: feed.links@.map_values(|l: FeedLink| atom_link_rep_of(l)),
        subtitle: match feed.description {
            Some(d) => d.content@,
            None => Seq::empty(),
        },
        authors: feed.authors@.map_values(|p: FeedPerson| person_rep_of(p)),
        categories: feed.categories@.map_values(|c: FeedCategory| category_rep_of(c)),
        logo: opt_view(feed.logo),
        entries: feed.entries@.map_values(|e: crate::feed::FeedEntry| atom_entry_rep_of(e)),
    }
}

/// The relationship value a link is stored with.
fn link_rel_value(l: &FeedLink) -> (r: String)
    ensures
        r@ == atom_link_rep_of(*l).rel,
{
    match &l.rel {
        Some(rel) => rel.clone(),
        None => String::from_str("alternate"),
    }
}

/// Renders feeds in the Atom format.
pub struct AtomGenerator;

impl AtomGenerator {
    pub fn new() -> (r: AtomGenerator) {
        AtomGenerator {  }
    }

    /// The Atom document for the given feed: exactly the text
    /// `atom_syndication` writes for the feed it maps to.
    pub fn generate_feed(&self, feed: &crate::feed::NormalizedFeed) -> (r: String)
        ensures
            r@ == atom_xml_of(atom_feed_rep_of(*feed)),
    {
        let feed_title = match &feed.title {
            Some(t) => t.clone(),
            None => String::from_str("Untitled"),
        };
        let feed_subtitle = match &feed.description {
            Some(d) => d.content.clone(),
            None => String::new(),
        };
        let mut atom = atom_feed_new(
            feed_title,
            opt_clone(&feed.icon),
            feed.id.clone(),
            feed_subtitle,
            opt_clone(&feed.logo),
        );
        match feed.updated {
            Some(t) => atom_feed_set_updated(&mut atom, t),
            None => {},
        }
        let ghost target = atom_feed_rep_of(*feed);
        proof {
            assert(feed.links@.take(0).map_values(|l: FeedLink| atom_link_rep_of(l))
                =~= Seq::<AtomLinkRep>::empty());
            assert(atom_feed_rep(atom) =~~= (AtomFeedRep {
                links: feed.links@.take(0).map_values(|l: FeedLink| atom_link_rep_of(l)),
                authors: Seq::empty(),
                categories: Seq::empty(),
                entries: Seq::empty(),
                ..target
            }));
        }
        let n_links = feed.links.len();
        for i in 0..n_links
            invariant
                n_links == feed.links@.len(),
                target == atom_feed_rep_of(*feed),
                atom_feed_rep(atom) == (AtomFeedRep {
                    links: feed.links@.take(i as int).map_values(|l: FeedLink| atom_link_rep_of(
                        l)),
                    authors: Seq::empty(),
                    categories: Seq::empty(),
                    entries: Seq::empty(),
                    ..target
                }),
        {
            let l = &feed.links[i];
            atom_feed_push_link(
                &mut atom,
                l.href.clone(),
                link_rel_value(l),
                opt_clone(&l.media_type),
                opt_clone(&l.title),
                opt_clone(&l.length),
            );
            proof {
                assert(feed.links@.take(i + 1).drop_last() =~= feed.links@.take(i as int));
                assert(atom_feed_rep(atom).links =~~= feed.links@.take(i + 1).map_values(
                    |l: FeedLink| atom_link_rep_of(l)));
                assert(atom_feed_rep(atom) =~~= (AtomFeedRep {
                    links: feed.links@.take(i + 1).map_values(|l: FeedLink| atom_link_rep_of(
                        l)),
                    authors: Seq::empty(),
                    categories: Seq::empty(),
                    entries: Seq::empty(),
                    ..target
                }));
            }
        }
        proof {
            assert(feed.links@.take(n_links as int) =~= feed.links@);
            assert(feed.authors@.take(0).map_values(|p: FeedPerson| person_rep_of(p))
                =~= Seq::<(Seq<char>, Option<Seq<char>>)>::empty());
        }
        let n_authors = feed.authors.len();
        for i in 0..n_authors
            invariant
                n_authors == feed.authors@.len(),
                target == atom_feed_rep_of(*feed),
                atom_feed_rep(atom) == (AtomFeedRep {
                    authors: feed.authors@.take(i as int).map_values(|p: FeedPerson|
                        person_rep_of(p)),
                    categories: Seq::empty(),
                    entries: Seq::empty(),
                    ..target
                }),
        {
            let p = &feed.authors[i];
            atom_feed_push_author(&mut atom, p.name.clone(), opt_clone(&p.email));
            proof {
                assert(feed.authors@.take(i + 1).drop_last() =~= feed.authors@.take(i as int));
                assert(atom_feed_rep(atom).authors =~~= feed.authors@.take(i + 1).map_values(
                    |p: FeedPerson| person_rep_of(p)));
                assert(atom_feed_rep(atom) =~~= (AtomFeedRep {
                    authors: feed.authors@.take(i + 1).map_values(|p: FeedPerson| person_rep_of(
                        p)),
                    categories: Seq::empty(),
                    entries: Seq::empty(),
                    ..target
                }));
            }
        }
        proof {
            assert(feed.authors@.take(n_authors as int) =~= feed.authors@);
            assert(feed.categories@.take(0).map_values(|c: FeedCategory| category_rep_of(c))
                =~= Seq::<(Seq<char>, Option<Seq<char>>)>::empty());
        }
        let n_categories = feed.categories.len();
        for i in 0..n_categories
            invariant
                n_categories == feed.categories@.len(),
                target == atom_feed_rep_of(*feed),
                atom_feed_rep(atom) == (AtomFeedRep {
                    categories: feed.categories@.take(i as int).map_values(|c: FeedCategory|
                        category_rep_of(c)),
                    entries: Seq::empty(),
                    ..target
                }),
        {
            let c = &feed.categories[i];
            atom_feed_push_category(&mut atom, c.term.clone(), opt_clone(&c.scheme));
            proof {
                assert(feed.categories@.take(i + 1).drop_last() =~= feed.categories@.take(
                    i as int));
                assert(atom_feed_rep(atom).categories =~~= feed.categories@.take(i + 1)
                    .map_values(|c: FeedCategory| category_rep_of(c)));
                assert(atom_feed_rep(atom) =~~= (AtomFeedRep {
                    categories: feed.categories@.take(i + 1).map_values(|c: FeedCategory|
                        category_rep_of(c)),
                    entries: Seq::empty(),
                    ..target
                }));
            }
        }
        proof {
            assert(feed.categories@.take(n_categories as int) =~= feed.categories@);
            assert(feed.entries@.take(0).map_values(|e: crate::feed::FeedEntry| atom_entry_rep_of(e))
                =~= Seq::<AtomEntryRep>::empty());
        }
        let n_entries = feed.entries.len();
        for i in 0..n_entries
            invariant
                n_entries == feed.entries@.len(),
                target == atom_feed_rep_of(*feed),
                atom_feed_rep(atom) == (AtomFeedRep {
                    entries: feed.entries@.take(i as int).map_values(|e: crate::feed::FeedEntry|
                        atom_entry_rep_of(e)),
                    ..target
                }),
        {
            let e = &feed.entries[i];
            let entry = self.build_entry(e);
            atom_feed_push_entry(&mut atom, entry);
            proof {
                assert(feed.entries@.take(i + 1).drop_last() =~= feed.entries@.take(i as int));
                assert(atom_feed_rep(atom).entries =~~= feed.entries@.take(i + 1).map_values(
                    |e: crate::feed::FeedEntry| atom_entry_rep_of(e)));
                assert(atom_feed_rep(atom) =~~= (AtomFeedRep {
                    entries: feed.entries@.take(i + 1).map_values(|e: crate::feed::FeedEntry| atom_entry_rep_of(
                        e)),
                    ..target
                }));
            }
        }
        proof {
            assert(feed.entries@.take(n_entries as int) =~= feed.entries@);
            assert(atom_feed_rep(atom) =~~= atom_feed_rep_of(*feed));
        }
        atom_feed_to_string(&atom)
    }

    /// Builds the Atom entry one feed entry maps to.
    fn build_entry(&self, e: &crate::feed::FeedEntry) -> (r: atom_syndication::Entry)
        ensures
            atom_entry_rep(r) == atom_entry_rep_of(*e),
    {
        let item_title = match &e.title {
            Some(t) => t.clone(),
            None => String::from_str("Untitle"),
        };
        let mut entry = atom_entry_new(item_title, e.id.clone());
        match e.updated {
            Some(t) => atom_entry_set_updated(&mut entry, t),
            None => {},
        }
        let ghost target = atom_entry_rep_of(*e);
        proof {
            assert(e.links@.take(0).map_values(|l: FeedLink| atom_link_rep_of(l))
                =~= Seq::<AtomLinkRep>::empty());
            assert(atom_entry_rep(entry) =~~= (AtomEntryRep {
                links: e.links@.take(0).map_values(|l: FeedLink| atom_link_rep_of(l)),
                summary: None,
                categories: Seq::empty(),
                authors: Seq::empty(),
                published: None,
                ..target
            }));
        }
        let n_links = e.links.len();
        for i in 0..n_links
            invariant
                n_links == e.links@.len(),
                target == atom_entry_rep_of(*e),
                atom_entry_rep(entry) == (AtomEntryRep {
                    links: e.links@.take(i as int).map_values(|l: FeedLink| atom_link_rep_of(
                        l)),
                    summary: None,
                    categories: Seq::empty(),
                    authors: Seq::empty(),
                    published: None,
                    ..target
                }),
        {
            let l = &e.links[i];
            atom_entry_push_link(
                &mut entry,
                l.href.clone(),
                link_rel_value(l),
                opt_clone(&l.media_type),
                opt_clone(&l.title),
                opt_clone(&l.length),
            );
            proof {
                assert(e.links@.take(i + 1).drop_last() =~= e.links@.take(i as int));
                assert(atom_entry_rep(entry).links =~~= e.links@.take(i + 1).map_values(
                    |l: FeedLink| atom_link_rep_of(l)));
                assert(atom_entry_rep(entry) =~~= (AtomEntryRep {
                    links: e.links@.take(i + 1).map_values(|l: FeedLink| atom_link_rep_of(l)),
                    summary: None,
                    categories: Seq::empty(),
                    authors: Seq::empty(),
                    published: None,
                    ..target
                }));
            }
        }
        proof {
            assert(e.links@.take(n_links as int) =~= e.links@);
        }
        match &e.summary {
            Some(d) => {
                if d.is_html {
                    atom_entry_set_summary_html(&mut entry, d.content.clone());
                } else {
                    atom_entry_set_summary_plain(&mut entry, d.content.clone());
                }
            },
            None => {
                atom_entry_set_summary_plain(&mut entry, String::new());
            },
        }
        proof {
            assert(e.categories@.take(0).map_values(|c: FeedCategory| category_rep_of(c))
                =~= Seq::<(Seq<char>, Option<Seq<char>>)>::empty());
        }
        let n_categories = e.categories.len();
        for i in 0..n_categories
            invariant
                n_categories == e.categories@.len(),
                target == atom_entry_rep_of(*e),
                atom_entry_rep(entry) == (AtomEntryRep {
                    categories: e.categories@.take(i as int).map_values(|c: FeedCategory|
                        category_rep_of(c)),
                    authors: Seq::empty(),
                    published: None,
                    ..target
                }),
        {
            let c = &e.categories[i];
            atom_entry_push_category(&mut entry, c.term.clone(), opt_clone(&c.scheme));
            proof {
                assert(e.categories@.take(i + 1).drop_last() =~= e.categories@.take(i as int));
                assert(atom_entry_rep(entry).categories =~~= e.categories@.take(i + 1)
                    .map_values(|c: FeedCategory| category_rep_of(c)));
                assert(atom_entry_rep(entry) =~~= (AtomEntryRep {
                    categories: e.categories@.take(i + 1).map_values(|c: FeedCategory|
                        category_rep_of(c)),
                    authors: Seq::empty(),
                    published: None,
                    ..target
                }));
            }
        }
        proof {
            assert(e.categories@.take(n_categories as int) =~= e.categories@);
            assert(e.authors@.take(0).map_values(|p: FeedPerson| person_rep_of(p))
                =~= Seq::<(Seq<char>, Option<Seq<char>>)>::empty());
        }
        let n_authors = e.authors.len();
        for i in 0..n_authors
            invariant
                n_authors == e.authors@.len(),
                target == atom_entry_rep_of(*e),
                atom_entry_rep(entry) == (AtomEntryRep {
                    authors: e.authors@.take(i as int).map_values(|p: FeedPerson| person_rep_of(
                        p)),
                    published: None,
                    ..target
                }),
        {
            let p = &e.authors[i];
            atom_entry_push_author(&mut entry, p.name.clone(), opt_clone(&p.email));
            proof {
                assert(e.authors@.take(i + 1).drop_last() =~= e.authors@.take(i as int));
                assert(atom_entry_rep(entry).authors =~~= e.authors@.take(i + 1).map_values(
                    |p: FeedPerson| person_rep_of(p)));
                assert(atom_entry_rep(entry) =~~= (AtomEntryRep {
                    authors: e.authors@.take(i + 1).map_values(|p: FeedPerson| person_rep_of(
                        p)),
                    published: None,
                    ..target
                }));
            }
        }
        proof {
            assert(e.authors@.take(n_authors as int) =~= e.authors@);
        }
        match e.published {
            Some(t) => atom_entry_set_published(&mut entry, t),
            None => {},
        }
        proof {
            assert(atom_entry_rep(entry) =~~= atom_entry_rep_of(*e));
        }
        entry
    }

    /// The content type Atom documents are served with.
    pub fn content_type(&self) -> (r: String)
        ensures
            r@ == "application/atom+xml"@,
    {
        String::from_str("application/atom+xml")
    }
}

} // verus!
