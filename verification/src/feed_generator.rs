//! Render dispatch and the final stage of one request.
//!
//! The feed's format tag, fixed at fetch time, picks the renderer; a format
//! without one fails the request.  `finish_request` takes a request that
//! reached its final phase, merges the translations into the feed and
//! renders it.

use vstd::prelude::*;
use vstd::string::StringExecFns;

use crate::atom_generator::{atom_entry_rep_of, atom_feed_rep_of, atom_xml_of, AtomEntryRep,
    AtomFeedRep, AtomGenerator};
use crate::feed::{raw_titles, FeedEntry, FeedFormat, NormalizedFeed};
use crate::orchestrator::{all_resolved, apply_titles, merge_titles, merged_titles,
    records_match_titles, Orchestrator, Phase, RequestError};
use crate::rss_generator::{rss_channel_rep_of, rss_item_rep_of, rss_xml_of, RssChannelRep,
    RssGenerator, RssItemRep};
use crate::text::trimmed;

verus! {

/// A rendered feed: the response body and the content type it is served
/// with.
pub struct RenderedFeed {
    pub body: String,
    pub content_type: String,
}

/// The formats rendered as RSS.
pub open spec fn is_rss_format(f: FeedFormat) -> bool {
    f == FeedFormat::Rss0 || f == FeedFormat::Rss1 || f == FeedFormat::Rss2
}

/// Renders a feed in its original format: the RSS formats through the RSS
/// renderer, Atom through the Atom renderer.  A JSON feed has no renderer
/// and fails — exactly then.
pub fn render_feed(feed: &NormalizedFeed) -> (r: Result<RenderedFeed, RequestError>)
    ensures
        r is Err <==> feed.format == FeedFormat::Json,
        r matches Err(e) ==> e == RequestError::UnsupportedFormat,
        is_rss_format(feed.format) ==> (r matches Ok(out)
            && out.body@ == rss_xml_of(rss_channel_rep_of(*feed))
            && out.content_type@ == "application/rss+xml"@),
        feed.format == FeedFormat::Atom ==> (r matches Ok(out)
            && out.body@ == atom_xml_of(atom_feed_rep_of(*feed))
            && out.content_type@ == "application/atom+xml"@),
{
    match feed.format {
        FeedFormat::Rss0 | FeedFormat::Rss1 | FeedFormat::Rss2 => {
            let generator = RssGenerator::new();
            Ok(RenderedFeed {
                body: generator.generate_feed(feed),
                content_type: generator.content_type(),
            })
        },
        FeedFormat::Atom => {
            let generator = AtomGenerator::new();
            Ok(RenderedFeed {
                body: generator.generate_feed(feed),
                content_type: generator.content_type(),
            })
        },
        FeedFormat::Json => Err(RequestError::UnsupportedFormat),
    }
}

/// The channel a feed maps to once each entry's title is replaced by the
/// matching merged title, trimmed.
pub open spec fn rss_rep_with_titles(feed: NormalizedFeed, titles: Seq<String>) -> RssChannelRep {
    RssChannelRep {
        items: Seq::new(feed.entries@.len(), |i: int| RssItemRep {
            title: Some(trimmed(titles[i]@)),
            ..rss_item_rep_of(feed.entries@[i])
        }),
        ..rss_channel_rep_of(feed)
    }
}

/// The Atom feed a feed maps to once each entry's title is replaced by the
/// matching merged title, trimmed.
pub open spec fn atom_rep_with_titles(feed: NormalizedFeed, titles: Seq<String>) -> AtomFeedRep {
    AtomFeedRep {
        entries: Seq::new(feed.entries@.len(), |i: int| AtomEntryRep {
            title: trimmed(titles[i]@),
            ..atom_entry_rep_of(feed.entries@[i])
        }),
        ..atom_feed_rep_of(feed)
    }
}

/// Completes a request that ran all its phases over this very feed (the
/// machine's recorded titles are the feed's raw titles, so its records
/// correspond one to one, in order, with the feed's entries): merges the
/// cached and freshly translated titles in original entry order, rebuilds
/// the feed with the trimmed titles, and renders it in its original
/// format.  The request fails here exactly when some title was left
/// without a translation, or when the format has no renderer; no partial
/// feed is ever produced.
pub fn finish_request(orch: &Orchestrator, feed: NormalizedFeed) -> (r: Result<RenderedFeed,
    RequestError>)
    requires
        orch.wf(),
        orch.phase matches Phase::Done { .. },
        orch.titles@ == raw_titles(feed),
    ensures
        orch.phase matches Phase::Done { records, pairs } ==> {
            let titles = merged_titles(records@, pairs@);
            &&& records_match_titles(records@, raw_titles(feed))
            &&& (r is Ok <==> all_resolved(records@, pairs@) && feed.format != FeedFormat::Json)
            &&& !all_resolved(records@, pairs@) ==> (r matches Err(e)
                && e matches RequestError::Translation(m)
                && m@ == "left without translation"@)
            &&& all_resolved(records@, pairs@) && feed.format == FeedFormat::Json
                ==> (r matches Err(e) && e == RequestError::UnsupportedFormat)
            &&& is_rss_format(feed.format) && all_resolved(records@, pairs@)
                ==> (r matches Ok(out)
                && out.body@ == rss_xml_of(rss_rep_with_titles(feed, titles))
                && out.content_type@ == "application/rss+xml"@)
            &&& feed.format == FeedFormat::Atom && all_resolved(records@, pairs@)
                ==> (r matches Ok(out)
                && out.body@ == atom_xml_of(atom_rep_with_titles(feed, titles))
                && out.content_type@ == "application/atom+xml"@)
        },
{
    match &orch.phase {
        Phase::Done { records, pairs } => {
            match merge_titles(records, pairs) {
                None => Err(RequestError::Translation(String::from_str(
                    "left without translation"))),
                Some(titles) => {
                    let ghost old_feed = feed;
                    let new_feed = apply_titles(feed, &titles);
                    proof {
                        assert forall|i: int| 0 <= i < old_feed.entries@.len() implies
                            #[trigger] rss_item_rep_of(new_feed.entries@[i]) == (RssItemRep {
                                title: Some(trimmed(titles@[i]@)),
                                ..rss_item_rep_of(old_feed.entries@[i])
                            }) by {
                            assert(rss_item_rep_of(new_feed.entries@[i]) =~~= (RssItemRep {
                                title: Some(trimmed(titles@[i]@)),
                                ..rss_item_rep_of(old_feed.entries@[i])
                            }));
                        }
                        assert(rss_channel_rep_of(new_feed) =~~= rss_rep_with_titles(old_feed,
                            titles@));
                        assert forall|i: int| 0 <= i < old_feed.entries@.len() implies
                            #[trigger] atom_entry_rep_of(new_feed.entries@[i]) == (AtomEntryRep {
                                title: trimmed(titles@[i]@),
                                ..atom_entry_rep_of(old_feed.entries@[i])
                            }) by {
                            assert(atom_entry_rep_of(new_feed.entries@[i]) =~~= (AtomEntryRep {
                                title: trimmed(titles@[i]@),
                                ..atom_entry_rep_of(old_feed.entries@[i])
                            }));
                        }
                        assert(atom_feed_rep_of(new_feed) =~~= atom_rep_with_titles(old_feed,
                            titles@));
                    }
                    render_feed(&new_feed)
                },
            }
        },
        _ => Err(RequestError::UnsupportedFormat),
    }
}

} // verus!
