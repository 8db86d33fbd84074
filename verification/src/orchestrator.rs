//! The translate-and-cache orchestrator.
//!
//! One request is driven as a small state machine.  The application performs
//! the I/O — fetching the feed, looking titles up in the cache, calling the
//! translation API, spawning the fire-and-forget cache writes — and feeds
//! every outcome back into the machine, which holds all the decisions:
//! which titles still need translation, when the request fails, which
//! key/value pairs are written to the cache, and how translations are merged
//! back into the feed in original order.

use vstd::prelude::*;
use vstd::string::StringExecFns;

use crate::feed::{all_have_titles, raw_titles, same_except_entries, same_except_title, FeedEntry,
    NormalizedFeed};
use crate::text::{trim_spaces, trimmed};
use crate::translate::TranslatResult;

verus! {

/// Why a request failed; every variant but the cache-write one aborts the
/// request (cache-write failures never reach the orchestrator).
#[derive(Debug, PartialEq)]
pub enum RequestError {
    /// The request's query parameters could not be read.
    Query(String),
    /// The feed could not be fetched or parsed.
    Fetch(String),
    /// An entry of the fetched feed has no title.
    MissingTitle,
    /// A cache lookup failed (distinct from a clean miss).
    CacheLookup(String),
    /// The translation call failed, or its result left a title unresolved.
    Translation(String),
    /// The feed's format has no renderer.
    UnsupportedFormat,
}

/// Per-request bookkeeping for one entry's title.
pub struct TitleRecord {
    pub raw: String,
    pub is_cached: bool,
    pub translated: Option<String>,
}

/// Where one request currently stands.
pub enum Phase {
    /// Waiting for the cache lookup of `records[next]`'s raw title.
    Lookup { records: Vec<TitleRecord>, next: usize },
    /// Waiting for one batched translation call over `pending`.
    Translate { records: Vec<TitleRecord>, pending: Vec<String> },
    /// All titles are accounted for; the feed can be rebuilt and rendered.
    Done { records: Vec<TitleRecord>, pairs: Vec<TranslatResult> },
    /// The request failed; `error` names the failing stage.
    Failed { error: RequestError },
}

/// The orchestrator of one request.
pub struct Orchestrator {
    pub cache_enabled: bool,
    pub target_lang: String,
    /// The raw titles the request was started from, one per feed entry in
    /// order; the well-formedness invariant keeps the records aligned with
    /// them through every phase.
    pub titles: Ghost<Seq<String>>,
    pub phase: Phase,
}

/// A record as it is first created from a raw title.
pub open spec fn fresh_record(raw: String) -> TitleRecord {
    TitleRecord { raw, is_cached: false, translated: None }
}

/// Untouched records for the given raw titles.
pub open spec fn fresh_records(raws: Seq<String>) -> Seq<TitleRecord> {
    raws.map_values(|raw: String| fresh_record(raw))
}

/// A cached record never lacks its translation.
pub open spec fn record_wf(r: TitleRecord) -> bool {
    r.is_cached ==> r.translated is Some
}

pub open spec fn records_wf(records: Seq<TitleRecord>) -> bool {
    forall|i: int| 0 <= i < records.len() ==> record_wf(#[trigger] records[i])
}

/// The records track exactly these raw titles, one each, in order.
pub open spec fn records_match_titles(records: Seq<TitleRecord>, titles: Seq<String>) -> bool {
    &&& records.len() == titles.len()
    &&& forall|i: int| 0 <= i < records.len() ==> (#[trigger] records[i]).raw == titles[i]
}

/// Records at position `n` and beyond have not been looked up yet.
pub open spec fn records_fresh_from(records: Seq<TitleRecord>, n: int) -> bool {
    forall|i: int| n <= i < records.len() ==> (!(#[trigger] records[i]).is_cached
        && records[i].translated is None)
}

/// The raw titles of the records that missed the cache, in order,
/// duplicates preserved.
pub open spec fn pending_of(records: Seq<TitleRecord>) -> Seq<String>
    decreases records.len(),
{
    if records.len() == 0 {
        Seq::empty()
    } else {
        let rest = pending_of(records.drop_last());
        if records.last().is_cached {
            rest
        } else {
            rest.push(records.last().raw)
        }
    }
}

/// The translation of the first pair whose raw text equals `raw`.
pub open spec fn first_match(pairs: Seq<TranslatResult>, raw: String) -> Option<String>
    decreases pairs.len(),
{
    if pairs.len() == 0 {
        None
    } else if pairs.first().raw_text@ == raw@ {
        Some(pairs.first().translated)
    } else {
        first_match(pairs.drop_first(), raw)
    }
}

/// The translated title of one record: its own cached value, or the first
/// translation pair matching its raw text.
pub open spec fn resolved_title(r: TitleRecord, pairs: Seq<TranslatResult>) -> Option<String> {
    if r.is_cached {
        r.translated
    } else {
        first_match(pairs, r.raw)
    }
}

/// Every record can be given a translated title.
pub open spec fn all_resolved(records: Seq<TitleRecord>, pairs: Seq<TranslatResult>) -> bool {
    forall|i: int| 0 <= i < records.len()
        ==> resolved_title(#[trigger] records[i], pairs) is Some
}

/// The merged title list, in original entry order.
pub open spec fn merged_titles(records: Seq<TitleRecord>, pairs: Seq<TranslatResult>) -> Seq<
    String,
>
    recommends
        all_resolved(records, pairs),
{
    Seq::new(records.len(), |i: int| resolved_title(records[i], pairs).unwrap())
}

/// The record after a cache lookup answered `found`.
pub open spec fn looked_up(r: TitleRecord, found: Option<String>) -> TitleRecord {
    match found {
        Some(v) => TitleRecord { raw: r.raw, is_cached: true, translated: Some(v) },
        None => r,
    }
}

/// The target language requested, or the fixed fallback locale.
pub open spec fn spec_target_lang(to: Option<String>) -> Seq<char> {
    match to {
        Some(lang) => lang@,
        None => "ja-JP"@,
    }
}

/// The phase reached once every cache lookup is answered: translate the
/// misses, or skip the translation call when nothing missed.
pub open spec fn concluded(phase: Phase, records: Seq<TitleRecord>) -> bool {
    if pending_of(records).len() == 0 {
        phase matches Phase::Done { records: rv, pairs }
            && rv@ == records && pairs@.len() == 0
    } else {
        phase matches Phase::Translate { records: rv, pending }
            && rv@ == records && pending@ == pending_of(records)
    }
}

impl Orchestrator {
    /// The per-phase well-formedness the transitions preserve.
    pub open spec fn wf(self) -> bool {
        match self.phase {
            Phase::Lookup { records, next } => {
                &&& next@ <= records@.len()
                &&& records_wf(records@)
                &&& records_fresh_from(records@, next@ as int)
                &&& records_match_titles(records@, self.titles@)
            },
            Phase::Translate { records, pending } => {
                &&& records_wf(records@)
                &&& pending@ == pending_of(records@)
                &&& pending@.len() > 0
                &&& records_match_titles(records@, self.titles@)
            },
            Phase::Done { records, pairs } => {
                &&& records_wf(records@)
                &&& records_match_titles(records@, self.titles@)
            },
            Phase::Failed { error } => true,
        }
    }
}

proof fn lemma_pending_of_fresh(raws: Seq<String>)
    ensures
        pending_of(fresh_records(raws)) == raws,
    decreases raws.len(),
{
    if raws.len() > 0 {
        assert(fresh_records(raws).drop_last() =~= fresh_records(raws.drop_last()));
        lemma_pending_of_fresh(raws.drop_last());
        assert(pending_of(fresh_records(raws)) =~= raws);
    } else {
        assert(pending_of(fresh_records(raws)) =~= raws);
    }
}

/// All-hit record lists have nothing pending.
pub proof fn lemma_all_cached_nothing_pending(records: Seq<TitleRecord>)
    requires
        forall|i: int| 0 <= i < records.len() ==> (#[trigger] records[i]).is_cached,
    ensures
        pending_of(records).len() == 0,
    decreases records.len(),
{
    if records.len() > 0 {
        lemma_all_cached_nothing_pending(records.drop_last());
    }
}

proof fn lemma_miss_in_pending(records: Seq<TitleRecord>, i: int)
    requires
        0 <= i < records.len(),
        !records[i].is_cached,
    ensures
        exists|j: int| 0 <= j < pending_of(records).len()
            && pending_of(records)[j] == records[i].raw,
    decreases records.len(),
{
    if i == records.len() - 1 {
        assert(pending_of(records)[pending_of(records).len() - 1] == records[i].raw);
    } else {
        lemma_miss_in_pending(records.drop_last(), i);
        let j = choose|j: int| 0 <= j < pending_of(records.drop_last()).len()
            && pending_of(records.drop_last())[j] == records.drop_last()[i].raw;
        assert(pending_of(records)[j] == records[i].raw);
    }
}

proof fn lemma_first_match_found(pairs: Seq<TranslatResult>, raw: String)
    requires
        exists|j: int| 0 <= j < pairs.len() && (#[trigger] pairs[j]).raw_text@ == raw@,
    ensures
        first_match(pairs, raw) is Some,
    decreases pairs.len(),
{
    if pairs.first().raw_text@ != raw@ {
        let j = choose|j: int| 0 <= j < pairs.len() && (#[trigger] pairs[j]).raw_text@ == raw@;
        assert(pairs.drop_first()[j - 1].raw_text@ == raw@);
        lemma_first_match_found(pairs.drop_first(), raw);
    }
}

/// Law: after a successful translation pass whose pairs answer the pending
/// titles one for one — which is what the translation client promises —
/// every title that missed the cache has a matching pair among the writes;
/// so each missed title is written, and its merge never comes up empty.
pub proof fn lemma_every_miss_written(records: Seq<TitleRecord>, pairs: Seq<TranslatResult>)
    requires
        records_wf(records),
        pairs.len() == pending_of(records).len(),
        forall|i: int| 0 <= i < pairs.len()
            ==> (#[trigger] pairs[i]).raw_text@ == pending_of(records)[i]@,
    ensures
        forall|i: int| 0 <= i < records.len() && !(#[trigger] records[i]).is_cached
            ==> first_match(pairs, records[i].raw) is Some,
        all_resolved(records, pairs),
{
    assert forall|i: int| 0 <= i < records.len() && !(#[trigger] records[i]).is_cached implies
        first_match(pairs, records[i].raw) is Some by {
        lemma_miss_in_pending(records, i);
        let j = choose|j: int| 0 <= j < pending_of(records).len()
            && pending_of(records)[j] == records[i].raw;
        assert(pairs[j].raw_text@ == records[i].raw@);
        lemma_first_match_found(pairs, records[i].raw);
    }
    assert forall|i: int| 0 <= i < records.len() implies
        resolved_title(#[trigger] records[i], pairs) is Some by {
        assert(record_wf(records[i]));
    }
}

/// Law: running the same feed twice is idempotent in the title text.  A
/// first pass over raw titles, with nothing cached yet, resolves each title
/// from the translation pairs; those very pairs are what the pass writes to
/// the cache.  A second pass whose lookups are all answered from that cache
/// — each raw title to the first written pair matching it — needs no
/// translation call and merges to exactly the same titles.
pub proof fn lemma_second_pass_same_titles(raws: Seq<String>, pairs: Seq<TranslatResult>)
    requires
        all_resolved(fresh_records(raws), pairs),
    ensures
        ({
            let first_pass = fresh_records(raws);
            let second_pass = Seq::new(raws.len(), |i: int| TitleRecord {
                raw: raws[i],
                is_cached: true,
                translated: first_match(pairs, raws[i]),
            });
            &&& records_wf(second_pass)
            &&& pending_of(second_pass).len() == 0
            &&& all_resolved(second_pass, Seq::empty())
            &&& merged_titles(second_pass, Seq::empty()) == merged_titles(first_pass, pairs)
        }),
{
    let first_pass = fresh_records(raws);
    let second_pass = Seq::new(raws.len(), |i: int| TitleRecord {
        raw: raws[i],
        is_cached: true,
        translated: first_match(pairs, raws[i]),
    });
    assert forall|i: int| 0 <= i < raws.len() implies
        record_wf(#[trigger] second_pass[i])
            && resolved_title(second_pass[i], Seq::empty())
                == resolved_title(first_pass[i], pairs) by {
        assert(resolved_title(first_pass[i], pairs) is Some);
    }
    lemma_all_cached_nothing_pending(second_pass);
    assert(merged_titles(second_pass, Seq::empty()) =~= merged_titles(first_pass, pairs));
}

/// Builds the phase that follows the cache-lookup stage: the cache misses
/// are batched, in order, into one pending list; if there are none, the
/// translation call is skipped altogether.
fn conclude_lookup(records: Vec<TitleRecord>) -> (phase: Phase)
    requires
        records_wf(records@),
    ensures
        concluded(phase, records@),
{
    let mut pending: Vec<String> = Vec::new();
    let n = records.len();
    for i in 0..n
        invariant
            n == records@.len(),
            records_wf(records@),
            pending@ == pending_of(records@.take(i as int)),
    {
        proof {
            assert(records@.take(i + 1).drop_last() =~= records@.take(i as int));
            assert(records@.take(i + 1).last() == records@[i as int]);
        }
        if !records[i].is_cached {
            pending.push(records[i].raw.clone());
        }
    }
    proof {
        assert(records@.take(n as int) =~= records@);
    }
    if pending.len() == 0 {
        Phase::Done { records, pairs: Vec::new() }
    } else {
        Phase::Translate { records, pending }
    }
}

impl Orchestrator {
    /// Starts one request over a fetched feed.  Every entry's raw title is
    /// recorded as not-yet-cached; with a cache configured the machine asks
    /// for lookups, otherwise every title goes straight to the pending
    /// translation list.  An entry without a title fails the whole request.
    pub fn start(feed: &NormalizedFeed, to: Option<String>, cache_enabled: bool) -> (r: Orchestrator)
        ensures
            r.wf(),
            r.cache_enabled == cache_enabled,
            r.target_lang@ == spec_target_lang(to),
            r.titles@ == raw_titles(*feed),
            !all_have_titles(*feed) ==> r.phase matches Phase::Failed {
                error: RequestError::MissingTitle },
            all_have_titles(*feed) && cache_enabled && feed.entries@.len() > 0
                ==> (r.phase matches Phase::Lookup { records, next }
                && records@ == fresh_records(raw_titles(*feed)) && next == 0),
            all_have_titles(*feed) && !(cache_enabled && feed.entries@.len() > 0)
                ==> concluded(r.phase, fresh_records(raw_titles(*feed))),
            all_have_titles(*feed) && !cache_enabled && feed.entries@.len() > 0
                ==> (r.phase matches Phase::Translate { records, pending }
                && records@ == fresh_records(raw_titles(*feed))
                && pending@ == raw_titles(*feed)),
    {
        let target_lang = match to {
            Some(lang) => lang,
            None => String::from_str("ja-JP"),
        };
        let mut records: Vec<TitleRecord> = Vec::new();
        let n = feed.entries.len();
        for i in 0..n
            invariant
                n == feed.entries@.len(),
                target_lang@ == spec_target_lang(to),
                forall|j: int| 0 <= j < i ==> feed.entries@[j].title is Some,
                records@ == fresh_records(raw_titles(*feed).take(i as int)),
        {
            proof {
                assert(raw_titles(*feed).take(i + 1).drop_last()
                    =~= raw_titles(*feed).take(i as int));
            }
            match &feed.entries[i].title {
                Some(t) => {
                    records.push(TitleRecord {
                        raw: t.clone(),
                        is_cached: false,
                        translated: None,
                    });
                    proof {
                        assert(records@ =~= fresh_records(raw_titles(*feed).take(i + 1)));
                    }
                },
                None => {
                    return Orchestrator {
                        cache_enabled,
                        target_lang,
                        titles: Ghost(raw_titles(*feed)),
                        phase: Phase::Failed { error: RequestError::MissingTitle },
                    };
                },
            }
        }
        proof {
            assert(raw_titles(*feed).take(n as int) =~= raw_titles(*feed));
        }
        let phase = if cache_enabled && records.len() > 0 {
            Phase::Lookup { records, next: 0 }
        } else {
            proof {
                lemma_pending_of_fresh(raw_titles(*feed));
            }
            conclude_lookup(records)
        };
        Orchestrator { cache_enabled, target_lang, titles: Ghost(raw_titles(*feed)), phase }
    }

    /// Feeds the outcome of the pending cache lookup back in.  A lookup
    /// error fails the whole request; a hit marks the record cached with the
    /// cached value; a miss leaves it untouched.  After the last lookup the
    /// machine moves on to the translation stage (or skips it).
    pub fn on_lookup(self, result: Result<Option<String>, String>) -> (r: Orchestrator)
        requires
            self.wf(),
            self.phase matches Phase::Lookup { records, next } && next@ < records@.len(),
        ensures
            r.wf(),
            r.cache_enabled == self.cache_enabled,
            r.target_lang == self.target_lang,
            r.titles == self.titles,
            result matches Err(e) ==> r.phase matches Phase::Failed { error }
                && error == RequestError::CacheLookup(e),
            result matches Ok(found) ==> (self.phase matches Phase::Lookup { records, next }
                ==> {
                    let updated = records@.update(next as int, looked_up(records@[next as int],
                        found));
                    if next + 1 < records@.len() {
                        r.phase matches Phase::Lookup { records: rv, next: n2 }
                            && rv@ == updated && n2 == next + 1
                    } else {
                        concluded(r.phase, updated)
                    }
                }),
    {
        let Orchestrator { cache_enabled, target_lang, titles, phase } = self;
        match phase {
            Phase::Lookup { mut records, next } => {
                match result {
                    Err(e) => Orchestrator {
                        cache_enabled,
                        target_lang,
                        titles,
                        phase: Phase::Failed { error: RequestError::CacheLookup(e) },
                    },
                    Ok(found) => {
                        let ghost old_records = records@;
                        match found {
                            Some(v) => {
                                let raw = records[next].raw.clone();
                                records.set(next, TitleRecord {
                                    raw,
                                    is_cached: true,
                                    translated: Some(v),
                                });
                            },
                            None => {},
                        }
                        proof {
                            assert(records@ =~= old_records.update(next as int,
                                looked_up(old_records[next as int], found)));
                        }
                        assert(next < records.len());
                        let phase = if next + 1 < records.len() {
                            Phase::Lookup { records, next: next + 1 }
                        } else {
                            conclude_lookup(records)
                        };
                        Orchestrator { cache_enabled, target_lang, titles, phase }
                    },
                }
            },
            _ => Orchestrator { cache_enabled, target_lang, titles, phase },
        }
    }

    /// Feeds the outcome of the batched translation call back in.  An error
    /// fails the whole request — in particular, no cache write follows.
    pub fn on_translated(self, result: Result<Vec<TranslatResult>, String>) -> (r: Orchestrator)
        requires
            self.wf(),
            self.phase matches Phase::Translate { .. },
        ensures
            r.wf(),
            r.cache_enabled == self.cache_enabled,
            r.target_lang == self.target_lang,
            r.titles == self.titles,
            result matches Err(e) ==> r.phase matches Phase::Failed { error }
                && error == RequestError::Translation(e),
            result matches Ok(pairs) ==> (self.phase matches Phase::Translate { records, .. }
                ==> r.phase matches Phase::Done { records: rv, pairs: pv }
                    && rv@ == records@ && pv@ == pairs@),
    {
        let Orchestrator { cache_enabled, target_lang, titles, phase } = self;
        match phase {
            Phase::Translate { records, pending } => {
                match result {
                    Err(e) => Orchestrator {
                        cache_enabled,
                        target_lang,
                        titles,
                        phase: Phase::Failed { error: RequestError::Translation(e) },
                    },
                    Ok(pairs) => Orchestrator {
                        cache_enabled,
                        target_lang,
                        titles,
                        phase: Phase::Done { records, pairs },
                    },
                }
            },
            _ => Orchestrator { cache_enabled, target_lang, titles, phase },
        }
    }

    /// The key/value pairs the application writes to the cache, without the
    /// request waiting on them.  They are exactly the freshly translated
    /// pairs — and only when a cache is configured: with the cache disabled,
    /// or after a failure, nothing is written.
    pub fn cache_writes(&self) -> (w: Vec<TranslatResult>)
        ensures
            self.cache_enabled ==> (self.phase matches Phase::Done { pairs, .. }
                ==> w@ == pairs@),
            !(self.cache_enabled && self.phase matches Phase::Done { .. }) ==> w@.len() == 0,
    {
        match &self.phase {
            Phase::Done { records: _, pairs } => {
                if self.cache_enabled {
                    let mut w: Vec<TranslatResult> = Vec::new();
                    let n = pairs.len();
                    for i in 0..n
                        invariant
                            n == pairs@.len(),
                            w@ =~= pairs@.take(i as int),
                    {
                        w.push(TranslatResult {
                            translated: pairs[i].translated.clone(),
                            raw_text: pairs[i].raw_text.clone(),
                        });
                        proof {
                            assert(w@.last() == pairs@[i as int]);
                            assert(w@ =~= pairs@.take(i + 1));
                        }
                    }
                    proof {
                        assert(pairs@.take(n as int) =~= pairs@);
                    }
                    w
                } else {
                    Vec::new()
                }
            },
            _ => Vec::new(),
        }
    }
}

/// Looks `raw` up among the translation pairs, returning the first match.
fn find_translation(pairs: &Vec<TranslatResult>, raw: &String) -> (r: Option<String>)
    ensures
        r == first_match(pairs@, *raw),
{
    let n = pairs.len();
    assert(pairs@.skip(0) =~= pairs@);
    for i in 0..n
        invariant
            n == pairs@.len(),
            first_match(pairs@, *raw) == first_match(pairs@.skip(i as int), *raw),
            forall|j: int| 0 <= j < i ==> (#[trigger] pairs@[j]).raw_text@ != raw@,
    {
        proof {
            assert(pairs@.skip(i as int).first() == pairs@[i as int]);
            assert(pairs@.skip(i as int).drop_first() =~= pairs@.skip(i + 1));
        }
        if pairs[i].raw_text.eq(raw) {
            return Some(pairs[i].translated.clone());
        }
    }
    None
}

/// Merges the per-record state with the translation results into the final
/// title list, in original order: a cache hit keeps its cached value, a miss
/// takes the first translation pair with the same raw text.  `None` exactly
/// when some miss has no matching pair.
pub fn merge_titles(records: &Vec<TitleRecord>, pairs: &Vec<TranslatResult>) -> (r: Option<
    Vec<String>,
>)
    requires
        records_wf(records@),
    ensures
        r is Some <==> all_resolved(records@, pairs@),
        r matches Some(titles) ==> titles@ == merged_titles(records@, pairs@),
{
    let mut titles: Vec<String> = Vec::new();
    let n = records.len();
    for i in 0..n
        invariant
            n == records@.len(),
            records_wf(records@),
            forall|j: int| 0 <= j < i
                ==> resolved_title(#[trigger] records@[j], pairs@) is Some,
            titles@.len() == i,
            forall|j: int| 0 <= j < i
                ==> #[trigger] titles@[j] == resolved_title(records@[j], pairs@).unwrap(),
    {
        let record = &records[i];
        if record.is_cached {
            match &record.translated {
                Some(t) => titles.push(t.clone()),
                None => {
                    proof {
                        assert(record_wf(records@[i as int]));
                        assert(false);
                    }
                },
            }
        } else {
            match find_translation(pairs, &record.raw) {
                Some(t) => titles.push(t),
                None => {
                    proof {
                        assert(resolved_title(records@[i as int], pairs@) is None);
                    }
                    return None;
                },
            }
        }
    }
    proof {
        assert(titles@ =~= merged_titles(records@, pairs@));
    }
    Some(titles)
}

/// Rebuilds the feed with each entry's title replaced, in order, by the
/// matching merged title, trimmed of surrounding whitespace.  Every other
/// entry field and every feed-level field passes through unchanged; no entry
/// is dropped or reordered.
pub fn apply_titles(feed: NormalizedFeed, titles: &Vec<String>) -> (r: NormalizedFeed)
    requires
        titles@.len() == feed.entries@.len(),
    ensures
        same_except_entries(feed, r),
        r.entries@.len() == feed.entries@.len(),
        forall|i: int| 0 <= i < feed.entries@.len()
            ==> same_except_title(feed.entries@[i], #[trigger] r.entries@[i]),
        forall|i: int| 0 <= i < feed.entries@.len()
            ==> ((#[trigger] r.entries@[i]).title matches Some(t) && t@ == trimmed(titles@[i]@)),
{
    let NormalizedFeed {
        format,
        title,
        id,
        links,
        description,
        updated,
        icon,
        logo,
        authors,
        categories,
        entries,
    } = feed;
    let ghost old_entries = entries@;
    let mut rest = entries;
    let mut new_entries: Vec<FeedEntry> = Vec::new();
    let n = titles.len();
    for i in 0..n
        invariant
            n == old_entries.len(),
            n == titles@.len(),
            rest@ =~= old_entries.skip(i as int),
            new_entries@.len() == i,
            forall|j: int| 0 <= j < i
                ==> same_except_title(old_entries[j], #[trigger] new_entries@[j]),
            forall|j: int| 0 <= j < i
                ==> ((#[trigger] new_entries@[j]).title matches Some(t)
                    && t@ == trimmed(titles@[j]@)),
    {
        let e = rest.remove(0);
        proof {
            assert(old_entries.skip(i as int)[0] == old_entries[i as int]);
        }
        let new_title = trim_spaces(titles[i].as_str());
        new_entries.push(FeedEntry {
            title: Some(new_title),
            id: e.id,
            links: e.links,
            summary: e.summary,
            updated: e.updated,
            published: e.published,
            authors: e.authors,
            categories: e.categories,
        });
    }
    NormalizedFeed {
        format,
        title,
        id,
        links,
        description,
        updated,
        icon,
        logo,
        authors,
        categories,
        entries: new_entries,
    }
}

/// Builds the plain-text body sent with a failing response; the message
/// names the stage that failed, as the service reports it.
pub fn error_body(error: &RequestError) -> (r: String)
    ensures
        error matches RequestError::Query(m)
            ==> r@ == "Error (failed to get queries): "@ + m@,
        error matches RequestError::Fetch(m)
            ==> r@ == "Error (failed to get rss-feed uri): "@ + m@,
        error == (RequestError::MissingTitle)
            ==> r@ == "Error (failed to get rss-feed uri): entry without title"@,
        error matches RequestError::CacheLookup(m)
            ==> r@ == "Error (failed to get title from cache): "@ + m@,
        error matches RequestError::Translation(m)
            ==> r@ == "Error (failed to translation): "@ + m@,
        error == (RequestError::UnsupportedFormat)
            ==> r@ == "Error: Unsupported feed type"@,
{
    match error {
        RequestError::Query(m) => {
            let mut s = String::from_str("Error (failed to get queries): ");
            s.append(m.as_str());
            s
        },
        RequestError::Fetch(m) => {
            let mut s = String::from_str("Error (failed to get rss-feed uri): ");
            s.append(m.as_str());
            s
        },
        RequestError::MissingTitle => {
            String::from_str("Error (failed to get rss-feed uri): entry without title")
        },
        RequestError::CacheLookup(m) => {
            let mut s = String::from_str("Error (failed to get title from cache): ");
            s.append(m.as_str());
            s
        },
        RequestError::Translation(m) => {
            let mut s = String::from_str("Error (failed to translation): ");
            s.append(m.as_str());
            s
        },
        RequestError::UnsupportedFormat => String::from_str("Error: Unsupported feed type"),
    }
}

} // verus!
