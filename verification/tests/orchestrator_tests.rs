use rss_trans::feed::{FeedEntry, FeedFormat, NormalizedFeed};
use rss_trans::feed_generator::finish_request;
use rss_trans::orchestrator::{error_body, merge_titles, Orchestrator, Phase, RequestError,
    TitleRecord};
use rss_trans::translate::TranslatResult;

fn entry(title: Option<&str>, id: &str) -> FeedEntry {
    FeedEntry {
        title: title.map(|t| t.to_string()),
        id: id.to_string(),
        links: Vec::new(),
        summary: None,
        updated: None,
        published: None,
        authors: Vec::new(),
        categories: Vec::new(),
    }
}

fn feed_with_titles(format: FeedFormat, titles: &[&str]) -> NormalizedFeed {
    NormalizedFeed {
        format,
        title: Some("A feed".to_string()),
        id: "feed-id".to_string(),
        links: Vec::new(),
        description: None,
        updated: None,
        icon: None,
        logo: None,
        authors: Vec::new(),
        categories: Vec::new(),
        entries: titles
            .iter()
            .enumerate()
            .map(|(i, t)| entry(Some(t), &format!("e{}", i)))
            .collect(),
    }
}

fn pair(raw: &str, translated: &str) -> TranslatResult {
    TranslatResult {
        translated: translated.to_string(),
        raw_text: raw.to_string(),
    }
}

#[test]
fn two_titles_cache_empty_full_run() {
    // Titles ["Hello", "World"], cache enabled and empty, target "fr-FR".
    let feed = feed_with_titles(FeedFormat::Rss2, &["Hello", "World"]);
    let orch = Orchestrator::start(&feed, Some("fr-FR".to_string()), true);
    assert_eq!(orch.target_lang, "fr-FR");
    assert!(matches!(&orch.phase, Phase::Lookup { next: 0, .. }));

    // Both lookups miss.
    let orch = orch.on_lookup(Ok(None));
    assert!(matches!(&orch.phase, Phase::Lookup { next: 1, .. }));
    let orch = orch.on_lookup(Ok(None));

    // One batched translation call over exactly ["Hello", "World"].
    let pending = match &orch.phase {
        Phase::Translate { pending, .. } => pending.clone(),
        other_phase => panic!("expected the translate phase, not {}", phase_name(other_phase)),
    };
    assert_eq!(pending, vec!["Hello".to_string(), "World".to_string()]);

    let orch = orch.on_translated(Ok(vec![pair("Hello", "Bonjour"), pair("World", "Monde")]));

    // The cache receives exactly the two freshly translated pairs.
    let writes = orch.cache_writes();
    assert_eq!(writes.len(), 2);
    assert_eq!(writes[0].raw_text, "Hello");
    assert_eq!(writes[0].translated, "Bonjour");
    assert_eq!(writes[1].raw_text, "World");
    assert_eq!(writes[1].translated, "Monde");

    // The response carries the translations in original order.
    let rendered = finish_request(&orch, feed).unwrap();
    assert_eq!(rendered.content_type, "application/rss+xml");
    let bonjour = rendered.body.find("Bonjour").unwrap();
    let monde = rendered.body.find("Monde").unwrap();
    assert!(bonjour < monde);
    assert!(!rendered.body.contains("Hello"));
}

fn phase_name(phase: &Phase) -> &'static str {
    match phase {
        Phase::Lookup { .. } => "lookup",
        Phase::Translate { .. } => "translate",
        Phase::Done { .. } => "done",
        Phase::Failed { .. } => "failed",
    }
}

#[test]
fn duplicate_titles_translated_with_duplicates_preserved() {
    // Titles ["Hello", "Hello"], cache empty: the batched call keeps both.
    let feed = feed_with_titles(FeedFormat::Rss2, &["Hello", "Hello"]);
    let orch = Orchestrator::start(&feed, None, true);
    let orch = orch.on_lookup(Ok(None));
    let orch = orch.on_lookup(Ok(None));
    let pending = match &orch.phase {
        Phase::Translate { pending, .. } => pending.clone(),
        other_phase => panic!("expected the translate phase, not {}", phase_name(other_phase)),
    };
    assert_eq!(pending, vec!["Hello".to_string(), "Hello".to_string()]);

    // Raw-text matching hands both entries the first matching value.
    let orch = orch.on_translated(Ok(vec![pair("Hello", "Bonjour"), pair("Hello", "Salut")]));
    match &orch.phase {
        Phase::Done { records, pairs } => {
            let titles = merge_titles(records, pairs).unwrap();
            assert_eq!(titles, vec!["Bonjour".to_string(), "Bonjour".to_string()]);
        },
        other_phase => panic!("expected the done phase, not {}", phase_name(other_phase)),
    }
}

#[test]
fn lookup_error_fails_request_before_translation() {
    // A cache backend error on any lookup fails the request; the machine
    // never reaches the translate phase and writes nothing.
    let feed = feed_with_titles(FeedFormat::Rss2, &["Hello", "World"]);
    let orch = Orchestrator::start(&feed, None, true);
    let orch = orch.on_lookup(Err("connection refused".to_string()));
    match &orch.phase {
        Phase::Failed { error } => {
            assert_eq!(
                error_body(error),
                "Error (failed to get title from cache): connection refused"
            );
        },
        other_phase => panic!("expected the failed phase, not {}", phase_name(other_phase)),
    }
    assert!(orch.cache_writes().is_empty());
}

#[test]
fn translation_error_fails_request_and_writes_nothing() {
    let feed = feed_with_titles(FeedFormat::Rss2, &["Hello"]);
    let orch = Orchestrator::start(&feed, None, true);
    let orch = orch.on_lookup(Ok(None));
    let orch = orch.on_translated(Err("api unreachable".to_string()));
    match &orch.phase {
        Phase::Failed { error } => {
            assert_eq!(
                error_body(error),
                "Error (failed to translation): api unreachable"
            );
        },
        other_phase => panic!("expected the failed phase, not {}", phase_name(other_phase)),
    }
    assert!(orch.cache_writes().is_empty());
}

#[test]
fn cache_disabled_routes_every_title_to_translation() {
    // With no cache configured there is no lookup phase and no cache write;
    // every title goes into the batched call.
    let feed = feed_with_titles(FeedFormat::Rss2, &["One", "Two", "Three"]);
    let orch = Orchestrator::start(&feed, None, false);
    let pending = match &orch.phase {
        Phase::Translate { pending, .. } => pending.clone(),
        other_phase => panic!("expected the translate phase, not {}", phase_name(other_phase)),
    };
    assert_eq!(
        pending,
        vec!["One".to_string(), "Two".to_string(), "Three".to_string()]
    );
    let orch = orch.on_translated(Ok(vec![
        pair("One", "Un"),
        pair("Two", "Deux"),
        pair("Three", "Trois"),
    ]));
    assert!(matches!(&orch.phase, Phase::Done { .. }));
    assert!(orch.cache_writes().is_empty());
}

#[test]
fn all_cache_hits_skip_the_translation_call() {
    // Every lookup hits: the machine goes straight to done with no pairs,
    // so the translation client is never invoked.
    let feed = feed_with_titles(FeedFormat::Rss2, &["Hello", "World"]);
    let orch = Orchestrator::start(&feed, None, true);
    let orch = orch.on_lookup(Ok(Some("Bonjour".to_string())));
    let orch = orch.on_lookup(Ok(Some("Monde".to_string())));
    match &orch.phase {
        Phase::Done { records, pairs } => {
            assert!(pairs.is_empty());
            let titles = merge_titles(records, pairs).unwrap();
            assert_eq!(titles, vec!["Bonjour".to_string(), "Monde".to_string()]);
        },
        other_phase => panic!("expected the done phase, not {}", phase_name(other_phase)),
    }
    assert!(orch.cache_writes().is_empty());
    let rendered = finish_request(&orch, feed).unwrap();
    assert!(rendered.body.contains("Bonjour"));
    assert!(rendered.body.contains("Monde"));
}

#[test]
fn unsupported_format_fails_after_translation_ran() {
    // A JSON feed runs its phases and fails only at rendering.
    let feed = feed_with_titles(FeedFormat::Json, &["Hello"]);
    let orch = Orchestrator::start(&feed, None, false);
    assert!(matches!(&orch.phase, Phase::Translate { .. }));
    let orch = orch.on_translated(Ok(vec![pair("Hello", "Bonjour")]));
    let result = finish_request(&orch, feed);
    match result {
        Err(error) => {
            assert!(matches!(error, RequestError::UnsupportedFormat));
            assert_eq!(error_body(&error), "Error: Unsupported feed type");
        },
        Ok(_) => panic!("a JSON feed has no renderer"),
    }
}

#[test]
fn entry_without_title_fails_the_whole_request() {
    let mut feed = feed_with_titles(FeedFormat::Rss2, &["Hello"]);
    feed.entries.push(entry(None, "e1"));
    let orch = Orchestrator::start(&feed, None, true);
    match &orch.phase {
        Phase::Failed { error } => {
            assert!(matches!(error, RequestError::MissingTitle));
        },
        other_phase => panic!("expected the failed phase, not {}", phase_name(other_phase)),
    }
}

#[test]
fn missing_translation_pair_fails_instead_of_partial_output() {
    let feed = feed_with_titles(FeedFormat::Rss2, &["Hello", "World"]);
    let orch = Orchestrator::start(&feed, None, false);
    let orch = orch.on_translated(Ok(vec![pair("Hello", "Bonjour")]));
    let result = finish_request(&orch, feed);
    match result {
        Err(RequestError::Translation(m)) => assert_eq!(m, "left without translation"),
        _ => panic!("an unresolved title must fail the request"),
    }
}

#[test]
fn empty_feed_needs_no_lookup_and_no_translation() {
    let feed = feed_with_titles(FeedFormat::Rss2, &[]);
    let orch = Orchestrator::start(&feed, None, true);
    match &orch.phase {
        Phase::Done { records, pairs } => {
            assert!(records.is_empty());
            assert!(pairs.is_empty());
        },
        other_phase => panic!("expected the done phase, not {}", phase_name(other_phase)),
    }
    assert!(orch.cache_writes().is_empty());
    let rendered = finish_request(&orch, feed).unwrap();
    assert_eq!(rendered.body.matches("<item>").count(), 0);
    assert!(rendered.body.contains("<title>A feed</title>"));
}

#[test]
fn default_target_language_is_japanese() {
    let feed = feed_with_titles(FeedFormat::Rss2, &["Hello"]);
    let orch = Orchestrator::start(&feed, None, true);
    assert_eq!(orch.target_lang, "ja-JP");
}

#[test]
fn merge_prefers_cached_value_over_pairs() {
    let records = vec![
        TitleRecord {
            raw: "Hello".to_string(),
            is_cached: true,
            translated: Some("Cached".to_string()),
        },
        TitleRecord {
            raw: "World".to_string(),
            is_cached: false,
            translated: None,
        },
    ];
    let pairs = vec![pair("Hello", "Fresh"), pair("World", "Monde")];
    let titles = merge_titles(&records, &pairs).unwrap();
    assert_eq!(titles, vec!["Cached".to_string(), "Monde".to_string()]);
}

#[test]
fn query_and_fetch_error_bodies_name_the_stage() {
    assert_eq!(
        error_body(&RequestError::Query("bad url".to_string())),
        "Error (failed to get queries): bad url"
    );
    assert_eq!(
        error_body(&RequestError::Fetch("404".to_string())),
        "Error (failed to get rss-feed uri): 404"
    );
}
