use std::collections::HashMap;

use rss_trans::feed::{FeedEntry, FeedFormat, NormalizedFeed};
use rss_trans::feed_generator::finish_request;
use rss_trans::orchestrator::{Orchestrator, Phase};
use rss_trans::translate::TranslatResult;

fn feed_with_titles(titles: &[&str]) -> NormalizedFeed {
    NormalizedFeed {
        format: FeedFormat::Rss2,
        title: Some("A feed".to_string()),
        id: "feed-id".to_string(),
        links: Vec::new(),
        description: None,
        updated: None,
        icon: None,
        logo: None,
        authors: Vec::new(),
        categories: Vec::new(),
        entries: titles
            .iter()
            .enumerate()
            .map(|(i, t)| FeedEntry {
                title: Some(t.to_string()),
                id: format!("e{}", i),
                links: Vec::new(),
                summary: None,
                updated: None,
                published: None,
                authors: Vec::new(),
                categories: Vec::new(),
            })
            .collect(),
    }
}

fn pair(raw: &str, translated: &str) -> TranslatResult {
    TranslatResult {
        translated: translated.to_string(),
        raw_text: raw.to_string(),
    }
}

/// Runs one request over the feed against the given cache, translating
/// through the given table; returns the rendered body and the cache after
/// its fire-and-forget writes landed, plus whether translation was called.
fn run_request(
    titles: &[&str],
    cache: &mut HashMap<String, String>,
    translations: &HashMap<String, String>,
) -> (String, bool) {
    let feed = feed_with_titles(titles);
    let mut orch = Orchestrator::start(&feed, Some("fr-FR".to_string()), true);
    let mut translated = false;
    loop {
        orch = match orch.phase {
            Phase::Lookup { ref records, next } => {
                let key = records[next].raw.clone();
                orch.on_lookup(Ok(cache.get(&key).cloned()))
            },
            Phase::Translate { ref pending, .. } => {
                translated = true;
                let pairs: Vec<TranslatResult> = pending
                    .iter()
                    .map(|raw| pair(raw, translations.get(raw).expect("table covers titles")))
                    .collect();
                orch.on_translated(Ok(pairs))
            },
            Phase::Done { .. } => break,
            Phase::Failed { .. } => panic!("the request must not fail here"),
        };
    }
    for write in orch.cache_writes() {
        // An already-written key keeps its first value, as a backend that
        // hashes each key to one object does for identical writes.
        cache.entry(write.raw_text).or_insert(write.translated);
    }
    let rendered = finish_request(&orch, feed).unwrap();
    (rendered.body, translated)
}

#[test]
fn second_run_is_byte_identical_and_never_translates() {
    let mut cache = HashMap::new();
    let mut translations = HashMap::new();
    translations.insert("Hello".to_string(), " Bonjour ".to_string());
    translations.insert("World".to_string(), "Monde".to_string());

    let (first_body, first_translated) = run_request(
        &["Hello", "World", "Hello"],
        &mut cache,
        &translations,
    );
    assert!(first_translated);

    let (second_body, second_translated) = run_request(
        &["Hello", "World", "Hello"],
        &mut cache,
        &translations,
    );
    assert!(!second_translated);
    assert_eq!(first_body, second_body);
}

#[test]
fn every_missed_title_can_be_read_back_from_the_cache() {
    let mut cache = HashMap::new();
    cache.insert("World".to_string(), "Monde".to_string());
    let mut translations = HashMap::new();
    translations.insert("Hello".to_string(), "Bonjour".to_string());

    let (_, translated) = run_request(&["Hello", "World"], &mut cache, &translations);
    assert!(translated);
    // The missed title was written with its translation; the hit was not
    // rewritten.
    assert_eq!(cache.get("Hello"), Some(&"Bonjour".to_string()));
    assert_eq!(cache.get("World"), Some(&"Monde".to_string()));
    assert_eq!(cache.len(), 2);
}

#[test]
fn titles_are_trimmed_in_the_rendered_feed() {
    let mut cache = HashMap::new();
    let mut translations = HashMap::new();
    translations.insert("Hello".to_string(), "  Bonjour\t\n".to_string());
    let (body, _) = run_request(&["Hello"], &mut cache, &translations);
    assert!(body.contains("<title>Bonjour</title>"));
    // The cache keeps the untrimmed value the translation returned.
    assert_eq!(cache.get("Hello"), Some(&"  Bonjour\t\n".to_string()));
}
