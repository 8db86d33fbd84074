use rss_trans::atom_generator::AtomGenerator;
use rss_trans::feed::{FeedCategory, FeedEntry, FeedFormat, FeedLink, FeedPerson, FeedText,
    NormalizedFeed};
use rss_trans::rss_generator::RssGenerator;

fn link(href: &str) -> FeedLink {
    FeedLink {
        href: href.to_string(),
        rel: None,
        media_type: None,
        title: None,
        length: None,
    }
}

fn sample_feed(format: FeedFormat) -> NormalizedFeed {
    NormalizedFeed {
        format,
        title: Some("Example feed".to_string()),
        id: "urn:feed:1".to_string(),
        links: vec![link("https://example.org/")],
        description: Some(FeedText {
            content: "All the examples".to_string(),
            is_html: false,
        }),
        updated: Some(0),
        icon: None,
        logo: None,
        authors: vec![FeedPerson {
            name: "Ada".to_string(),
            email: None,
        }],
        categories: vec![FeedCategory {
            term: "news".to_string(),
            scheme: None,
        }],
        entries: vec![
            FeedEntry {
                title: Some("First".to_string()),
                id: "urn:item:1".to_string(),
                links: vec![link("https://example.org/1")],
                summary: Some(FeedText {
                    content: "the first one".to_string(),
                    is_html: false,
                }),
                updated: Some(86400),
                published: Some(0),
                authors: vec![
                    FeedPerson {
                        name: "Ada".to_string(),
                        email: Some("ada@example.org".to_string()),
                    },
                    FeedPerson {
                        name: "Grace".to_string(),
                        email: None,
                    },
                ],
                categories: vec![FeedCategory {
                    term: "intro".to_string(),
                    scheme: Some("https://example.org/scheme".to_string()),
                }],
            },
            FeedEntry {
                title: Some("Second".to_string()),
                id: "urn:item:2".to_string(),
                links: Vec::new(),
                summary: None,
                updated: None,
                published: None,
                authors: Vec::new(),
                categories: Vec::new(),
            },
        ],
    }
}

#[test]
fn rss_document_carries_the_mapped_fields() {
    let generator = RssGenerator::new();
    let body = generator.generate_feed(&sample_feed(FeedFormat::Rss2));
    assert!(body.starts_with("<?xml"));
    assert!(body.contains("<title>Example feed</title>"));
    assert!(body.contains("<link>https://example.org/</link>"));
    assert!(body.contains("<description>All the examples</description>"));
    // The feed's update time, RFC 2822 in UTC.
    assert!(body.contains("1 Jan 1970 00:00:00 +0000"));
    assert!(body.contains("<title>First</title>"));
    assert!(body.contains("<title>Second</title>"));
    // Authors are joined into one comma-separated field.
    assert!(body.contains("Ada, Grace"));
    // Categories carry their domain.
    assert!(body.contains("intro"));
    assert!(body.contains("https://example.org/scheme"));
    // Entries appear in original order.
    assert!(body.find("First").unwrap() < body.find("Second").unwrap());
    assert_eq!(body.matches("<item>").count(), 2);
}

#[test]
fn rss_untitled_feed_falls_back() {
    let mut feed = sample_feed(FeedFormat::Rss2);
    feed.title = None;
    let body = RssGenerator::new().generate_feed(&feed);
    assert!(body.contains("<title>Untitled</title>"));
}

#[test]
fn rss_content_type() {
    assert_eq!(RssGenerator::new().content_type(), "application/rss+xml");
}

#[test]
fn atom_document_carries_the_mapped_fields() {
    let generator = AtomGenerator::new();
    let body = generator.generate_feed(&sample_feed(FeedFormat::Atom));
    assert!(body.contains("<title>Example feed</title>"));
    assert!(body.contains("<id>urn:feed:1</id>"));
    assert!(body.contains("<subtitle>All the examples</subtitle>"));
    assert!(body.contains("href=\"https://example.org/\""));
    assert!(body.contains("<name>Ada</name>"));
    assert!(body.contains("<email>ada@example.org</email>"));
    assert!(body.contains("term=\"news\""));
    assert!(body.contains("term=\"intro\""));
    // The entry update time, RFC 3339 in UTC.
    assert!(body.contains("1970-01-02T00:00:00"));
    assert!(body.contains("<title>First</title>"));
    assert!(body.contains("<title>Second</title>"));
    assert!(body.find("First").unwrap() < body.find("Second").unwrap());
    assert_eq!(body.matches("<entry>").count(), 2);
}

#[test]
fn atom_untitled_entry_falls_back() {
    let mut feed = sample_feed(FeedFormat::Atom);
    feed.entries[1].title = None;
    let body = AtomGenerator::new().generate_feed(&feed);
    assert!(body.contains("<title>Untitle</title>"));
}

#[test]
fn atom_html_summary_keeps_its_type() {
    let mut feed = sample_feed(FeedFormat::Atom);
    feed.entries[0].summary = Some(FeedText {
        content: "<b>bold</b>".to_string(),
        is_html: true,
    });
    let body = AtomGenerator::new().generate_feed(&feed);
    assert!(body.contains("type=\"html\""));
}

#[test]
fn atom_content_type() {
    assert_eq!(AtomGenerator::new().content_type(), "application/atom+xml");
}

#[test]
fn rss_update_time_is_rendered_in_rfc2822() {
    let body = RssGenerator::new().generate_feed(&sample_feed(FeedFormat::Rss2));
    assert!(body.contains("<lastBuildDate>Thu, 1 Jan 1970 00:00:00 +0000</lastBuildDate>"));
    // An update time outside the supported calendar range is left out.
    let mut feed = sample_feed(FeedFormat::Rss2);
    feed.updated = Some(i64::MAX);
    let body = RssGenerator::new().generate_feed(&feed);
    assert!(!body.contains("<lastBuildDate>"));
}

#[test]
fn atom_published_time_is_rendered() {
    let body = AtomGenerator::new().generate_feed(&sample_feed(FeedFormat::Atom));
    assert!(body.contains("<published>1970-01-01T00:00:00"));
}
