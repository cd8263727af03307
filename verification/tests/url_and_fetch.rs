use bggcli::bgg_url::{geeklist_request, numeric_flags, parse_bgg_url, BGGAPIURLType, UrlError};
use bggcli::fetch::{
    cache_hit, classify_status, id_chunks, retry_on_status, thing_url, Attempt, ChunkFetch,
    StatusKind, StatusStep,
};
use bggcli::query::{display_name, select_statement};

fn ok(url: &str) -> (BGGAPIURLType, String) {
    match parse_bgg_url(url) {
        Ok(r) => r,
        Err(e) => panic!("refused: {}", e.message()),
    }
}

#[test]
fn geeklist_page_gives_geeklist_request() {
    let (t, api) = ok("https://boardgamegeek.com/geeklist/12345/best-games-of-2020");
    assert_eq!(t, BGGAPIURLType::Geeklist);
    assert_eq!(api, "https://boardgamegeek.com/xmlapi2/geeklist/12345/");
}

#[test]
fn collection_page_gives_collection_request() {
    let (t, api) = ok("https://boardgamegeek.com/collection/user/alice");
    assert_eq!(t, BGGAPIURLType::Collection);
    assert_eq!(api, "https://boardgamegeek.com/xmlapi2/collection?username=alice");
    let (t, api) = ok("https://boardgamegeek.com/collection/user/bob/extra?own=1");
    assert_eq!(t, BGGAPIURLType::Collection);
    assert_eq!(api, "https://boardgamegeek.com/xmlapi2/collection?username=bob");
}

#[test]
fn other_domain_is_refused() {
    let e = parse_bgg_url("http://boardgamegeek.com/geeklist/1").unwrap_err();
    assert!(matches!(e, UrlError::InvalidDomain));
    assert_eq!(e.message(), "Invalid domain: Only 'boardgamegeek.com' URLs are supported");
    assert!(matches!(parse_bgg_url("https://example.com/geeklist/1"), Err(UrlError::InvalidDomain)));
    assert!(matches!(parse_bgg_url(""), Err(UrlError::InvalidDomain)));
}

#[test]
fn unsupported_kind_is_named() {
    let e = parse_bgg_url("https://boardgamegeek.com/boardgame/13/catan").unwrap_err();
    match &e {
        UrlError::UnsupportedType(t) => assert_eq!(t, "boardgame"),
        _ => panic!("wrong error"),
    }
    assert_eq!(
        e.message(),
        "Unsupported type 'boardgame'. Supported types: [\"geeklist\", \"collection\"]"
    );
    // a geeklist address without an id, and a collection address that is not a user's
    match parse_bgg_url("https://boardgamegeek.com/geeklist").unwrap_err() {
        UrlError::UnsupportedType(t) => assert_eq!(t, "geeklist"),
        _ => panic!("wrong error"),
    }
    match parse_bgg_url("https://boardgamegeek.com/collection/group/x").unwrap_err() {
        UrlError::UnsupportedType(t) => assert_eq!(t, "collection"),
        _ => panic!("wrong error"),
    }
    match parse_bgg_url("https://boardgamegeek.com/").unwrap_err() {
        UrlError::UnsupportedType(t) => assert_eq!(t, ""),
        _ => panic!("wrong error"),
    }
}

#[test]
fn geeklist_with_non_numeric_id_is_malformed() {
    let e = parse_bgg_url("https://boardgamegeek.com/geeklist/12a/x").unwrap_err();
    assert!(matches!(e, UrlError::InvalidFormat));
    assert_eq!(
        e.message(),
        "Invalid URL format: Expected format is 'https://boardgamegeek.com/{type}/{id}/...'"
    );
}

#[test]
fn numeric_means_unicode_numeric() {
    // char::is_numeric accepts other scripts' digits and the empty id
    let (_, api) = ok("https://boardgamegeek.com/geeklist/\u{663}\u{664}");
    assert_eq!(api, "https://boardgamegeek.com/xmlapi2/geeklist/\u{663}\u{664}/");
    let (_, api) = ok("https://boardgamegeek.com/geeklist//");
    assert_eq!(api, "https://boardgamegeek.com/xmlapi2/geeklist//");
}

#[test]
fn repeated_site_prefix_is_skipped() {
    let (t, api) = ok("https://boardgamegeek.com/https://boardgamegeek.com/geeklist/7");
    assert_eq!(t, BGGAPIURLType::Geeklist);
    assert_eq!(api, "https://boardgamegeek.com/xmlapi2/geeklist/7/");
}

#[test]
fn ids_are_grouped_by_twenty() {
    let ids: Vec<u32> = (1..=45).collect();
    let chunks = id_chunks(&ids);
    assert_eq!(chunks.len(), 3);
    assert_eq!(chunks[0], (1..=20).collect::<Vec<u32>>());
    assert_eq!(chunks[1], (21..=40).collect::<Vec<u32>>());
    assert_eq!(chunks[2], vec![41, 42, 43, 44, 45]);
    assert_eq!(chunks.concat(), ids);
    assert!(id_chunks(&vec![]).is_empty());
    let twenty: Vec<u32> = (0..20).collect();
    assert_eq!(id_chunks(&twenty), vec![twenty.clone()]);
}

#[test]
fn thing_url_lists_ids_in_decimal() {
    assert_eq!(
        thing_url(&vec![1, 22, 333]),
        "https://boardgamegeek.com/xmlapi2/thing?id=1,22,333&stats=1"
    );
    assert_eq!(thing_url(&vec![0]), "https://boardgamegeek.com/xmlapi2/thing?id=0&stats=1");
    assert_eq!(
        thing_url(&vec![u32::MAX, 1000]),
        "https://boardgamegeek.com/xmlapi2/thing?id=4294967295,1000&stats=1"
    );
    assert_eq!(thing_url(&vec![]), "https://boardgamegeek.com/xmlapi2/thing?id=&stats=1");
}

#[test]
fn status_codes() {
    assert_eq!(classify_status(200), StatusKind::Success);
    assert_eq!(classify_status(202), StatusKind::Accepted);
    assert_eq!(classify_status(404), StatusKind::Failed);
    assert_eq!(classify_status(500), StatusKind::Failed);
    assert!(retry_on_status(202));
    assert!(!retry_on_status(200));
    assert!(!retry_on_status(503));
}

#[test]
fn cache_headers() {
    assert_eq!(cache_hit(Some(b"HIT"), Some(b"HIT")), Some(true));
    assert_eq!(cache_hit(Some(b"HIT"), Some(b"MISS")), Some(false));
    assert_eq!(cache_hit(Some(b"hit"), Some(b"HIT")), Some(false));
    assert_eq!(cache_hit(Some(b"HIT"), None), None);
    assert_eq!(cache_hit(None, None), None);
}

#[test]
fn failing_tries_back_off_and_stop_after_five() {
    let mut f = ChunkFetch::new();
    let mut pauses = Vec::new();
    while f.should_request() {
        pauses.push(f.record(Attempt::Unparsable).unwrap());
    }
    assert_eq!(pauses, vec![1, 2, 4, 8, 16]);
    assert_eq!(f.attempts, 5);
    assert!(!f.finished);
    assert!(f.wait_before_next());
}

#[test]
fn success_stops_the_tries() {
    let mut f = ChunkFetch::new();
    assert!(f.should_request());
    assert_eq!(f.record(Attempt::Accepted), Some(1));
    assert!(f.should_request());
    assert_eq!(f.record(Attempt::Parsed { cache: Some(true) }), None);
    assert!(!f.should_request());
    assert!(f.finished);
    assert_eq!(f.attempts, 2);
    assert!(!f.wait_before_next());

    let mut g = ChunkFetch::new();
    assert_eq!(g.record(Attempt::Parsed { cache: None }), None);
    assert!(g.wait_before_next());
}

#[test]
fn listing_statement_and_names() {
    assert_eq!(select_statement(None), "select name from boardgame where true");
    assert_eq!(
        select_statement(Some("yearpublished > 2000".to_string())),
        "select name from boardgame where yearpublished > 2000"
    );
    assert_eq!(display_name(Some("Catan".to_string())), "Catan");
    assert_eq!(display_name(None), "???");
}

#[test]
fn geeklist_request_needs_every_character_numeric() {
    assert_eq!(numeric_flags("12a"), vec![true, true, false]);
    assert_eq!(numeric_flags("\u{663}x"), vec![true, false]);
    assert_eq!(
        geeklist_request("12345", &numeric_flags("12345")).unwrap(),
        "https://boardgamegeek.com/xmlapi2/geeklist/12345/"
    );
    assert!(matches!(geeklist_request("abc", &numeric_flags("abc")), Err(UrlError::InvalidFormat)));
    assert_eq!(geeklist_request("", &vec![]).unwrap(), "https://boardgamegeek.com/xmlapi2/geeklist//");
}

#[test]
fn trailing_segments_do_not_change_the_request() {
    for base in ["https://boardgamegeek.com/geeklist/99", "https://boardgamegeek.com/collection/user/carol"] {
        let a = ok(base);
        let b = ok(&format!("{}/{}", base, "more/and-more"));
        assert_eq!(a, b);
    }
}

#[test]
fn status_steps() {
    let mut f = ChunkFetch::new();
    assert_eq!(f.on_status(200), StatusStep::ReadBody { failed: false });
    assert_eq!(f.attempts, 0);
    assert_eq!(f.on_status(500), StatusStep::ReadBody { failed: true });
    assert_eq!(f.attempts, 0);
    assert_eq!(f.on_status(202), StatusStep::Pause(1));
    assert_eq!(f.on_status(202), StatusStep::Pause(2));
    assert_eq!(f.attempts, 2);
    assert_eq!(f.record(Attempt::Unparsable), Some(4));
    assert_eq!(f.record(Attempt::Parsed { cache: Some(false) }), None);
    assert!(!f.should_request());
}
