use ani_cli::allanime::{
    decode_provider_url, episode_query_hash, extract_source_pairs_from_raw, extract_tobeparsed_from_raw,
    hex_lower_text,
};
use ani_cli::provider::{
    b64url_decode, choose_stream, direct_provider_links, gather_links, is_captcha_response, needs_episode_fallback,
    provider_url,
    quality_number, rank_links,
};

#[test]
fn decodes_allanime_provider_url_tokens() {
    assert_eq!(decode_provider_url("504c4c48021717"), "http://");
}

#[test]
fn rewrites_clock_provider_endpoint() {
    assert_eq!(decode_provider_url("175b54575b53"), "/clock.json");
}

#[test]
fn extracts_source_pairs_from_raw_response() {
    let raw = r#"{"sourceUrl":"--504c4c48","sourceName":"Default"}"#;

    assert_eq!(
        extract_source_pairs_from_raw(raw),
        vec![("Default".to_string(), "504c4c48".to_string())]
    );
}

#[test]
fn decode_drops_unknown_tokens_and_odd_tail() {
    // "zz" is not hex, "7A" is upper-case (not in the table), trailing "5" is odd
    assert_eq!(decode_provider_url("79zz7A7a5"), "AB");
    assert_eq!(decode_provider_url(""), "");
}

#[test]
fn extracts_tobeparsed_blob() {
    assert_eq!(
        extract_tobeparsed_from_raw(r#"{"data":{"tobeparsed":"QUJD"}}"#),
        Some("QUJD".to_string())
    );
    assert_eq!(extract_tobeparsed_from_raw(r#"{"tobeparsed":""}"#), None);
    assert_eq!(extract_tobeparsed_from_raw("nothing here"), None);
}

#[test]
fn source_pairs_skip_empty_urls_and_missing_names() {
    let raw = r#"{"sourceUrl":"--","sourceName":"Empty"}{"sourceUrl":"--0a0b"}"#;
    assert_eq!(extract_source_pairs_from_raw(raw), vec![]);
}

#[test]
fn captcha_pages_are_recognised() {
    assert!(is_captcha_response("<title>Just a moment...</title>"));
    assert!(!is_captcha_response("{\"data\":{}}"));
}

#[test]
fn provider_paths_are_anchored() {
    assert_eq!(provider_url("/apivtwo/clock.json"), "https://allanime.day/apivtwo/clock.json");
    assert_eq!(provider_url("https://x.example/a"), "https://x.example/a");
}

#[test]
fn quality_numbers() {
    assert_eq!(quality_number("1080p"), 1080);
    assert_eq!(quality_number("720pp"), 720);
    assert_eq!(quality_number("auto"), 0);
    assert_eq!(quality_number("+480"), 480);
    assert_eq!(quality_number("99999999999p"), 0);
}

fn link(q: &str, u: &str) -> (String, String, Option<String>) {
    (q.to_string(), u.to_string(), None)
}

#[test]
fn ranks_links_highest_first_stably() {
    let ranked = rank_links(vec![link("480p", "a"), link("1080p", "b"), link("auto", "c"), link("1080p", "d")]);
    let urls: Vec<&str> = ranked.iter().map(|l| l.1.as_str()).collect();
    assert_eq!(urls, vec!["b", "d", "a", "c"]);
}

#[test]
fn chooses_stream_by_quality() {
    let links = || vec![link("480p", "a"), link("1080p", "b"), link("720p", "c")];
    let best = choose_stream(links(), "best").unwrap();
    assert_eq!(best.url, "b");
    assert_eq!(best.referer.as_deref(), Some("https://allmanga.to"));
    assert_eq!(choose_stream(links(), "worst").unwrap().url, "a");
    assert_eq!(choose_stream(links(), "720").unwrap().url, "c");
    assert_eq!(choose_stream(links(), "360").unwrap().url, "b");
    assert_eq!(choose_stream(vec![], "best").unwrap_err(), "No valid streaming links found");
}

#[test]
fn direct_links_need_no_fetch() {
    let yt = direct_provider_links("https://tools.fast4speed.rsvp/x").unwrap();
    assert_eq!(yt[0].0, "Yt");
    assert_eq!(yt[0].2.as_deref(), Some("https://allmanga.to"));
    let mp4 = direct_provider_links("https://cdn/x.mp4").unwrap();
    assert_eq!(mp4[0].0, "auto");
    assert!(direct_provider_links("https://cdn/page").is_none());
}

#[test]
fn b64url_pads_and_maps_alphabet() {
    // "-_8" is URL-safe for "+/8"; padded to "+/8="
    assert_eq!(b64url_decode("-_8").unwrap(), vec![0xfb, 0xff]);
    assert_eq!(b64url_decode("QUJD").unwrap(), b"ABC".to_vec());
    assert!(b64url_decode("!!").unwrap_err().starts_with("Base64url decode failed: "));
}

#[test]
fn hex_is_lower_case_two_digits_per_byte() {
    assert_eq!(hex_lower_text(&[0x00, 0x0f, 0xa5, 0xff]), "000fa5ff");
    assert_eq!(hex_lower_text(&[]), "");
}

#[test]
fn query_hash_is_sha256_hex() {
    assert_eq!(
        episode_query_hash("abc"),
        "ba7816bf8f01cfea414140de5dae2223b00361a396177a9cb410ff61f20015ad"
    );
    assert_eq!(
        episode_query_hash(""),
        "e3b0c44298fc1c149afbf4c8996fb92427ae41e4649b934ca495991b7852b855"
    );
}

#[test]
fn episode_fallback_when_blank_or_without_payload() {
    assert!(needs_episode_fallback(""));
    assert!(needs_episode_fallback("   \n"));
    assert!(needs_episode_fallback("{\"data\":{}}"));
    assert!(!needs_episode_fallback("{\"data\":{\"tobeparsed\":\"abc\"}}"));
}

#[test]
fn failing_providers_are_skipped_and_the_others_joined() {
    let replies = vec![
        Ok(vec![link("720", "a"), link("1080", "b")]),
        Err("provider down".to_string()),
        Ok(vec![]),
        Ok(vec![link("480", "c")]),
    ];
    assert_eq!(gather_links(&replies), vec![link("720", "a"), link("1080", "b"), link("480", "c")]);
    let all_failed: Vec<Result<Vec<(String, String, Option<String>)>, String>> = vec![Err("x".to_string())];
    assert!(gather_links(&all_failed).is_empty());
}
