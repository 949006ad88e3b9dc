use ani_cli::jikan::{
    capitalize_first, clean_theme_string, endpoint_url, episode_agreement, levenshtein, name_match,
    EpisodeAgreement, JikanImageUrls, JikanImages, NameMatch,
};

#[test]
fn levenshtein_basic() {
    assert_eq!(levenshtein("kitten", "sitting"), 3);
    assert_eq!(levenshtein("", "abc"), 3);
    assert_eq!(levenshtein("abc", "abc"), 0);
}

#[test]
fn capitalize_first_works() {
    assert_eq!(capitalize_first("spring"), "Spring");
    assert_eq!(capitalize_first(""), "");
}

#[test]
fn levenshtein_is_symmetric_on_examples() {
    assert_eq!(levenshtein("flaw", "lawn"), levenshtein("lawn", "flaw"));
    assert_eq!(levenshtein("flaw", "lawn"), 2);
    assert_eq!(levenshtein("naruto", ""), 6);
}

#[test]
fn capitalize_first_handles_non_ascii() {
    assert_eq!(capitalize_first("été"), "Été");
    assert_eq!(capitalize_first("ß"), "SS");
}

#[test]
fn clean_theme_string_strips_numbering() {
    assert_eq!(clean_theme_string("1: Song by Artist"), "Song by Artist");
    assert_eq!(clean_theme_string("  12:   Title  "), "Title");
    assert_eq!(clean_theme_string("Song without number"), "Song without number");
    assert_eq!(clean_theme_string("12 no colon"), "12 no colon");
    assert_eq!(clean_theme_string(""), "");
}

#[test]
fn name_match_classifies_titles() {
    assert!(matches!(name_match("One Piece", "one piece", "x"), NameMatch::Exact));
    assert!(matches!(
        name_match("one", "One Piece", "x"),
        NameMatch::CanonicalContains
    ));
    assert!(matches!(
        name_match("shingeki", "Attack on Titan", "Shingeki no Kyojin"),
        NameMatch::OriginalContains
    ));
    match name_match("abc", "abd", "xyz") {
        NameMatch::Distance { dist, max_len } => {
            assert_eq!(dist, 1);
            assert_eq!(max_len, 3);
        }
        _ => panic!("expected a distance"),
    }
}

#[test]
fn episode_agreement_cases() {
    assert!(matches!(episode_agreement(None, Some(12)), EpisodeAgreement::Unknown));
    assert!(matches!(episode_agreement(Some(12), Some(12)), EpisodeAgreement::Same));
    assert!(matches!(
        episode_agreement(Some(25), Some(13)),
        EpisodeAgreement::Differ { hint: 25, episodes: 13 }
    ));
    assert!(matches!(episode_agreement(Some(0), Some(13)), EpisodeAgreement::Unrelated));
}

fn urls(image: Option<&str>, large: Option<&str>) -> JikanImageUrls {
    JikanImageUrls {
        image_url: image.map(|s| s.to_string()),
        small_image_url: None,
        large_image_url: large.map(|s| s.to_string()),
    }
}

#[test]
fn best_url_prefers_large_webp_then_large_jpg() {
    let all = JikanImages { jpg: urls(Some("j"), Some("J")), webp: urls(Some("w"), Some("W")) };
    assert_eq!(all.best_url(), Some("W"));
    let no_large_webp = JikanImages { jpg: urls(Some("j"), Some("J")), webp: urls(Some("w"), None) };
    assert_eq!(no_large_webp.best_url(), Some("J"));
    let small_only = JikanImages { jpg: urls(Some("j"), None), webp: urls(Some("w"), None) };
    assert_eq!(small_only.best_url(), Some("w"));
    let jpg_only = JikanImages { jpg: urls(Some("j"), None), webp: urls(None, None) };
    assert_eq!(jpg_only.best_url(), Some("j"));
    let none = JikanImages { jpg: urls(None, None), webp: urls(None, None) };
    assert_eq!(none.best_url(), None);
}

#[test]
fn endpoint_url_joins_with_one_slash() {
    assert_eq!(endpoint_url("https://api.jikan.moe/v4", "anime?q=x"), "https://api.jikan.moe/v4/anime?q=x");
    assert_eq!(endpoint_url("https://api.jikan.moe/v4//", "//top/anime"), "https://api.jikan.moe/v4/top/anime");
    assert_eq!(endpoint_url("", ""), "/");
}

#[test]
fn levenshtein_laws_on_examples() {
    let words = ["", "a", "kitten", "sitting", "sitten", "frieren", "flower"];
    for a in words {
        assert_eq!(levenshtein(a, a), 0);
        for b in words {
            let d = levenshtein(a, b);
            assert_eq!(d, levenshtein(b, a));
            assert_eq!(d == 0, a == b);
            let (la, lb) = (a.chars().count(), b.chars().count());
            assert!(d >= la.abs_diff(lb) && d <= la.max(lb));
            for c in words {
                assert!(levenshtein(a, c) <= d + levenshtein(b, c));
            }
        }
    }
}
