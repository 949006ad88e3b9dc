//! Reading AllAnime API responses: search results, episode lists, provider
//! entries, provider link lists, Filemoon payloads, and choosing a stream.

use vstd::prelude::*;

use crate::allanime::{
    decode_provider_url, decode_tobeparsed, decoded_provider_url, decoded_tobeparsed,
    entries_or_message, extract_source_pairs_from_raw, extract_tobeparsed_from_raw, pair_views,
    source_pairs_from, tobeparsed_blob,
};
use crate::domain::{mode_text, AnimeResult, EpisodeUrl, Mode};
use crate::json::{json_array, json_get, json_path, json_str, json_u64, JsonValue};
use crate::crypto::{
    aes256_ctr_apply, aes_256_ctr_decrypt, base64_decode, base64_standard_decode, bytes_or_message,
    utf8_lossy, utf8_lossy_string,
};
use crate::text::{
    chars_of, contains, decimal, decimal_text, lowercase, replace_all, to_lowercase, vec_replace_all, join_str, parse_u32, parse_u32_text, starts_with, str_contains,
    str_starts_with, string_of, trim_end_char, trim_space, trim_text, vec_trim_end_char,
};

verus! {

/// Whether a response is a bot-check page rather than API data.
pub open spec fn is_captcha_text(resp: Seq<char>) -> bool {
    contains(resp, "NEED_CAPTCHA"@) || contains(resp, "Just a moment"@) || contains(resp, "cf-chl"@)
}

/// Whether a response is a bot-check page rather than API data.
pub fn is_captcha_response(resp: &str) -> (r: bool)
    ensures
        r == is_captcha_text(resp@),
{
    str_contains(resp, "NEED_CAPTCHA") || str_contains(resp, "Just a moment") || str_contains(resp, "cf-chl")
}

/// Whether an episode-sources response is unusable, so that the query must
/// be sent again as a plain POST: it is blank, or it carries no
/// `tobeparsed` payload.
pub open spec fn needs_episode_fallback_text(resp: Seq<char>) -> bool {
    trim_space(resp).len() == 0 || !contains(resp, "tobeparsed"@)
}

/// Whether an episode-sources response must be fetched again by POST.
pub fn needs_episode_fallback(resp: &str) -> (r: bool)
    ensures
        r == needs_episode_fallback_text(resp@),
{
    let trimmed = trim_text(resp);
    trimmed.as_str().is_empty() || !str_contains(resp, "tobeparsed")
}

/// The view of a search result: id, title, episode count.
pub open spec fn result_view(r: AnimeResult) -> (Seq<char>, Seq<char>, u32) {
    (r.id@, r.title@, r.episode_count)
}

pub open spec fn results_view(v: Seq<AnimeResult>) -> Seq<(Seq<char>, Seq<char>, u32)> {
    v.map_values(|r: AnimeResult| result_view(r))
}

/// The text of an optional string member, or the empty text.
pub open spec fn str_or_empty(v: Option<JsonValue>) -> Seq<char> {
    match json_str(v) {
        Some(s) => s,
        None => Seq::empty(),
    }
}

/// The result one search edge contributes: its `_id`, its `name`, and its
/// episode count for the mode (truncated to `u32`), when the id and name are
/// non-empty and the count is positive.
pub open spec fn edge_result(edge: JsonValue, mode: Mode) -> Option<(Seq<char>, Seq<char>, u32)> {
    let id = str_or_empty(json_get(edge, "_id"@));
    let title = str_or_empty(json_get(edge, "name"@));
    let count = match json_u64(json_path(edge, seq!["availableEpisodes"@, mode_text(mode)])) {
        Some(n) => n as u32,
        None => 0u32,
    };
    if id.len() > 0 && title.len() > 0 && count > 0 {
        Some((id, title, count))
    } else {
        None
    }
}

/// The results of the first edges, in order.
pub open spec fn edge_results(edges: Seq<JsonValue>, mode: Mode) -> Seq<(Seq<char>, Seq<char>, u32)>
    decreases edges.len(),
{
    if edges.len() == 0 {
        Seq::empty()
    } else {
        let rest = edge_results(edges.drop_last(), mode);
        match edge_result(edges.last(), mode) {
            Some(r) => rest.push(r),
            None => rest,
        }
    }
}

/// The search results a `shows` response lists under `/data/shows/edges`.
pub open spec fn search_results(json: JsonValue, mode: Mode) -> Seq<(Seq<char>, Seq<char>, u32)> {
    match json_array(json_path(json, seq!["data"@, "shows"@, "edges"@])) {
        Some(edges) => edge_results(edges, mode),
        None => Seq::empty(),
    }
}

pub(crate) fn clone_text(s: &String) -> (r: String)
    ensures
        r@ == s@,
{
    s.clone()
}

fn text_member(v: &JsonValue, key: &str) -> (r: String)
    ensures
        r@ == str_or_empty(json_get(*v, key@)),
{
    match v.get(key) {
        Some(m) => match m.as_str() {
            Some(s) => clone_text(s),
            None => String::new(),
        },
        None => String::new(),
    }
}

fn parse_edge(edge: &JsonValue, mode: Mode) -> (r: Option<AnimeResult>)
    ensures
        r matches Some(a) ==> edge_result(*edge, mode) == Some(result_view(a)),
        r is None ==> edge_result(*edge, mode) is None,
{
    let id = text_member(edge, "_id");
    let title = text_member(edge, "name");
    let mode_key = mode.as_str();
    let count: u32 = match edge.get("availableEpisodes") {
        Some(av) => match av.get(mode_key) {
            Some(n) => match n.as_u64() {
                Some(c) => c as u32,
                None => 0,
            },
            None => 0,
        },
        None => 0,
    };
    proof {
        reveal_with_fuel(json_path, 3);
        let keys = seq!["availableEpisodes"@, mode_text(mode)];
        assert(keys.skip(1) =~= seq![mode_text(mode)]);
        assert(keys.skip(1).skip(1) =~= Seq::<Seq<char>>::empty());
    }
    if !id.as_str().is_empty() && !title.as_str().is_empty() && count > 0 {
        Some(AnimeResult { id, title, episode_count: count })
    } else {
        None
    }
}

/// Reads the search results out of a parsed `shows` response.
pub fn parse_search_results(json: &JsonValue, mode: Mode) -> (r: Vec<AnimeResult>)
    ensures
        results_view(r@) == search_results(*json, mode),
{
    let mut out: Vec<AnimeResult> = Vec::new();
    proof {
        reveal_with_fuel(json_path, 4);
        let keys = seq!["data"@, "shows"@, "edges"@];
        assert(keys.skip(1) =~= seq!["shows"@, "edges"@]);
        assert(keys.skip(1).skip(1) =~= seq!["edges"@]);
        assert(keys.skip(1).skip(1).skip(1) =~= Seq::<Seq<char>>::empty());
    }
    let edges = match json.get("data") {
        Some(d) => match d.get("shows") {
            Some(sh) => match sh.get("edges") {
                Some(e) => match e.as_array() {
                    Some(a) => a,
                    None => {
                        assert(results_view(out@) =~= Seq::empty());
                        return out;
                    },
                },
                None => {
                    assert(results_view(out@) =~= Seq::empty());
                    return out;
                },
            },
            None => {
                assert(results_view(out@) =~= Seq::empty());
                return out;
            },
        },
        None => {
            assert(results_view(out@) =~= Seq::empty());
            return out;
        },
    };
    let mut i: usize = 0;
    assert(edges@.take(0) =~= Seq::<JsonValue>::empty());
    assert(results_view(out@) =~= Seq::empty());
    while i < edges.len()
        invariant
            i <= edges@.len(),
            json_array(json_path(*json, seq!["data"@, "shows"@, "edges"@])) == Some(edges@),
            results_view(out@) == edge_results(edges@.take(i as int), mode),
        decreases edges@.len() - i,
    {
        let ghost before = out@;
        assert(edges@.take(i + 1).drop_last() =~= edges@.take(i as int));
        assert(edges@.take(i + 1).last() == edges@[i as int]);
        match parse_edge(&edges[i], mode) {
            Some(a) => {
                out.push(a);
                assert(results_view(out@) =~= results_view(before).push(result_view(a)));
            },
            None => {},
        }
        i += 1;
    }
    assert(edges@.take(i as int) =~= edges@);
    out
}

/// The episode names that one element of an episode array contributes.
pub open spec fn episode_names(items: Seq<JsonValue>) -> Seq<Seq<char>>
    decreases items.len(),
{
    if items.len() == 0 {
        Seq::empty()
    } else {
        let rest = episode_names(items.drop_last());
        match json_str(Some(items.last())) {
            Some(s) => rest.push(s),
            None => rest,
        }
    }
}

/// The episode names listed for the mode under `/data/show/availableEpisodesDetail`,
/// in response order (string elements only).
pub open spec fn episode_list(json: JsonValue, mode: Mode) -> Seq<Seq<char>> {
    match json_array(json_path(json, seq!["data"@, "show"@, "availableEpisodesDetail"@, mode_text(mode)])) {
        Some(items) => episode_names(items),
        None => Seq::empty(),
    }
}

pub open spec fn texts_view(v: Seq<String>) -> Seq<Seq<char>> {
    v.map_values(|s: String| s@)
}

/// Reads the episode names out of a parsed `show` response, in response order.
pub fn parse_episode_list(json: &JsonValue, mode: Mode) -> (r: Vec<String>)
    ensures
        texts_view(r@) == episode_list(*json, mode),
{
    let mut out: Vec<String> = Vec::new();
    proof {
        reveal_with_fuel(json_path, 5);
        let keys = seq!["data"@, "show"@, "availableEpisodesDetail"@, mode_text(mode)];
        assert(keys.skip(1) =~= seq!["show"@, "availableEpisodesDetail"@, mode_text(mode)]);
        assert(keys.skip(1).skip(1) =~= seq!["availableEpisodesDetail"@, mode_text(mode)]);
        assert(keys.skip(1).skip(1).skip(1) =~= seq![mode_text(mode)]);
        assert(keys.skip(1).skip(1).skip(1).skip(1) =~= Seq::<Seq<char>>::empty());
    }
    assert(texts_view(out@) =~= Seq::empty());
    let mode_key = mode.as_str();
    let items = match json.get("data") {
        Some(d) => match d.get("show") {
            Some(sh) => match sh.get("availableEpisodesDetail") {
                Some(det) => match det.get(mode_key) {
                    Some(e) => match e.as_array() {
                        Some(a) => a,
                        None => {
                            return out;
                        },
                    },
                    None => {
                        return out;
                    },
                },
                None => {
                    return out;
                },
            },
            None => {
                return out;
            },
        },
        None => {
            return out;
        },
    };
    let mut i: usize = 0;
    assert(items@.take(0) =~= Seq::<JsonValue>::empty());
    while i < items.len()
        invariant
            i <= items@.len(),
            json_array(json_path(*json, seq!["data"@, "show"@, "availableEpisodesDetail"@, mode_text(mode)]))
                == Some(items@),
            texts_view(out@) == episode_names(items@.take(i as int)),
        decreases items@.len() - i,
    {
        let ghost before = out@;
        assert(items@.take(i + 1).drop_last() =~= items@.take(i as int));
        assert(items@.take(i + 1).last() == items@[i as int]);
        match items[i].as_str() {
            Some(s) => {
                let t = clone_text(s);
                out.push(t);
                assert(texts_view(out@) =~= texts_view(before).push(t@));
            },
            None => {},
        }
        i += 1;
    }
    assert(items@.take(i as int) =~= items@);
    out
}


/// A provider entry whose source URL is the provider cipher (`--` prefix)
/// gives its name and the decoded path, when the decoding is non-empty.
pub open spec fn source_url_entry(source: JsonValue) -> Option<(Seq<char>, Seq<char>)> {
    let url = str_or_empty(json_get(source, "sourceUrl"@));
    let name = str_or_empty(json_get(source, "sourceName"@));
    if starts_with(url, "--"@) {
        let decoded = decoded_provider_url(url.skip(2));
        if decoded.len() > 0 {
            Some((name, decoded))
        } else {
            None
        }
    } else {
        None
    }
}

pub open spec fn source_url_entries(items: Seq<JsonValue>) -> Seq<(Seq<char>, Seq<char>)>
    decreases items.len(),
{
    if items.len() == 0 {
        Seq::empty()
    } else {
        let rest = source_url_entries(items.drop_last());
        match source_url_entry(items.last()) {
            Some(e) => rest.push(e),
            None => rest,
        }
    }
}

/// Raw `(name, encoded)` pairs decoded, keeping those that decode to
/// something non-empty.
pub open spec fn decoded_raw_entries(pairs: Seq<(Seq<char>, Seq<char>)>) -> Seq<(Seq<char>, Seq<char>)>
    decreases pairs.len(),
{
    if pairs.len() == 0 {
        Seq::empty()
    } else {
        let rest = decoded_raw_entries(pairs.drop_last());
        let d = decoded_provider_url(pairs.last().1);
        if d.len() > 0 {
            rest.push((pairs.last().0, d))
        } else {
            rest
        }
    }
}

/// The provider entries of an episode response before the raw-scan fallback:
/// a `tobeparsed` blob found in the raw text, else the JSON's
/// `/data/episode/tobeparsed`, else its `/data/episode/sourceUrls`.
pub open spec fn primary_provider_entries(resp: Seq<char>, json: Option<JsonValue>) -> Result<Seq<(Seq<char>, Seq<char>)>, Seq<char>> {
    match tobeparsed_blob(resp) {
        Some(b) => decoded_tobeparsed(b),
        None => match json {
            None => Ok(Seq::empty()),
            Some(j) => match json_str(json_path(j, seq!["data"@, "episode"@, "tobeparsed"@])) {
                Some(t) => decoded_tobeparsed(t),
                None => match json_array(json_path(j, seq!["data"@, "episode"@, "sourceUrls"@])) {
                    Some(items) => Ok(source_url_entries(items)),
                    None => Ok(Seq::empty()),
                },
            },
        },
    }
}

/// The provider entries of an episode response (`json` is the response
/// parsed as JSON, when it parses): the primary entries, else the raw scan;
/// an error when neither finds any.
pub open spec fn provider_entries(resp: Seq<char>, json: Option<JsonValue>) -> Result<Seq<(Seq<char>, Seq<char>)>, Seq<char>> {
    match primary_provider_entries(resp, json) {
        Err(e) => Err(e),
        Ok(p) => {
            let all = if p.len() == 0 {
                decoded_raw_entries(source_pairs_from(resp, 0))
            } else {
                p
            };
            if all.len() == 0 {
                Err("No source URLs found"@)
            } else {
                Ok(all)
            }
        },
    }
}

fn source_entries_from_json(items: &Vec<JsonValue>) -> (r: Vec<(String, String)>)
    ensures
        pair_views(r@) == source_url_entries(items@),
{
    let mut out: Vec<(String, String)> = Vec::new();
    let mut i: usize = 0;
    assert(items@.take(0) =~= Seq::<JsonValue>::empty());
    assert(pair_views(out@) =~= Seq::empty());
    while i < items.len()
        invariant
            i <= items@.len(),
            pair_views(out@) == source_url_entries(items@.take(i as int)),
        decreases items@.len() - i,
    {
        let ghost before = pair_views(out@);
        assert(items@.take(i + 1).drop_last() =~= items@.take(i as int));
        assert(items@.take(i + 1).last() == items@[i as int]);
        let item = &items[i];
        let url = text_member(item, "sourceUrl");
        let name = text_member(item, "sourceName");
        if str_starts_with(url.as_str(), "--") {
            proof {
                reveal_strlit("--");
            }
            let cs = chars_of(url.as_str());
            let mut rest: Vec<char> = Vec::new();
            crate::text::extend_range(&mut rest, &cs, 2, cs.len());
            assert(rest@ =~= url@.skip(2));
            let stripped = string_of(rest.as_slice());
            let decoded = decode_provider_url(stripped.as_str());
            if !decoded.as_str().is_empty() {
                let ghost e = (name@, decoded@);
                out.push((name, decoded));
                assert(pair_views(out@) =~= before.push(e));
            }
        }
        i += 1;
    }
    assert(items@.take(i as int) =~= items@);
    out
}

fn decode_raw_pairs(pairs: Vec<(String, String)>) -> (r: Vec<(String, String)>)
    ensures
        pair_views(r@) == decoded_raw_entries(pair_views(pairs@)),
{
    let mut out: Vec<(String, String)> = Vec::new();
    let mut i: usize = 0;
    assert(pair_views(pairs@).take(0) =~= Seq::<(Seq<char>, Seq<char>)>::empty());
    assert(pair_views(out@) =~= Seq::empty());
    while i < pairs.len()
        invariant
            i <= pairs@.len(),
            pair_views(out@) == decoded_raw_entries(pair_views(pairs@).take(i as int)),
        decreases pairs@.len() - i,
    {
        let ghost before = pair_views(out@);
        assert(pair_views(pairs@).take(i + 1).drop_last() =~= pair_views(pairs@).take(i as int));
        assert(pair_views(pairs@).take(i + 1).last() == pair_views(pairs@)[i as int]);
        let name = clone_text(&pairs[i].0);
        let decoded = decode_provider_url(pairs[i].1.as_str());
        if !decoded.as_str().is_empty() {
            let ghost e = (name@, decoded@);
            out.push((name, decoded));
            assert(pair_views(out@) =~= before.push(e));
        }
        i += 1;
    }
    assert(pair_views(pairs@).take(i as int) =~= pair_views(pairs@));
    out
}

/// Collects the `(source name, provider path)` entries of an episode
/// response; `json` is the response parsed as JSON, when it parses.
pub fn collect_provider_data(resp: &str, json: Option<&JsonValue>) -> (r: Result<Vec<(String, String)>, String>)
    ensures
        entries_or_message(r) == provider_entries(resp@, match json { Some(j) => Some(*j), None => None }),
{
    proof {
        reveal_with_fuel(json_path, 4);
        let k1 = seq!["data"@, "episode"@, "tobeparsed"@];
        assert(k1.skip(1) =~= seq!["episode"@, "tobeparsed"@]);
        assert(k1.skip(1).skip(1) =~= seq!["tobeparsed"@]);
        assert(k1.skip(1).skip(1).skip(1) =~= Seq::<Seq<char>>::empty());
        let k2 = seq!["data"@, "episode"@, "sourceUrls"@];
        assert(k2.skip(1) =~= seq!["episode"@, "sourceUrls"@]);
        assert(k2.skip(1).skip(1) =~= seq!["sourceUrls"@]);
        assert(k2.skip(1).skip(1).skip(1) =~= Seq::<Seq<char>>::empty());
    }
    let mut provider_data: Vec<(String, String)> = Vec::new();
    assert(pair_views(provider_data@) =~= Seq::empty());
    match extract_tobeparsed_from_raw(resp) {
        Some(blob) => {
            provider_data = decode_tobeparsed(blob.as_str())?;
        },
        None => match json {
            None => {},
            Some(j) => {
                let episode = match j.get("data") {
                    Some(d) => d.get("episode"),
                    None => None,
                };
                let blob = match episode {
                    Some(e) => match e.get("tobeparsed") {
                        Some(t) => t.as_str(),
                        None => None,
                    },
                    None => None,
                };
                match blob {
                    Some(t) => {
                        provider_data = decode_tobeparsed(t.as_str())?;
                    },
                    None => {
                        let items = match episode {
                            Some(e) => match e.get("sourceUrls") {
                                Some(u) => u.as_array(),
                                None => None,
                            },
                            None => None,
                        };
                        match items {
                            Some(arr) => {
                                provider_data = source_entries_from_json(arr);
                            },
                            None => {},
                        }
                    },
                }
            },
        },
    }
    if provider_data.len() == 0 {
        let pairs = extract_source_pairs_from_raw(resp);
        provider_data = decode_raw_pairs(pairs);
    }
    if provider_data.len() == 0 {
        return Err("No source URLs found".to_owned());
    }
    Ok(provider_data)
}

/// The address a provider path is fetched from: itself when it is already an
/// `https://` URL, else under `https://allanime.day`.
pub open spec fn provider_address(path: Seq<char>) -> Seq<char> {
    if starts_with(path, "https://"@) {
        path
    } else {
        "https://allanime.day"@ + path
    }
}

/// The address a provider path is fetched from.
pub fn provider_url(path: &str) -> (r: String)
    ensures
        r@ == provider_address(path@),
{
    if str_starts_with(path, "https://") {
        path.to_owned()
    } else {
        join_str("https://allanime.day", path)
    }
}


/// A stream candidate: quality label, URL and optional referer.
pub type Link = (String, String, Option<String>);

pub open spec fn opt_text(o: Option<String>) -> Option<Seq<char>> {
    match o {
        Some(s) => Some(s@),
        None => None,
    }
}

pub open spec fn link_view(l: Link) -> (Seq<char>, Seq<char>, Option<Seq<char>>) {
    (l.0@, l.1@, opt_text(l.2))
}

pub open spec fn links_view(v: Seq<Link>) -> Seq<(Seq<char>, Seq<char>, Option<Seq<char>>)> {
    v.map_values(|l: Link| link_view(l))
}

/// The site referer sent with provider and stream requests.
pub open spec fn site_referer() -> Seq<char> {
    "https://allmanga.to"@
}

/// The links a provider URL stands for without being fetched: a
/// `tools.fast4speed.rsvp` URL is one "Yt" stream with the site referer; a
/// URL mentioning `.mp4` or `.m3u8` is one "auto" stream.
pub open spec fn direct_links(url: Seq<char>) -> Option<Seq<(Seq<char>, Seq<char>, Option<Seq<char>>)>> {
    if contains(url, "tools.fast4speed.rsvp"@) {
        Some(seq![("Yt"@, url, Some(site_referer()))])
    } else if contains(url, ".mp4"@) || contains(url, ".m3u8"@) {
        Some(seq![("auto"@, url, None)])
    } else {
        None
    }
}

/// The links a provider URL yields without a request, if it is a direct stream.
pub fn direct_provider_links(url: &str) -> (r: Option<Vec<Link>>)
    ensures
        r matches Some(v) ==> direct_links(url@) == Some(links_view(v@)),
        r is None ==> direct_links(url@) is None,
{
    if str_contains(url, "tools.fast4speed.rsvp") {
        let v = vec![("Yt".to_owned(), url.to_owned(), Some("https://allmanga.to".to_owned()))];
        assert(links_view(v@) =~= seq![("Yt"@, url@, Some(site_referer()))]);
        Some(v)
    } else if str_contains(url, ".mp4") || str_contains(url, ".m3u8") {
        let v = vec![("auto".to_owned(), url.to_owned(), None)];
        assert(links_view(v@) =~= seq![("auto"@, url@, None::<Seq<char>>)]);
        Some(v)
    } else {
        None
    }
}

/// Whether a source is served by Filemoon (its name mentions `Fm-mp4`, or
/// `filemoon` in any case).
pub open spec fn is_filemoon_name(name: Seq<char>) -> bool {
    contains(name, "Fm-mp4"@) || contains(lowercase(name), "filemoon"@)
}

/// Whether a source's links come as a Filemoon encrypted payload.
pub fn is_filemoon_source(name: &str) -> (r: bool)
    ensures
        r == is_filemoon_name(name@),
{
    if str_contains(name, "Fm-mp4") {
        return true;
    }
    let lower = to_lowercase(name);
    str_contains(lower.as_str(), "filemoon")
}

/// The link an element of a provider `links` array describes: its
/// `resolutionStr` (default `auto`), its non-empty `link`, and for `.m3u8`
/// links a referer taken from the element's `Referer` or else the
/// document's `/headers/Referer`.
pub open spec fn link_entry(obj: JsonValue, doc: JsonValue) -> Option<(Seq<char>, Seq<char>, Option<Seq<char>>)> {
    let link = str_or_empty(json_get(obj, "link"@));
    let resolution = match json_str(json_get(obj, "resolutionStr"@)) {
        Some(r) => r,
        None => "auto"@,
    };
    if link.len() == 0 {
        None
    } else {
        let referer = if contains(link, ".m3u8"@) {
            match json_str(json_get(obj, "Referer"@)) {
                Some(r) => Some(r),
                None => json_str(json_path(doc, seq!["headers"@, "Referer"@])),
            }
        } else {
            None
        };
        Some((resolution, link, referer))
    }
}

pub open spec fn link_entries(items: Seq<JsonValue>, doc: JsonValue) -> Seq<(Seq<char>, Seq<char>, Option<Seq<char>>)>
    decreases items.len(),
{
    if items.len() == 0 {
        Seq::empty()
    } else {
        let rest = link_entries(items.drop_last(), doc);
        match link_entry(items.last(), doc) {
            Some(l) => rest.push(l),
            None => rest,
        }
    }
}

/// The links a fetched provider response lists (`json` is the response
/// parsed as JSON, when it parses); with none, a URL mentioning `.mp4` or
/// `.m3u8` stands for itself as one "auto" stream.
pub open spec fn provider_response_links(url: Seq<char>, json: Option<JsonValue>) -> Seq<(Seq<char>, Seq<char>, Option<Seq<char>>)> {
    let parsed = match json {
        Some(doc) => match json_array(json_get(doc, "links"@)) {
            Some(items) => link_entries(items, doc),
            None => Seq::empty(),
        },
        None => Seq::empty(),
    };
    if parsed.len() == 0 && (contains(url, ".mp4"@) || contains(url, ".m3u8"@)) {
        seq![("auto"@, url, None)]
    } else {
        parsed
    }
}

fn text_eq_lit(a: &str, b: &str) -> (r: bool)
    ensures
        r == (a@ == b@),
{
    crate::text::text_eq(a, b)
}

fn opt_clone(o: Option<&String>) -> (r: Option<String>)
    ensures
        opt_text(r) == (match o {
            Some(s) => Some(s@),
            None => None::<Seq<char>>,
        }),
{
    match o {
        Some(s) => Some(clone_text(s)),
        None => None,
    }
}

fn parse_link_entry(obj: &JsonValue, doc: &JsonValue) -> (r: Option<Link>)
    ensures
        r matches Some(l) ==> link_entry(*obj, *doc) == Some(link_view(l)),
        r is None ==> link_entry(*obj, *doc) is None,
{
    proof {
        reveal_with_fuel(json_path, 3);
        let keys = seq!["headers"@, "Referer"@];
        assert(keys.skip(1) =~= seq!["Referer"@]);
        assert(keys.skip(1).skip(1) =~= Seq::<Seq<char>>::empty());
    }
    let link = text_member(obj, "link");
    let resolution = match obj.get("resolutionStr") {
        Some(r) => match r.as_str() {
            Some(t) => clone_text(t),
            None => "auto".to_owned(),
        },
        None => "auto".to_owned(),
    };
    if link.as_str().is_empty() {
        return None;
    }
    let referer = if str_contains(link.as_str(), ".m3u8") {
        let own = match obj.get("Referer") {
            Some(r) => r.as_str(),
            None => None,
        };
        match own {
            Some(t) => Some(clone_text(t)),
            None => {
                let h = match doc.get("headers") {
                    Some(hd) => match hd.get("Referer") {
                        Some(r) => r.as_str(),
                        None => None,
                    },
                    None => None,
                };
                opt_clone(h)
            },
        }
    } else {
        None
    };
    Some((resolution, link, referer))
}

/// The stream links a fetched provider response lists; `json` is the
/// response parsed as JSON, when it parses.
pub fn links_from_provider_response(url: &str, json: Option<&JsonValue>) -> (r: Vec<Link>)
    ensures
        links_view(r@) == provider_response_links(url@, match json { Some(j) => Some(*j), None => None }),
{
    let mut out: Vec<Link> = Vec::new();
    assert(links_view(out@) =~= Seq::empty());
    match json {
        Some(doc) => match doc.get("links") {
            Some(l) => match l.as_array() {
                Some(items) => {
                    let mut i: usize = 0;
                    assert(items@.take(0) =~= Seq::<JsonValue>::empty());
                    while i < items.len()
                        invariant
                            i <= items@.len(),
                            links_view(out@) == link_entries(items@.take(i as int), *doc),
                        decreases items@.len() - i,
                    {
                        let ghost before = links_view(out@);
                        assert(items@.take(i + 1).drop_last() =~= items@.take(i as int));
                        assert(items@.take(i + 1).last() == items@[i as int]);
                        match parse_link_entry(&items[i], doc) {
                            Some(e) => {
                                out.push(e);
                                assert(links_view(out@) =~= before.push(link_view(e)));
                            },
                            None => {},
                        }
                        i += 1;
                    }
                    assert(items@.take(i as int) =~= items@);
                },
                None => {},
            },
            None => {},
        },
        None => {},
    }
    if out.len() == 0 && (str_contains(url, ".mp4") || str_contains(url, ".m3u8")) {
        out.push(("auto".to_owned(), url.to_owned(), None));
        assert(links_view(out@) =~= seq![("auto"@, url@, None::<Seq<char>>)]);
    }
    out
}


/// The number of bytes UTF-8 uses for a character.
pub open spec fn utf8_width(c: char) -> nat {
    if (c as u32) < 0x80 {
        1
    } else if (c as u32) < 0x800 {
        2
    } else if (c as u32) < 0x10000 {
        3
    } else {
        4
    }
}

/// The UTF-8 byte length of a text.
pub open spec fn utf8_len(s: Seq<char>) -> nat
    decreases s.len(),
{
    if s.len() == 0 {
        0
    } else {
        utf8_len(s.drop_last()) + utf8_width(s.last())
    }
}

/// Base64url text turned into the standard alphabet (`-` to `+`, then `_`
/// to `/`) and padded with `=` to a multiple of four bytes.
pub open spec fn b64url_normalized(s: Seq<char>) -> Seq<char> {
    let mapped = s.map_values(|c: char| if c == '-' { '+' } else { c }).map_values(
        |c: char| if c == '_' { '/' } else { c },
    );
    let pad = ((4 - utf8_len(mapped) % 4) % 4) as nat;
    mapped + Seq::new(pad, |i: int| '=')
}

/// Decoding a base64url field: the standard decoding of the normalized text,
/// with errors prefixed `Base64url decode failed: `.
pub open spec fn b64url_decoded(s: Seq<char>) -> Result<Seq<u8>, Seq<char>> {
    match base64_standard_decode(b64url_normalized(s)) {
        Ok(b) => Ok(b),
        Err(e) => Err("Base64url decode failed: "@ + e),
    }
}

/// Decodes a base64url field (unpadded, URL-safe alphabet).
pub fn b64url_decode(input: &str) -> (r: Result<Vec<u8>, String>)
    ensures
        bytes_or_message(r) == b64url_decoded(input@),
{
    let cs = chars_of(input);
    let mut mapped: Vec<char> = Vec::new();
    let mut rem: u8 = 0;
    let mut i: usize = 0;
    let ghost m = cs@.map_values(|c: char| if c == '-' { '+' } else { c }).map_values(
        |c: char| if c == '_' { '/' } else { c },
    );
    while i < cs.len()
        invariant
            i <= cs@.len(),
            m.len() == cs@.len(),
            m == cs@.map_values(|c: char| if c == '-' { '+' } else { c }).map_values(
                |c: char| if c == '_' { '/' } else { c },
            ),
            mapped@ == m.take(i as int),
            rem as nat == utf8_len(mapped@) % 4,
            rem < 4,
        decreases cs@.len() - i,
    {
        let c = cs[i];
        let d = if c == '-' { '+' } else if c == '_' { '/' } else { c };
        assert(d == m[i as int]);
        let w: u8 = if (c as u32) < 0x80 { 1 } else if (c as u32) < 0x800 { 2 } else if (c as u32) < 0x10000 { 3 } else { 4 };
        let ghost before = mapped@;
        mapped.push(d);
        assert(mapped@.drop_last() =~= before);
        assert(utf8_width(d) == w as nat);
        assert(mapped@ =~= m.take(i + 1));
        rem = (rem + w) % 4;
        i += 1;
    }
    assert(mapped@ =~= m);
    let pad: usize = ((4 - rem) % 4) as usize;
    let ghost base = mapped@;
    let mut k: usize = 0;
    while k < pad
        invariant
            k <= pad,
            mapped@ == base + Seq::new(k as nat, |j: int| '='),
        decreases pad - k,
    {
        mapped.push('=');
        k += 1;
        assert(mapped@ =~= base + Seq::new(k as nat, |j: int| '='));
    }
    assert(mapped@ =~= b64url_normalized(input@));
    let normalized = string_of(mapped.as_slice());
    match base64_decode(normalized.as_str()) {
        Ok(b) => Ok(b),
        Err(e) => Err(join_str("Base64url decode failed: ", e.as_str())),
    }
}

/// Concatenated bytes or the first error.
pub open spec fn then_concat(a: Result<Seq<u8>, Seq<char>>, b: Result<Seq<u8>, Seq<char>>) -> Result<Seq<u8>, Seq<char>> {
    match a {
        Err(e) => Err(e),
        Ok(x) => match b {
            Err(e) => Err(e),
            Ok(y) => Ok(x + y),
        },
    }
}

/// What decrypting a Filemoon response yields: its `iv`, `payload` and two
/// `key_parts` (base64url), a 32-byte key, a 12-byte IV completed to a counter
/// block with `00 00 00 02`, a payload longer than its 16-byte tag, and
/// AES-256-CTR over the payload without the tag, read as lossy UTF-8. Each
/// missing or malformed field gives its own error, checked in this order.
pub open spec fn filemoon_plain(resp: JsonValue) -> Result<Seq<char>, Seq<char>> {
    match json_str(json_get(resp, "iv"@)) {
        None => Err("Missing Filemoon iv"@),
        Some(iv) => match json_str(json_get(resp, "payload"@)) {
            None => Err("Missing Filemoon payload"@),
            Some(payload) => match json_array(json_get(resp, "key_parts"@)) {
                None => Err("Missing Filemoon key_parts"@),
                Some(parts) => if parts.len() < 2 {
                    Err("Invalid Filemoon key_parts"@)
                } else {
                    match json_str(Some(parts[0])) {
                        None => Err("Invalid Filemoon key_parts[0]"@),
                        Some(kp1) => match json_str(Some(parts[1])) {
                            None => Err("Invalid Filemoon key_parts[1]"@),
                            Some(kp2) => match then_concat(b64url_decoded(kp1), b64url_decoded(kp2)) {
                                Err(e) => Err(e),
                                Ok(key) => if key.len() != 32 {
                                    Err("Invalid Filemoon key length: "@ + decimal(key.len()))
                                } else {
                                    match b64url_decoded(iv) {
                                        Err(e) => Err(e),
                                        Ok(ivb) => if ivb.len() != 12 {
                                            Err("Invalid Filemoon iv length: "@ + decimal(ivb.len()))
                                        } else {
                                            match b64url_decoded(payload) {
                                                Err(e) => Err(e),
                                                Ok(pb) => if pb.len() <= 16 {
                                                    Err("Filemoon payload too short"@)
                                                } else {
                                                    Ok(utf8_lossy(aes256_ctr_apply(key, ivb + seq![0u8, 0u8, 0u8, 2u8], pb.subrange(0, pb.len() - 16))))
                                                },
                                            }
                                        },
                                    }
                                },
                            },
                        },
                    }
                },
            },
        },
    }
}

pub open spec fn text_or_message(r: Result<String, String>) -> Result<Seq<char>, Seq<char>> {
    match r {
        Ok(s) => Ok(s@),
        Err(e) => Err(e@),
    }
}

fn member_text<'a>(v: &'a JsonValue, key: &str) -> (r: Option<&'a String>)
    ensures
        r matches Some(s) ==> json_str(json_get(*v, key@)) == Some(s@),
        r is None ==> json_str(json_get(*v, key@)) is None,
{
    match v.get(key) {
        Some(m) => m.as_str(),
        None => None,
    }
}

/// Decrypts a Filemoon provider response into the text of its stream list.
pub fn filemoon_plaintext(resp: &JsonValue) -> (r: Result<String, String>)
    ensures
        text_or_message(r) == filemoon_plain(*resp),
{
    let iv = match member_text(resp, "iv") {
        Some(t) => t,
        None => {
            return Err("Missing Filemoon iv".to_owned());
        },
    };
    let payload = match member_text(resp, "payload") {
        Some(t) => t,
        None => {
            return Err("Missing Filemoon payload".to_owned());
        },
    };
    let parts = match resp.get("key_parts") {
        Some(k) => match k.as_array() {
            Some(a) => a,
            None => {
                return Err("Missing Filemoon key_parts".to_owned());
            },
        },
        None => {
            return Err("Missing Filemoon key_parts".to_owned());
        },
    };
    if parts.len() < 2 {
        return Err("Invalid Filemoon key_parts".to_owned());
    }
    let kp1 = match parts[0].as_str() {
        Some(t) => t,
        None => {
            return Err("Invalid Filemoon key_parts[0]".to_owned());
        },
    };
    let kp2 = match parts[1].as_str() {
        Some(t) => t,
        None => {
            return Err("Invalid Filemoon key_parts[1]".to_owned());
        },
    };
    let mut key = b64url_decode(kp1.as_str())?;
    let second = b64url_decode(kp2.as_str())?;
    let ghost first = key@;
    let mut j: usize = 0;
    while j < second.len()
        invariant
            j <= second@.len(),
            key@ == first + second@.take(j as int),
        decreases second@.len() - j,
    {
        key.push(second[j]);
        j += 1;
        assert(key@ =~= first + second@.take(j as int));
    }
    assert(second@.take(j as int) =~= second@);
    if key.len() != 32 {
        let n = decimal_text(key.len() as u64);
        return Err(join_str("Invalid Filemoon key length: ", n.as_str()));
    }
    let mut ctr = b64url_decode(iv.as_str())?;
    if ctr.len() != 12 {
        let n = decimal_text(ctr.len() as u64);
        return Err(join_str("Invalid Filemoon iv length: ", n.as_str()));
    }
    let ghost ivb = ctr@;
    ctr.push(0);
    ctr.push(0);
    ctr.push(0);
    ctr.push(2);
    assert(ctr@ =~= ivb + seq![0u8, 0u8, 0u8, 2u8]);
    let payload_bytes = b64url_decode(payload.as_str())?;
    if payload_bytes.len() <= 16 {
        return Err("Filemoon payload too short".to_owned());
    }
    let ct = vstd::slice::slice_subrange(payload_bytes.as_slice(), 0, payload_bytes.len() - 16);
    let plain = match aes_256_ctr_decrypt(key.as_slice(), ctr.as_slice(), ct) {
        Ok(p) => p,
        Err(e) => {
            return Err(join_str("Filemoon AES decryption failed: ", e.as_str()));
        },
    };
    Ok(utf8_lossy_string(plain.as_slice()))
}


/// The rank of a quality label: the number before any trailing `p`s, or 0
/// when that is not a `u32`.
pub open spec fn quality_rank(q: Seq<char>) -> u32 {
    match parse_u32_text(trim_end_char(q, 'p')) {
        Some(n) => n,
        None => 0,
    }
}

/// The rank of a quality label such as `1080p`.
pub fn quality_number(q: &str) -> (r: u32)
    ensures
        r == quality_rank(q@),
{
    let cs = chars_of(q);
    let t = vec_trim_end_char(&cs, 'p');
    match parse_u32(&t) {
        Some(n) => n,
        None => 0,
    }
}

/// The index of the first link with the highest rank.
pub open spec fn first_best_index(s: Seq<(Seq<char>, Seq<char>, Option<Seq<char>>)>) -> int
    decreases s.len(),
{
    if s.len() <= 1 {
        0
    } else {
        let j = first_best_index(s.drop_last());
        if quality_rank(s.last().0) > quality_rank(s[j].0) {
            s.len() - 1
        } else {
            j
        }
    }
}

pub proof fn lemma_first_best_index(s: Seq<(Seq<char>, Seq<char>, Option<Seq<char>>)>)
    requires
        s.len() > 0,
    ensures
        0 <= first_best_index(s) < s.len(),
        forall|k: int| 0 <= k < s.len() ==> quality_rank(#[trigger] s[k].0) <= quality_rank(s[first_best_index(s)].0),
        forall|k: int| 0 <= k < first_best_index(s) ==> quality_rank(#[trigger] s[k].0) < quality_rank(s[first_best_index(s)].0),
    decreases s.len(),
{
    if s.len() > 1 {
        let t = s.drop_last();
        lemma_first_best_index(t);
        assert forall|k: int| 0 <= k < t.len() implies s[k] == t[k] by {}
    }
}

/// The links ordered by rank, highest first, keeping the original order among
/// equal ranks: repeatedly the earliest link of highest rank.
pub open spec fn ranked_links(s: Seq<(Seq<char>, Seq<char>, Option<Seq<char>>)>) -> Seq<(Seq<char>, Seq<char>, Option<Seq<char>>)>
    decreases s.len(),
{
    if s.len() == 0 {
        Seq::empty()
    } else {
        proof {
            lemma_first_best_index(s);
        }
        let i = first_best_index(s);
        seq![s[i]] + ranked_links(s.remove(i))
    }
}

/// Ranking keeps every link and only those, and orders them by rank,
/// highest first.
pub proof fn lemma_ranked_links_sorted(s: Seq<(Seq<char>, Seq<char>, Option<Seq<char>>)>)
    ensures
        ranked_links(s).len() == s.len(),
        forall|k: int| 0 <= k < ranked_links(s).len() ==> s.contains(#[trigger] ranked_links(s)[k]),
        forall|i: int, j: int|
            0 <= i < j < ranked_links(s).len() ==> quality_rank(#[trigger] ranked_links(s)[i].0) >= quality_rank(
                #[trigger] ranked_links(s)[j].0,
            ),
    decreases s.len(),
{
    if s.len() > 0 {
        lemma_first_best_index(s);
        let b = first_best_index(s);
        let t = s.remove(b);
        lemma_ranked_links_sorted(t);
        let r = ranked_links(s);
        let rt = ranked_links(t);
        assert(r == seq![s[b]] + rt);
        assert forall|k: int| 0 <= k < rt.len() implies s.contains(#[trigger] rt[k]) by {
            assert(t.contains(rt[k]));
            let m = choose|m: int| 0 <= m < t.len() && t[m] == rt[k];
            if m < b {
                assert(s[m] == t[m]);
            } else {
                assert(s[m + 1] == t[m]);
            }
        }
        assert forall|k: int| 0 <= k < r.len() implies s.contains(#[trigger] r[k]) by {
            if k > 0 {
                assert(r[k] == rt[k - 1]);
            }
        }
        assert forall|i: int, j: int| 0 <= i < j < r.len() implies quality_rank(#[trigger] r[i].0) >= quality_rank(
            #[trigger] r[j].0,
        ) by {
            if i == 0 {
                assert(r[j] == rt[j - 1]);
                assert(s.contains(rt[j - 1]));
                let m = choose|m: int| 0 <= m < s.len() && s[m] == rt[j - 1];
                assert(quality_rank(s[m].0) <= quality_rank(s[b].0));
            } else {
                assert(r[i] == rt[i - 1]);
                assert(r[j] == rt[j - 1]);
            }
        }
    }
}

fn best_index(v: &Vec<Link>) -> (r: usize)
    requires
        v@.len() > 0,
    ensures
        r as int == first_best_index(links_view(v@)),
{
    let ghost lv = links_view(v@);
    let mut best: usize = 0;
    let mut best_rank = quality_number(v[0].0.as_str());
    let mut j: usize = 1;
    assert(lv.take(1).len() == 1);
    while j < v.len()
        invariant
            1 <= j <= v@.len(),
            lv == links_view(v@),
            best as int == first_best_index(lv.take(j as int)),
            best < j,
            best_rank == quality_rank(lv[best as int].0),
        decreases v@.len() - j,
    {
        assert(lv.take(j + 1).drop_last() =~= lv.take(j as int));
        assert(lv.take(j + 1).last() == lv[j as int]);
        assert(lv.take(j + 1)[best as int] == lv[best as int]);
        let rank = quality_number(v[j].0.as_str());
        if rank > best_rank {
            best = j;
            best_rank = rank;
        }
        j += 1;
    }
    assert(lv.take(j as int) =~= lv);
    best
}

/// Orders stream links by rank, highest first, stably.
pub fn rank_links(links: Vec<Link>) -> (r: Vec<Link>)
    ensures
        links_view(r@) == ranked_links(links_view(links@)),
{
    let mut rest = links;
    let mut out: Vec<Link> = Vec::new();
    let ghost whole = links_view(rest@);
    assert(links_view(out@) + ranked_links(links_view(rest@)) =~= whole.take(0) + ranked_links(whole));
    while rest.len() > 0
        invariant
            links_view(out@) + ranked_links(links_view(rest@)) == ranked_links(whole),
        decreases rest@.len(),
    {
        let ghost before_out = links_view(out@);
        let ghost before_rest = links_view(rest@);
        let i = best_index(&rest);
        proof {
            lemma_first_best_index(before_rest);
        }
        let item = rest.remove(i);
        assert(links_view(rest@) =~= before_rest.remove(i as int));
        assert(link_view(item) == before_rest[i as int]);
        out.push(item);
        assert(links_view(out@) =~= before_out.push(before_rest[i as int]));
        assert(ranked_links(before_rest) == seq![before_rest[i as int]] + ranked_links(before_rest.remove(i as int)));
        assert(before_out.push(before_rest[i as int]) + ranked_links(before_rest.remove(i as int))
            =~= before_out + (seq![before_rest[i as int]] + ranked_links(before_rest.remove(i as int))));
    }
    assert(links_view(out@) + Seq::empty() =~= links_view(out@));
    out
}

/// The first link at or after `i` whose quality label contains `q`.
pub open spec fn first_containing(s: Seq<(Seq<char>, Seq<char>, Option<Seq<char>>)>, q: Seq<char>, i: int) -> Option<int>
    decreases s.len() - i,
{
    if i < 0 || i >= s.len() {
        None
    } else if contains(s[i].0, q) {
        Some(i)
    } else {
        first_containing(s, q, i + 1)
    }
}

/// A link found by `first_containing` lies inside the list.
pub proof fn lemma_first_containing_bounds(
    s: Seq<(Seq<char>, Seq<char>, Option<Seq<char>>)>,
    q: Seq<char>,
    i: int,
)
    requires
        0 <= i,
    ensures
        first_containing(s, q, i) matches Some(k) ==> i <= k < s.len(),
    decreases s.len() - i,
{
    if i < s.len() && !contains(s[i].0, q) {
        lemma_first_containing_bounds(s, q, i + 1);
    }
}

/// The link a quality preference picks from ranked links: `best` the first,
/// `worst` the last, anything else the first whose label contains it, or the
/// first.
pub open spec fn pick_link(ranked: Seq<(Seq<char>, Seq<char>, Option<Seq<char>>)>, quality: Seq<char>) -> Option<(Seq<char>, Seq<char>, Option<Seq<char>>)> {
    if ranked.len() == 0 {
        None
    } else if quality == "best"@ {
        Some(ranked[0])
    } else if quality == "worst"@ {
        Some(ranked.last())
    } else {
        match first_containing(ranked, quality, 0) {
            Some(k) => Some(ranked[k]),
            None => Some(ranked[0]),
        }
    }
}

/// The stream chosen from all collected links: an error when there are none;
/// else the picked link's URL and quality, with the site referer when the
/// link carries none, and no subtitle.
pub open spec fn stream_choice(links: Seq<(Seq<char>, Seq<char>, Option<Seq<char>>)>, quality: Seq<char>) -> Result<(Seq<char>, Seq<char>, Option<Seq<char>>, Option<Seq<char>>), Seq<char>> {
    if links.len() == 0 {
        Err("No valid streaming links found"@)
    } else {
        match pick_link(ranked_links(links), quality) {
            None => Err("No matching quality found"@),
            Some(l) => Ok((l.1, l.0, match l.2 {
                Some(r) => Some(r),
                None => Some(site_referer()),
            }, None)),
        }
    }
}

pub open spec fn episode_url_view(e: EpisodeUrl) -> (Seq<char>, Seq<char>, Option<Seq<char>>, Option<Seq<char>>) {
    (e.url@, e.quality@, opt_text(e.referer), opt_text(e.subtitle))
}

pub open spec fn stream_or_message(r: Result<EpisodeUrl, String>) -> Result<(Seq<char>, Seq<char>, Option<Seq<char>>, Option<Seq<char>>), Seq<char>> {
    match r {
        Ok(e) => Ok(episode_url_view(e)),
        Err(m) => Err(m@),
    }
}

/// Chooses the stream to play from every link the providers gave.
pub fn choose_stream(links: Vec<Link>, quality: &str) -> (r: Result<EpisodeUrl, String>)
    ensures
        stream_or_message(r) == stream_choice(links_view(links@), quality@),
{
    if links.len() == 0 {
        return Err("No valid streaming links found".to_owned());
    }
    let ranked = rank_links(links);
    let ghost rv = links_view(ranked@);
    let n = ranked.len();
    if n == 0 {
        return Err("No matching quality found".to_owned());
    }
    let idx: usize = if text_eq_lit(quality, "best") {
        0
    } else if text_eq_lit(quality, "worst") {
        n - 1
    } else {
        let mut k: usize = 0;
        let mut found: Option<usize> = None;
        while k < n
            invariant
                n == ranked@.len(),
                rv == links_view(ranked@),
                k <= n,
                found is None ==> first_containing(rv, quality@, 0) == first_containing(rv, quality@, k as int),
                found matches Some(f) ==> first_containing(rv, quality@, 0) == Some(f as int) && f < n,
            decreases n - k,
        {
            if found.is_none() {
                if str_contains(ranked[k].0.as_str(), quality) {
                    assert(rv[k as int].0 == ranked@[k as int].0@);
                    found = Some(k);
                } else {
                    assert(rv[k as int].0 == ranked@[k as int].0@);
                }
            }
            k += 1;
        }
        match found {
            Some(f) => f,
            None => 0,
        }
    };
    let (qual, url, refr) = (&ranked[idx].0, &ranked[idx].1, &ranked[idx].2);
    let referer = match refr {
        Some(r) => Some(clone_text(r)),
        None => Some("https://allmanga.to".to_owned()),
    };
    Ok(EpisodeUrl { url: clone_text(url), quality: clone_text(qual), referer, subtitle: None })
}

/// A Filemoon stream's link: quality `{height}p`, URL with the escaped `&`
/// and `=` restored, no referer; streams without a URL are left out.
pub open spec fn filemoon_stream_link(stream: JsonValue) -> Option<(Seq<char>, Seq<char>, Option<Seq<char>>)> {
    let url = str_or_empty(json_get(stream, "url"@));
    let height = match json_u64(json_get(stream, "height"@)) {
        Some(h) => h,
        None => 0u64,
    };
    if url.len() == 0 {
        None
    } else {
        Some((decimal(height as nat).push('p'), replace_all(replace_all(url, "\\u0026"@, "&"@), "\\u003D"@, "="@), None))
    }
}

pub open spec fn filemoon_stream_links(items: Seq<JsonValue>) -> Seq<(Seq<char>, Seq<char>, Option<Seq<char>>)>
    decreases items.len(),
{
    if items.len() == 0 {
        Seq::empty()
    } else {
        let rest = filemoon_stream_links(items.drop_last());
        match filemoon_stream_link(items.last()) {
            Some(l) => rest.push(l),
            None => rest,
        }
    }
}

/// The links of a decrypted Filemoon stream list, ranked.
pub open spec fn filemoon_link_list(streams: JsonValue) -> Result<Seq<(Seq<char>, Seq<char>, Option<Seq<char>>)>, Seq<char>> {
    match json_array(Some(streams)) {
        None => Err("Filemoon plaintext is not an array"@),
        Some(items) => Ok(ranked_links(filemoon_stream_links(items))),
    }
}

pub open spec fn links_or_message(r: Result<Vec<Link>, String>) -> Result<Seq<(Seq<char>, Seq<char>, Option<Seq<char>>)>, Seq<char>> {
    match r {
        Ok(v) => Ok(links_view(v@)),
        Err(e) => Err(e@),
    }
}

fn replace_text(s: &str, pat: &str, rep: &str) -> (r: String)
    requires
        pat@.len() > 0,
    ensures
        r@ == replace_all(s@, pat@, rep@),
{
    let a = chars_of(s);
    let p = chars_of(pat);
    let b = chars_of(rep);
    let out = vec_replace_all(&a, &p, &b);
    string_of(out.as_slice())
}

fn parse_filemoon_stream(stream: &JsonValue) -> (r: Option<Link>)
    ensures
        r matches Some(l) ==> filemoon_stream_link(*stream) == Some(link_view(l)),
        r is None ==> filemoon_stream_link(*stream) is None,
{
    let url = text_member(stream, "url");
    let height: u64 = match stream.get("height") {
        Some(h) => match h.as_u64() {
            Some(x) => x,
            None => 0,
        },
        None => 0,
    };
    if url.as_str().is_empty() {
        return None;
    }
    let digits = decimal_text(height);
    let qual = join_str(digits.as_str(), "p");
    proof {
        reveal_strlit("p");
        reveal_strlit("\\u0026");
        reveal_strlit("\\u003D");
    }
    assert(qual@ =~= decimal(height as nat).push('p'));
    let u1 = replace_text(url.as_str(), "\\u0026", "&");
    let u2 = replace_text(u1.as_str(), "\\u003D", "=");
    Some((qual, u2, None))
}

/// Reads the streams of a decrypted Filemoon list (parsed JSON), ranked.
pub fn filemoon_links(streams: &JsonValue) -> (r: Result<Vec<Link>, String>)
    ensures
        links_or_message(r) == filemoon_link_list(*streams),
{
    let items = match streams.as_array() {
        Some(a) => a,
        None => {
            return Err("Filemoon plaintext is not an array".to_owned());
        },
    };
    let mut out: Vec<Link> = Vec::new();
    let mut i: usize = 0;
    assert(items@.take(0) =~= Seq::<JsonValue>::empty());
    assert(links_view(out@) =~= Seq::empty());
    while i < items.len()
        invariant
            i <= items@.len(),
            links_view(out@) == filemoon_stream_links(items@.take(i as int)),
        decreases items@.len() - i,
    {
        let ghost before = links_view(out@);
        assert(items@.take(i + 1).drop_last() =~= items@.take(i as int));
        assert(items@.take(i + 1).last() == items@[i as int]);
        match parse_filemoon_stream(&items[i]) {
            Some(l) => {
                out.push(l);
                assert(links_view(out@) =~= before.push(link_view(l)));
            },
            None => {},
        }
        i += 1;
    }
    assert(items@.take(i as int) =~= items@);
    Ok(rank_links(out))
}

/// The links of the providers that answered, in provider order; a provider
/// that failed contributes nothing.
pub open spec fn gathered_links(results: Seq<Result<Vec<Link>, String>>) -> Seq<
    (Seq<char>, Seq<char>, Option<Seq<char>>),
>
    decreases results.len(),
{
    if results.len() == 0 {
        Seq::empty()
    } else {
        gathered_links(results.drop_last()) + match results.last() {
            Ok(v) => links_view(v@),
            Err(_) => Seq::empty(),
        }
    }
}

/// Joins the links of every provider that answered, in order, skipping the
/// ones that failed.
pub fn gather_links(results: &Vec<Result<Vec<Link>, String>>) -> (r: Vec<Link>)
    ensures
        links_view(r@) == gathered_links(results@),
{
    let mut out: Vec<Link> = Vec::new();
    let mut i: usize = 0;
    while i < results.len()
        invariant
            i <= results@.len(),
            links_view(out@) == gathered_links(results@.take(i as int)),
        decreases results@.len() - i,
    {
        let ghost before = links_view(out@);
        match &results[i] {
            Ok(v) => {
                let mut k: usize = 0;
                while k < v.len()
                    invariant
                        k <= v@.len(),
                        links_view(out@) == before + links_view(v@.take(k as int)),
                    decreases v@.len() - k,
                {
                    let l = &v[k];
                    let item: Link = (l.0.clone(), l.1.clone(), opt_clone(l.2.as_ref()));
                    let ghost prev = out@;
                    out.push(item);
                    assert(links_view(out@) =~= links_view(prev).push(link_view(v@[k as int])));
                    assert(links_view(v@.take(k + 1)) =~= links_view(v@.take(k as int)).push(
                        link_view(v@[k as int]),
                    ));
                    k += 1;
                }
                assert(v@.take(v@.len() as int) =~= v@);
            },
            Err(_) => {
                assert(before + Seq::empty() =~= before);
            },
        }
        assert(results@.take(i + 1).drop_last() =~= results@.take(i as int));
        i += 1;
    }
    assert(results@.take(results@.len() as int) =~= results@);
    out
}

/// A non-empty list of links always yields a stream, and that stream is one
/// of the links: its URL and quality label are the link's, its referer is
/// the link's own when the link carries one and the site referer
/// (`https://allmanga.to`) only when it carries none, and it has no
/// subtitle. Asking for `best` yields a link of the highest rank.
pub proof fn lemma_chosen_stream_is_a_link(
    links: Seq<(Seq<char>, Seq<char>, Option<Seq<char>>)>,
    quality: Seq<char>,
)
    requires
        links.len() > 0,
    ensures
        stream_choice(links, quality) is Ok,
        stream_choice(links, quality) matches Ok((url, q, referer, subtitle)) ==> {
            &&& subtitle is None
            &&& exists|i: int|
                0 <= i < links.len() && #[trigger] links[i].1 == url && links[i].0 == q
                    && referer == match links[i].2 {
                    Some(r) => Some(r),
                    None => Some("https://allmanga.to"@),
                }
            &&& quality == "best"@ ==> forall|k: int|
                0 <= k < links.len() ==> quality_rank(#[trigger] links[k].0) <= quality_rank(q)
        },
{
    lemma_ranked_links_sorted(links);
    let ranked = ranked_links(links);
    assert(ranked.len() > 0);
    let j: int = if quality == "best"@ {
        0
    } else if quality == "worst"@ {
        ranked.len() - 1
    } else {
        match first_containing(ranked, quality, 0) {
            Some(k) => k,
            None => 0,
        }
    };
    if quality != "best"@ && quality != "worst"@ {
        lemma_first_containing_bounds(ranked, quality, 0);
    }
    assert(0 <= j < ranked.len());
    assert(pick_link(ranked, quality) == Some(ranked[j]));
    let l = ranked[j];
    assert(links.contains(ranked[j]));
    let i = choose|i: int| 0 <= i < links.len() && links[i] == l;
    assert(links[i].1 == l.1);
    if quality == "best"@ {
        lemma_first_best_index(links);
        let b = first_best_index(links);
        assert(ranked[0] == links[b]);
        assert forall|k: int| 0 <= k < links.len() implies quality_rank(#[trigger] links[k].0)
            <= quality_rank(l.0) by {}
    }
}

/// Every element of a `links` array keeps its usable entry in the list
/// (helper for `lemma_provider_links_keep_resolution`).
proof fn lemma_link_entries_keep(items: Seq<JsonValue>, doc: JsonValue, k: int)
    requires
        0 <= k < items.len(),
        link_entry(items[k], doc) is Some,
    ensures
        link_entries(items, doc).contains(link_entry(items[k], doc)->Some_0),
    decreases items.len(),
{
    let rest = link_entries(items.drop_last(), doc);
    if k == items.len() - 1 {
        let e = link_entry(items[k], doc)->Some_0;
        assert(link_entries(items, doc) == rest.push(e));
        assert(link_entries(items, doc)[rest.len() as int] == e);
    } else {
        assert(items.drop_last()[k] == items[k]);
        lemma_link_entries_keep(items.drop_last(), doc, k);
        let e = link_entry(items[k], doc)->Some_0;
        let m = choose|m: int| 0 <= m < rest.len() && rest[m] == e;
        match link_entry(items.last(), doc) {
            Some(l) => {
                assert(link_entries(items, doc)[m] == e);
            },
            None => {},
        }
    }
}

/// Each element of a provider response's `links` array with a non-empty
/// `link` string gives a stream link for exactly that URL whose quality
/// label is the element's `resolutionStr` when that is a string, and `auto`
/// only when it is absent or not a string.
pub proof fn lemma_provider_links_keep_resolution(url: Seq<char>, doc: JsonValue, k: int)
    requires
        json_array(json_get(doc, "links"@)) is Some,
        0 <= k < json_array(json_get(doc, "links"@))->Some_0.len(),
        str_or_empty(json_get(json_array(json_get(doc, "links"@))->Some_0[k], "link"@)).len() > 0,
    ensures
        ({
            let item = json_array(json_get(doc, "links"@))->Some_0[k];
            let found = provider_response_links(url, Some(doc));
            exists|m: int|
                0 <= m < found.len() && #[trigger] found[m].1 == str_or_empty(json_get(item, "link"@))
                    && found[m].0 == match json_get(item, "resolutionStr"@) {
                    Some(JsonValue::String(r)) => r@,
                    _ => "auto"@,
                }
        }),
{
    let items = json_array(json_get(doc, "links"@))->Some_0;
    let item = items[k];
    let e = link_entry(item, doc)->Some_0;
    assert(link_entry(item, doc) is Some);
    lemma_link_entries_keep(items, doc, k);
    let parsed = link_entries(items, doc);
    assert(parsed.len() > 0);
    assert(provider_response_links(url, Some(doc)) == parsed);
    let m = choose|m: int| 0 <= m < parsed.len() && parsed[m] == e;
    assert(parsed[m].1 == str_or_empty(json_get(item, "link"@)));
}

} // verus!
