//! Jikan (MyAnimeList) records, cover-image choice, and the title matching
//! used to pair a provider show with its MyAnimeList entry.

use vstd::prelude::*;

use crate::text::{
    char_to_uppercase, char_uppercase, chars_of, contains, extend_range, is_digit, lowercase,
    str_contains, string_of, text_eq, to_lowercase, trim_end_char, trim_space, trim_start_char,
    trim_start_space, vec_trim_end_char, ascii_upper, vec_trim_end_space, vec_trim_start_char,
    vec_trim_start_space,
};

verus! {

/// One page of a paginated Jikan listing.
pub struct JikanPaginated<T> {
    pub data: Vec<T>,
    pub pagination: JikanPagination,
}

pub struct JikanPagination {
    pub last_visible_page: u32,
    pub has_next_page: bool,
    pub current_page: u32,
    pub items: JikanPaginationItems,
}

pub struct JikanPaginationItems {
    pub count: u32,
    pub total: u32,
    pub per_page: u32,
}

/// Cover images in JPEG and WebP.
pub struct JikanImages {
    pub jpg: JikanImageUrls,
    pub webp: JikanImageUrls,
}

pub struct JikanImageUrls {
    pub image_url: Option<String>,
    pub small_image_url: Option<String>,
    pub large_image_url: Option<String>,
}

pub struct JikanAired {
    pub from: Option<String>,
    pub to: Option<String>,
    pub string: Option<String>,
}

pub struct JikanBroadcast {
    pub day: Option<String>,
    pub time: Option<String>,
    pub timezone: Option<String>,
    pub string: Option<String>,
}

pub struct JikanMalItem {
    pub mal_id: u32,
    pub name: String,
    pub url: Option<String>,
}

pub struct JikanTrailer {
    pub youtube_id: Option<String>,
    pub url: Option<String>,
    pub embed_url: Option<String>,
}

pub struct JikanStreaming {
    pub name: String,
    pub url: String,
}

pub struct JikanRelation {
    pub relation: String,
    pub entry: Vec<JikanRelationEntry>,
}

pub struct JikanRelationEntry {
    pub mal_id: u32,
    pub entry_type: String,
    pub name: String,
    pub url: String,
}

pub struct JikanTheme {
    pub openings: Vec<String>,
    pub endings: Vec<String>,
}

pub struct JikanSeasonInfo {
    pub year: i32,
    pub seasons: Vec<String>,
}

pub struct JikanGenre {
    pub mal_id: u32,
    pub name: String,
    pub url: Option<String>,
    pub count: Option<u32>,
}

pub struct JikanRecommendation {
    pub entry: JikanRecommendationEntry,
    pub url: Option<String>,
    pub votes: Option<u32>,
}

pub struct JikanRecommendationEntry {
    pub mal_id: u32,
    pub url: Option<String>,
    pub images: Option<JikanImages>,
    pub title: Option<String>,
}

pub struct JikanCharacter {
    pub character: JikanMalItem,
    pub role: Option<String>,
    pub voice_actors: Vec<JikanVoiceActor>,
}

pub struct JikanVoiceActor {
    pub person: JikanMalItem,
    pub language: Option<String>,
}

pub open spec fn opt_view(o: Option<String>) -> Option<Seq<char>> {
    match o {
        Some(s) => Some(s@),
        None => None,
    }
}

/// The preferred cover: large WebP, large JPEG, WebP, then JPEG.
pub open spec fn best_image(i: JikanImages) -> Option<Seq<char>> {
    if i.webp.large_image_url is Some {
        opt_view(i.webp.large_image_url)
    } else if i.jpg.large_image_url is Some {
        opt_view(i.jpg.large_image_url)
    } else if i.webp.image_url is Some {
        opt_view(i.webp.image_url)
    } else {
        opt_view(i.jpg.image_url)
    }
}

impl JikanImages {
    /// The URL of the preferred cover image.
    pub fn best_url(&self) -> (r: Option<&str>)
        ensures
            r matches Some(s) ==> best_image(*self) == Some(s@),
            r is None ==> best_image(*self) is None,
    {
        match &self.webp.large_image_url {
            Some(u) => Some(u.as_str()),
            None => match &self.jpg.large_image_url {
                Some(u) => Some(u.as_str()),
                None => match &self.webp.image_url {
                    Some(u) => Some(u.as_str()),
                    None => match &self.jpg.image_url {
                        Some(u) => Some(u.as_str()),
                        None => None,
                    },
                },
            },
        }
    }
}

pub open spec fn min3(a: nat, b: nat, c: nat) -> nat {
    if a <= b && a <= c {
        a
    } else if b <= c {
        b
    } else {
        c
    }
}

/// Edit distance by the usual prefix recurrence: matching last characters
/// cost nothing; otherwise one substitution, deletion or insertion more than
/// the cheapest smaller problem.
pub open spec fn edit_distance(a: Seq<char>, b: Seq<char>) -> nat
    decreases a.len() + b.len(),
{
    if a.len() == 0 {
        b.len()
    } else if b.len() == 0 {
        a.len()
    } else if a.last() == b.last() {
        edit_distance(a.drop_last(), b.drop_last())
    } else {
        1 + min3(
            edit_distance(a.drop_last(), b.drop_last()),
            edit_distance(a, b.drop_last()),
            edit_distance(a.drop_last(), b),
        )
    }
}

pub proof fn lemma_edit_distance_bound(a: Seq<char>, b: Seq<char>)
    ensures
        edit_distance(a, b) <= if a.len() >= b.len() { a.len() } else { b.len() },
    decreases a.len() + b.len(),
{
    if a.len() > 0 && b.len() > 0 {
        lemma_edit_distance_bound(a.drop_last(), b.drop_last());
        lemma_edit_distance_bound(a, b.drop_last());
        lemma_edit_distance_bound(a.drop_last(), b);
    }
}

/// Edit distance does not depend on the order of its arguments.
pub proof fn lemma_edit_distance_symmetric(a: Seq<char>, b: Seq<char>)
    ensures
        edit_distance(a, b) == edit_distance(b, a),
    decreases a.len() + b.len(),
{
    if a.len() > 0 && b.len() > 0 {
        lemma_edit_distance_symmetric(a.drop_last(), b.drop_last());
        lemma_edit_distance_symmetric(a, b.drop_last());
        lemma_edit_distance_symmetric(a.drop_last(), b);
    }
}

/// A text is at distance zero from itself.
pub proof fn lemma_edit_distance_self(a: Seq<char>)
    ensures
        edit_distance(a, a) == 0,
    decreases a.len(),
{
    if a.len() > 0 {
        lemma_edit_distance_self(a.drop_last());
    }
}

/// The distance is at least the difference of the lengths.
pub proof fn lemma_edit_distance_lower(a: Seq<char>, b: Seq<char>)
    ensures
        edit_distance(a, b) >= a.len() - b.len(),
        edit_distance(a, b) >= b.len() - a.len(),
    decreases a.len() + b.len(),
{
    if a.len() > 0 && b.len() > 0 {
        lemma_edit_distance_lower(a.drop_last(), b.drop_last());
        lemma_edit_distance_lower(a, b.drop_last());
        lemma_edit_distance_lower(a.drop_last(), b);
    }
}

/// Dropping the last character of the first text changes the distance by
/// at most one.
pub proof fn lemma_edit_distance_drop(a: Seq<char>, b: Seq<char>)
    requires
        a.len() > 0,
    ensures
        edit_distance(a, b) <= edit_distance(a.drop_last(), b) + 1,
        edit_distance(a.drop_last(), b) <= edit_distance(a, b) + 1,
    decreases a.len() + b.len(),
{
    let a1 = a.drop_last();
    if b.len() == 0 {
    } else if a1.len() == 0 {
        lemma_edit_distance_bound(a, b);
        lemma_edit_distance_lower(a, b);
    } else {
        let b1 = b.drop_last();
        lemma_edit_distance_drop(b, a1);
        lemma_edit_distance_symmetric(b, a1);
        lemma_edit_distance_symmetric(b1, a1);
        lemma_edit_distance_drop(a, b1);
    }
}

/// Distance zero means equal texts.
pub proof fn lemma_edit_distance_zero(a: Seq<char>, b: Seq<char>)
    requires
        edit_distance(a, b) == 0,
    ensures
        a == b,
    decreases a.len() + b.len(),
{
    if a.len() > 0 && b.len() > 0 {
        lemma_edit_distance_zero(a.drop_last(), b.drop_last());
        assert(a =~= a.drop_last().push(a.last()));
        assert(b =~= b.drop_last().push(b.last()));
    } else {
        assert(a =~= b);
    }
}

/// The triangle inequality: going through a third text is never shorter.
pub proof fn lemma_edit_distance_triangle(a: Seq<char>, b: Seq<char>, c: Seq<char>)
    ensures
        edit_distance(a, c) <= edit_distance(a, b) + edit_distance(b, c),
    decreases a.len() + b.len() + c.len(),
{
    if b.len() == 0 {
        lemma_edit_distance_bound(a, c);
    } else if a.len() == 0 {
        lemma_edit_distance_lower(b, c);
    } else if c.len() == 0 {
        lemma_edit_distance_lower(a, b);
    } else {
        let a1 = a.drop_last();
        let b1 = b.drop_last();
        let c1 = c.drop_last();
        lemma_edit_distance_triangle(a1, b, c);
        lemma_edit_distance_triangle(a, b, c1);
        lemma_edit_distance_triangle(a, b1, c);
        lemma_edit_distance_triangle(a1, b1, c);
        lemma_edit_distance_triangle(a1, b1, c1);
        // one character less at either end of (a, c) and of (b, c) costs at most one
        lemma_edit_distance_drop(a, c);
        lemma_edit_distance_drop(c, a);
        lemma_edit_distance_symmetric(c, a);
        lemma_edit_distance_symmetric(c1, a);
        lemma_edit_distance_drop(c, b1);
        lemma_edit_distance_symmetric(c, b1);
        lemma_edit_distance_symmetric(c1, b1);
    }
}

/// The Levenshtein distance between two strings, counted in characters.
pub fn levenshtein(a: &str, b: &str) -> (r: usize)
    ensures
        r == edit_distance(a@, b@),
{
    let av = chars_of(a);
    let bv = chars_of(b);
    let a_len = av.len();
    let b_len = bv.len();
    if a_len == 0 {
        return b_len;
    }
    if b_len == 0 {
        return a_len;
    }
    let mut prev: Vec<usize> = Vec::new();
    let mut j: usize = 0;
    loop
        invariant_except_break
            prev@.len() == j,
            forall|k: int| 0 <= k < j ==> prev@[k] == edit_distance(av@.take(0), #[trigger] bv@.take(k)),
        invariant
            j <= b_len,
            b_len == bv@.len(),
        ensures
            prev@.len() == b_len + 1,
            forall|k: int| 0 <= k <= b_len ==> prev@[k] == edit_distance(av@.take(0), #[trigger] bv@.take(k)),
        decreases b_len - j,
    {
        assert(edit_distance(av@.take(0), bv@.take(j as int)) == j) by {
            assert(av@.take(0).len() == 0);
        }
        prev.push(j);
        if j == b_len {
            break;
        }
        j += 1;
    }
    let mut i: usize = 0;
    while i < a_len
        invariant
            i <= a_len,
            a_len == av@.len(),
            b_len == bv@.len(),
            b_len > 0,
            prev@.len() == b_len + 1,
            forall|k: int| 0 <= k <= b_len ==> prev@[k] == edit_distance(av@.take(i as int), #[trigger] bv@.take(k)),
        decreases a_len - i,
    {
        let ca = av[i];
        let mut curr: Vec<usize> = Vec::new();
        curr.push(i + 1);
        assert(edit_distance(av@.take(i + 1), bv@.take(0)) == i + 1) by {
            assert(bv@.take(0).len() == 0);
        }
        let mut j: usize = 0;
        while j < b_len
            invariant
                j <= b_len,
                i < a_len,
                ca == av@[i as int],
                a_len == av@.len(),
                b_len == bv@.len(),
                prev@.len() == b_len + 1,
                forall|k: int| 0 <= k <= b_len ==> prev@[k] == edit_distance(av@.take(i as int), #[trigger] bv@.take(k)),
                curr@.len() == j + 1,
                forall|k: int| 0 <= k <= j ==> curr@[k] == edit_distance(av@.take(i + 1), #[trigger] bv@.take(k)),
            decreases b_len - j,
        {
            let ghost x = av@.take(i + 1);
            let ghost y = bv@.take(j + 1);
            assert(x.drop_last() =~= av@.take(i as int));
            assert(y.drop_last() =~= bv@.take(j as int));
            assert(x.last() == ca);
            assert(y.last() == bv@[j as int]);
            proof {
                lemma_edit_distance_bound(x, y);
            }
            let cb = bv[j];
            let v = if ca == cb {
                prev[j]
            } else {
                let m1 = if prev[j] < curr[j] { prev[j] } else { curr[j] };
                let m = if m1 < prev[j + 1] { m1 } else { prev[j + 1] };
                proof {
                    lemma_edit_distance_bound(av@.take(i as int), bv@.take(j as int));
                    assert(m as nat == min3(
                        edit_distance(x.drop_last(), y.drop_last()),
                        edit_distance(x, y.drop_last()),
                        edit_distance(x.drop_last(), y),
                    ));
                    assert(edit_distance(x, y) == 1 + m);
                }
                m + 1
            };
            curr.push(v);
            j += 1;
        }
        prev = curr;
        i += 1;
    }
    assert(av@.take(a_len as int) =~= av@);
    assert(bv@.take(b_len as int) =~= bv@);
    prev[b_len]
}

/// The text with its first character upper-cased.
pub open spec fn capitalized(s: Seq<char>) -> Seq<char> {
    if s.len() == 0 {
        s
    } else {
        char_uppercase(s[0]) + s.skip(1)
    }
}

/// Upper-cases the first character (e.g. a season name).
pub fn capitalize_first(s: &str) -> (r: String)
    ensures
        r@ == capitalized(s@),
        s@.len() > 0 && (s@[0] as u32) < 128 ==> r@ == seq![ascii_upper(s@[0])] + s@.skip(1),
{
    let cs = chars_of(s);
    if cs.len() == 0 {
        return string_of(cs.as_slice());
    }
    let mut out = char_to_uppercase(cs[0]);
    let ghost head = out@;
    extend_range(&mut out, &cs, 1, cs.len());
    assert(out@ =~= head + cs@.skip(1));
    string_of(out.as_slice())
}

/// `s` without its leading run of ASCII digits.
pub open spec fn skip_digits(s: Seq<char>) -> Seq<char>
    decreases s.len(),
{
    if s.len() > 0 && is_digit(s[0]) {
        skip_digits(s.skip(1))
    } else {
        s
    }
}

/// An opening/ending theme line without Jikan's `"N: "` numbering: the
/// trimmed text, and when it starts with digits followed by `:`, what comes
/// after the colon with leading whitespace removed.
pub open spec fn theme_line(s: Seq<char>) -> Seq<char> {
    let t = trim_space(s);
    let rest = skip_digits(t);
    if t.len() > 0 && is_digit(t[0]) && rest.len() > 0 && rest[0] == ':' {
        trim_start_space(rest.skip(1))
    } else {
        t
    }
}

/// Strips the `"1: "` style numbering from a theme song line.
pub fn clean_theme_string(s: &str) -> (r: String)
    ensures
        r@ == theme_line(s@),
{
    let t = chars_of(s);
    let t = vec_trim_start_space(&t);
    let t = vec_trim_end_space(&t);
    let ghost tv = t@;
    assert(tv == trim_space(s@));
    let mut i: usize = 0;
    assert(t@.skip(0) =~= t@);
    while i < t.len() && '0' <= t[i] && t[i] <= '9'
        invariant
            i <= t@.len(),
            skip_digits(t@.skip(i as int)) == skip_digits(t@),
        decreases t@.len() - i,
    {
        assert(t@.skip(i as int).skip(1) =~= t@.skip(i + 1));
        i += 1;
    }
    assert(skip_digits(t@.skip(i as int)) == t@.skip(i as int));
    if i > 0 && i < t.len() && t[i] == ':' {
        let mut rest: Vec<char> = Vec::new();
        extend_range(&mut rest, &t, i + 1, t.len());
        assert(rest@ =~= t@.skip(i as int).skip(1));
        let out = vec_trim_start_space(&rest);
        string_of(out.as_slice())
    } else {
        string_of(t.as_slice())
    }
}

/// How a search title relates to a catalogue entry's titles, before
/// weighting: equal (ignoring case) to either, one containing the other for
/// the display title or the original title, or else the smaller edit distance
/// together with the longest of the three byte lengths.
pub enum NameMatch {
    Exact,
    CanonicalContains,
    OriginalContains,
    Distance { dist: usize, max_len: usize },
}

/// The byte length `str::len` reports for a text.
pub open spec fn byte_len(s: Seq<char>) -> usize {
    vstd::utf8::encode_utf8(s).len() as usize
}

pub open spec fn name_match_of(title: Seq<char>, canonical: Seq<char>, original: Seq<char>) -> NameMatch {
    let q = lowercase(title);
    let c = lowercase(canonical);
    let o = lowercase(original);
    if q == c || q == o {
        NameMatch::Exact
    } else if contains(c, q) || contains(q, c) {
        NameMatch::CanonicalContains
    } else if contains(o, q) || contains(q, o) {
        NameMatch::OriginalContains
    } else {
        let d1 = edit_distance(q, c);
        let d2 = edit_distance(q, o);
        let lq = byte_len(q);
        let lc = byte_len(c);
        let lo = byte_len(o);
        let m = if lc >= lo { lc } else { lo };
        NameMatch::Distance {
            dist: (if d1 <= d2 { d1 } else { d2 }) as usize,
            max_len: if lq >= m { lq } else { m },
        }
    }
}

/// Compares a search title with a catalogue entry's display and original
/// titles, ignoring case.
pub fn name_match(title: &str, canonical: &str, original: &str) -> (r: NameMatch)
    ensures
        r == name_match_of(title@, canonical@, original@),
{
    let q = to_lowercase(title);
    let c = to_lowercase(canonical);
    let o = to_lowercase(original);
    if text_eq(q.as_str(), c.as_str()) || text_eq(q.as_str(), o.as_str()) {
        NameMatch::Exact
    } else if str_contains(c.as_str(), q.as_str()) || str_contains(q.as_str(), c.as_str()) {
        NameMatch::CanonicalContains
    } else if str_contains(o.as_str(), q.as_str()) || str_contains(q.as_str(), o.as_str()) {
        NameMatch::OriginalContains
    } else {
        let d1 = levenshtein(q.as_str(), c.as_str());
        let d2 = levenshtein(q.as_str(), o.as_str());
        let lq = q.as_str().len();
        let lc = c.as_str().len();
        let lo = o.as_str().len();
        let m = if lc >= lo { lc } else { lo };
        NameMatch::Distance {
            dist: if d1 <= d2 { d1 } else { d2 },
            max_len: if lq >= m { lq } else { m },
        }
    }
}

/// How a known episode count compares with a catalogue entry's.
pub enum EpisodeAgreement {
    /// Either count is unknown.
    Unknown,
    /// The counts are equal.
    Same,
    /// Both counts are positive and differ.
    Differ { hint: u32, episodes: u32 },
    /// The counts differ and one of them is zero.
    Unrelated,
}

pub open spec fn episode_agreement_of(hint: Option<u32>, episodes: Option<u32>) -> EpisodeAgreement {
    match (hint, episodes) {
        (Some(h), Some(e)) => if h == e {
            EpisodeAgreement::Same
        } else if h > 0 && e > 0 {
            EpisodeAgreement::Differ { hint: h, episodes: e }
        } else {
            EpisodeAgreement::Unrelated
        },
        _ => EpisodeAgreement::Unknown,
    }
}

/// Compares an episode-count hint with a catalogue entry's count.
pub fn episode_agreement(hint: Option<u32>, episodes: Option<u32>) -> (r: EpisodeAgreement)
    ensures
        r == episode_agreement_of(hint, episodes),
{
    match (hint, episodes) {
        (Some(h), Some(e)) => if h == e {
            EpisodeAgreement::Same
        } else if h > 0 && e > 0 {
            EpisodeAgreement::Differ { hint: h, episodes: e }
        } else {
            EpisodeAgreement::Unrelated
        },
        _ => EpisodeAgreement::Unknown,
    }
}

/// The address of an endpoint under an API base: the base without its
/// trailing slashes, one slash, and the endpoint without its leading slashes.
pub open spec fn endpoint_address(base: Seq<char>, endpoint: Seq<char>) -> Seq<char> {
    trim_end_char(base, '/').push('/') + trim_start_char(endpoint, '/')
}

/// Joins an API base and an endpoint with exactly one slash.
pub fn endpoint_url(base: &str, endpoint: &str) -> (r: String)
    ensures
        r@ == endpoint_address(base@, endpoint@),
{
    let b = vec_trim_end_char(&chars_of(base), '/');
    let e = vec_trim_start_char(&chars_of(endpoint), '/');
    let mut out = b;
    out.push('/');
    extend_range(&mut out, &e, 0, e.len());
    assert(e@.subrange(0, e@.len() as int) =~= e@);
    string_of(out.as_slice())
}

/// How a title compares with a catalogue entry, ignoring case: an exact
/// match when it equals either title; otherwise, when neither title contains
/// it or is contained in it, the distance is the smaller of the edit
/// distances to the display title and to the original title (so it is at
/// most each of them), over at least the longest of the three byte lengths.
pub proof fn lemma_name_match_distance(title: Seq<char>, canonical: Seq<char>, original: Seq<char>)
    requires
        lowercase(title).len() <= usize::MAX,
        lowercase(canonical).len() <= usize::MAX,
        lowercase(original).len() <= usize::MAX,
    ensures
        ({
            let q = lowercase(title);
            let c = lowercase(canonical);
            let o = lowercase(original);
            &&& (q == c || q == o) ==> name_match_of(title, canonical, original) is Exact
            &&& name_match_of(title, canonical, original) matches NameMatch::Distance { dist, max_len }
                ==> {
                &&& q != c && q != o
                &&& dist <= edit_distance(q, c)
                &&& dist <= edit_distance(q, o)
                &&& (dist == edit_distance(q, c) || dist == edit_distance(q, o))
                &&& max_len >= byte_len(q) && max_len >= byte_len(c) && max_len >= byte_len(o)
            }
        }),
{
    let q = lowercase(title);
    let c = lowercase(canonical);
    let o = lowercase(original);
    lemma_edit_distance_bound(q, c);
    lemma_edit_distance_bound(q, o);
}

} // verus!
