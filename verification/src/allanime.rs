//! AllAnime provider logic: the provider-URL cipher, raw-response scanning,
//! payload decryption, provider link parsing and stream selection.

use vstd::prelude::*;

use crate::crypto::{
    aes256_ctr_apply, aes_256_ctr_decrypt, base64_decode, base64_standard_decode, sha256_of_text,
    sha256_text, utf8_lossy, utf8_lossy_string,
};
use crate::text::{
    chars_of, extend_range, join_str, find_from, lemma_find_from_bounds, matches_at, replace_all, string_of, substring,
    vec_find_from, vec_replace_all,
};

verus! {

/// Value of a lower-case hexadecimal digit.
pub open spec fn hex_digit_value(c: char) -> Option<u8> {
    if '0' <= c && c <= '9' {
        Some((c as u32 - '0' as u32) as u8)
    } else if 'a' <= c && c <= 'f' {
        Some((c as u32 - 'a' as u32 + 10) as u8)
    } else {
        None
    }
}

/// The characters the provider cipher can produce: ASCII letters and digits
/// and the URL punctuation `-._~:/?#[]@!$&()*+,;=%`.
pub open spec fn is_cipher_output(c: char) -> bool {
    ('A' <= c && c <= 'Z') || ('a' <= c && c <= 'z') || ('0' <= c && c <= '9') || c == '-'
        || c == '.' || c == '_' || c == '~' || c == ':' || c == '/' || c == '?' || c == '#'
        || c == '[' || c == ']' || c == '@' || c == '!' || c == '$' || c == '&' || c == '('
        || c == ')' || c == '*' || c == '+' || c == ',' || c == ';' || c == '=' || c == '%'
}

/// The character a two-digit token stands for: the byte the lower-case hex
/// pair spells, XOR 0x38, when that is one of the cipher's output characters.
/// (This is exactly the provider's 84-entry substitution table.)
pub open spec fn decode_token(a: char, b: char) -> Option<char> {
    match (hex_digit_value(a), hex_digit_value(b)) {
        (Some(hi), Some(lo)) => {
            let c = (((hi * 16 + lo) as u8) ^ 0x38u8) as char;
            if is_cipher_output(c) {
                Some(c)
            } else {
                None
            }
        },
        _ => None,
    }
}

/// Decodes consecutive two-character tokens from the front; unknown tokens
/// and a trailing odd character are dropped.
pub open spec fn decode_pairs(s: Seq<char>) -> Seq<char>
    decreases s.len(),
{
    if s.len() < 2 {
        Seq::empty()
    } else {
        let head = match decode_token(s[0], s[1]) {
            Some(c) => seq![c],
            None => Seq::empty(),
        };
        head + decode_pairs(s.skip(2))
    }
}

/// The decoded provider path: the token decoding, with `/clock` rewritten to
/// `/clock.json`.
pub open spec fn decoded_provider_url(s: Seq<char>) -> Seq<char> {
    replace_all(decode_pairs(s), seq!['/', 'c', 'l', 'o', 'c', 'k'],
        seq!['/', 'c', 'l', 'o', 'c', 'k', '.', 'j', 's', 'o', 'n'])
}

fn hex_digit(c: char) -> (r: Option<u8>)
    ensures
        r == hex_digit_value(c),
{
    if '0' <= c && c <= '9' {
        Some((c as u32 - '0' as u32) as u8)
    } else if 'a' <= c && c <= 'f' {
        Some((c as u32 - 'a' as u32 + 10) as u8)
    } else {
        None
    }
}

fn cipher_output(c: char) -> (r: bool)
    ensures
        r == is_cipher_output(c),
{
    ('A' <= c && c <= 'Z') || ('a' <= c && c <= 'z') || ('0' <= c && c <= '9') || c == '-'
        || c == '.' || c == '_' || c == '~' || c == ':' || c == '/' || c == '?' || c == '#'
        || c == '[' || c == ']' || c == '@' || c == '!' || c == '$' || c == '&' || c == '('
        || c == ')' || c == '*' || c == '+' || c == ',' || c == ';' || c == '=' || c == '%'
}

fn token(a: char, b: char) -> (r: Option<char>)
    ensures
        r == decode_token(a, b),
{
    match (hex_digit(a), hex_digit(b)) {
        (Some(hi), Some(lo)) => {
            let c = ((hi * 16 + lo) ^ 0x38u8) as char;
            if cipher_output(c) {
                Some(c)
            } else {
                None
            }
        },
        _ => None,
    }
}

/// Decodes an AllAnime provider path from its hex-token cipher.
pub fn decode_provider_url(encoded: &str) -> (r: String)
    ensures
        r@ == decoded_provider_url(encoded@),
{
    let s = chars_of(encoded);
    let mut out: Vec<char> = Vec::new();
    let mut i: usize = 0;
    assert(s@.skip(0) =~= s@);
    assert(out@ + decode_pairs(s@) =~= decode_pairs(s@));
    while i < s.len() && s.len() - i > 1
        invariant
            i <= s@.len(),
            out@ + decode_pairs(s@.skip(i as int)) == decode_pairs(s@),
        decreases s@.len() - i,
    {
        let ghost rest = s@.skip(i as int);
        assert(rest.skip(2) =~= s@.skip(i + 2));
        assert(rest[0] == s@[i as int] && rest[1] == s@[i + 1]);
        match token(s[i], s[i + 1]) {
            Some(c) => {
                out.push(c);
            },
            None => {},
        }
        i += 2;
    }
    assert(decode_pairs(s@.skip(i as int)) =~= Seq::<char>::empty());
    assert(out@ + Seq::<char>::empty() =~= out@);
    let pat = vec!['/', 'c', 'l', 'o', 'c', 'k'];
    let rep = vec!['/', 'c', 'l', 'o', 'c', 'k', '.', 'j', 's', 'o', 'n'];
    let replaced = vec_replace_all(&out, &pat, &rep);
    string_of(replaced.as_slice())
}


pub open spec fn tobeparsed_key() -> Seq<char> {
    seq!['"', 't', 'o', 'b', 'e', 'p', 'a', 'r', 's', 'e', 'd', '"', ':', '"']
}

pub open spec fn source_url_key() -> Seq<char> {
    seq!['"', 's', 'o', 'u', 'r', 'c', 'e', 'U', 'r', 'l', '"', ':', '"', '-', '-']
}

pub open spec fn source_name_key() -> Seq<char> {
    seq!['"', 's', 'o', 'u', 'r', 'c', 'e', 'N', 'a', 'm', 'e', '"', ':', '"']
}

pub open spec fn quote() -> Seq<char> {
    seq!['"']
}

/// The text between the first `"tobeparsed":"` and the next `"`, when non-empty.
pub open spec fn tobeparsed_blob(raw: Seq<char>) -> Option<Seq<char>> {
    match find_from(raw, tobeparsed_key(), 0) {
        None => None,
        Some(p) => {
            let start = p + tobeparsed_key().len();
            match find_from(raw, quote(), start) {
                None => None,
                Some(end) => if end == start {
                    None
                } else {
                    Some(raw.subrange(start, end))
                },
            }
        },
    }
}

fn key_tobeparsed() -> (r: Vec<char>)
    ensures
        r@ == tobeparsed_key(),
{
    let r = vec!['"', 't', 'o', 'b', 'e', 'p', 'a', 'r', 's', 'e', 'd', '"', ':', '"'];
    assert(r@ =~= tobeparsed_key());
    r
}

fn key_source_url() -> (r: Vec<char>)
    ensures
        r@ == source_url_key(),
{
    let r = vec!['"', 's', 'o', 'u', 'r', 'c', 'e', 'U', 'r', 'l', '"', ':', '"', '-', '-'];
    assert(r@ =~= source_url_key());
    r
}

fn key_source_name() -> (r: Vec<char>)
    ensures
        r@ == source_name_key(),
{
    let r = vec!['"', 's', 'o', 'u', 'r', 'c', 'e', 'N', 'a', 'm', 'e', '"', ':', '"'];
    assert(r@ =~= source_name_key());
    r
}

fn key_quote() -> (r: Vec<char>)
    ensures
        r@ == quote(),
{
    let r = vec!['"'];
    assert(r@ =~= quote());
    r
}

/// Pulls the encrypted `tobeparsed` blob out of a raw API response without
/// parsing it as JSON.
pub fn extract_tobeparsed_from_raw(raw: &str) -> (r: Option<String>)
    ensures
        r matches Some(b) ==> tobeparsed_blob(raw@) == Some(b@),
        r is None ==> tobeparsed_blob(raw@) is None,
{
    let s = chars_of(raw);
    let key = key_tobeparsed();
    let q = key_quote();
    match vec_find_from(&s, &key, 0) {
        None => None,
        Some(p) => {
            proof {
                lemma_find_from_bounds(s@, key@, 0);
            }
            assert(s.len() == s@.len());
            let start = p + key.len();
            match vec_find_from(&s, &q, start) {
                None => None,
                Some(end) => {
                    proof {
                        lemma_find_from_bounds(s@, q@, start as int);
                    }
                    if end == start {
                        None
                    } else {
                        Some(substring(&s, start, end))
                    }
                },
            }
        },
    }
}

/// The `(sourceName, encoded sourceUrl)` pairs found scanning `raw` from `i`:
/// each `"sourceUrl":"--` is followed by its encoded text up to the next `"`,
/// then by the next `"sourceName":"` and its text up to the following `"`.
/// A URL with no name after it is skipped; an unterminated field ends the scan;
/// pairs with an empty encoded URL are left out.
pub open spec fn source_pairs_from(raw: Seq<char>, i: int) -> Seq<(Seq<char>, Seq<char>)>
    decreases raw.len() + 1 - i,
{
    if i < 0 {
        Seq::empty()
    } else {
        match find_from(raw, source_url_key(), i) {
            None => Seq::empty(),
            Some(u) => {
                let a = u + source_url_key().len();
                match find_from(raw, quote(), a) {
                    None => Seq::empty(),
                    Some(ue) => {
                        proof {
                            lemma_find_from_bounds(raw, source_url_key(), i);
                            lemma_find_from_bounds(raw, quote(), a);
                        }
                        let encoded = raw.subrange(a, ue);
                        match find_from(raw, source_name_key(), ue) {
                            None => source_pairs_from(raw, ue + 1),
                            Some(n) => {
                                let b = n + source_name_key().len();
                                match find_from(raw, quote(), b) {
                                    None => Seq::empty(),
                                    Some(ne) => {
                                        proof {
                                            lemma_find_from_bounds(raw, source_name_key(), ue);
                                            lemma_find_from_bounds(raw, quote(), b);
                                        }
                                        let name = raw.subrange(b, ne);
                                        let tail = source_pairs_from(raw, ne);
                                        if encoded.len() > 0 {
                                            seq![(name, encoded)] + tail
                                        } else {
                                            tail
                                        }
                                    },
                                }
                            },
                        }
                    },
                }
            },
        }
    }
}

/// The views of a list of string pairs.
pub open spec fn pair_views(v: Seq<(String, String)>) -> Seq<(Seq<char>, Seq<char>)> {
    v.map_values(|p: (String, String)| (p.0@, p.1@))
}

/// Scans a raw response for `(sourceName, encoded sourceUrl)` pairs.
pub fn extract_source_pairs_from_raw(raw: &str) -> (r: Vec<(String, String)>)
    ensures
        pair_views(r@) == source_pairs_from(raw@, 0),
{
    let s = chars_of(raw);
    let url_key = key_source_url();
    let name_key = key_source_name();
    let q = key_quote();
    let mut out: Vec<(String, String)> = Vec::new();
    let mut cursor: usize = 0;
    assert(s.len() == s@.len());
    loop
        invariant
            s@ == raw@,
            s.len() == s@.len(),
            url_key@ == source_url_key(),
            name_key@ == source_name_key(),
            q@ == quote(),
            cursor <= s@.len() + 1,
            pair_views(out@) + source_pairs_from(s@, cursor as int) == source_pairs_from(s@, 0),
        decreases s@.len() + 1 - cursor,
    {
        let ghost before = pair_views(out@);
        if cursor > s.len() {
            assert(find_from(s@, source_url_key(), cursor as int) is None);
            assert(before + Seq::empty() =~= before);
            return out;
        }
        let u = match vec_find_from(&s, &url_key, cursor) {
            None => {
                assert(before + Seq::empty() =~= before);
                return out;
            },
            Some(u) => u,
        };
        proof {
            lemma_find_from_bounds(s@, url_key@, cursor as int);
        }
        let a = u + url_key.len();
        let ue = match vec_find_from(&s, &q, a) {
            None => {
                assert(before + Seq::empty() =~= before);
                return out;
            },
            Some(ue) => ue,
        };
        proof {
            lemma_find_from_bounds(s@, q@, a as int);
        }
        let n = match vec_find_from(&s, &name_key, ue) {
            None => {
                cursor = ue + 1;
                continue;
            },
            Some(n) => n,
        };
        proof {
            lemma_find_from_bounds(s@, name_key@, ue as int);
        }
        let b = n + name_key.len();
        let ne = match vec_find_from(&s, &q, b) {
            None => {
                assert(before + Seq::empty() =~= before);
                return out;
            },
            Some(ne) => ne,
        };
        proof {
            lemma_find_from_bounds(s@, q@, b as int);
        }
        if ue > a {
            let name = substring(&s, b, ne);
            let encoded = substring(&s, a, ue);
            let ghost pair = (name@, encoded@);
            out.push((name, encoded));
            assert(pair_views(out@) =~= before + seq![pair]);
            assert(before + seq![pair] + source_pairs_from(s@, ne as int)
                =~= before + (seq![pair] + source_pairs_from(s@, ne as int)));
        }
        cursor = ne;
    }
}


/// The text that follows the first `key` in `seg`, up to the next `"` (or the
/// end of `seg`); `None` when `key` does not occur. Both keys used with it
/// begin with `"`, so this is also where the next repetition of the key would
/// begin.
pub open spec fn field_after(seg: Seq<char>, key: Seq<char>) -> Option<Seq<char>> {
    match find_from(seg, key, 0) {
        None => None,
        Some(p) => {
            let a = p + key.len();
            match find_from(seg, quote(), a) {
                None => Some(seg.subrange(a, seg.len() as int)),
                Some(e) => Some(seg.subrange(a, e)),
            }
        },
    }
}

/// The provider entry a `}`-delimited segment of decrypted text describes:
/// its source name (empty if absent) and its decoded source URL, when the
/// segment holds a non-empty `"sourceUrl":"--` field.
pub open spec fn segment_entry(seg: Seq<char>) -> Seq<(Seq<char>, Seq<char>)> {
    match field_after(seg, source_url_key()) {
        Some(url) => if url.len() > 0 {
            let name = match field_after(seg, source_name_key()) {
                Some(n) => n,
                None => Seq::empty(),
            };
            seq![(name, decoded_provider_url(url))]
        } else {
            Seq::empty()
        },
        None => Seq::empty(),
    }
}

/// The entries of the segments of `plain` (split at every `}`) from index `i`.
pub open spec fn plaintext_entries_from(plain: Seq<char>, i: int) -> Seq<(Seq<char>, Seq<char>)>
    decreases plain.len() + 1 - i,
{
    if i < 0 || i > plain.len() {
        Seq::empty()
    } else {
        match find_from(plain, seq!['}'], i) {
            None => segment_entry(plain.subrange(i, plain.len() as int)),
            Some(k) => {
                proof {
                    lemma_find_from_bounds(plain, seq!['}'], i);
                }
                segment_entry(plain.subrange(i, k)) + plaintext_entries_from(plain, k + 1)
            },
        }
    }
}

fn field_in(seg: &Vec<char>, key: &Vec<char>) -> (r: Option<Vec<char>>)
    requires
        key@.len() > 0,
    ensures
        r matches Some(v) ==> field_after(seg@, key@) == Some(v@),
        r is None ==> field_after(seg@, key@) is None,
{
    let q = key_quote();
    match vec_find_from(seg, key, 0) {
        None => None,
        Some(p) => {
            proof {
                lemma_find_from_bounds(seg@, key@, 0);
            }
            assert(seg.len() == seg@.len());
            let a = p + key.len();
            let end = match vec_find_from(seg, &q, a) {
                None => seg.len(),
                Some(e) => {
                    proof {
                        lemma_find_from_bounds(seg@, q@, a as int);
                    }
                    e
                },
            };
            let mut out: Vec<char> = Vec::new();
            extend_range(&mut out, seg, a, end);
            assert(out@ =~= seg@.subrange(a as int, end as int));
            Some(out)
        },
    }
}

fn entry_of_segment(seg: &Vec<char>, out: &mut Vec<(String, String)>)
    ensures
        pair_views(final(out)@) == pair_views(old(out)@) + segment_entry(seg@),
{
    let url_key = key_source_url();
    let name_key = key_source_name();
    let ghost before = pair_views(out@);
    match field_in(seg, &url_key) {
        Some(url) => {
            if url.len() > 0 {
                let name = match field_in(seg, &name_key) {
                    Some(n) => string_of(n.as_slice()),
                    None => string_of(Vec::<char>::new().as_slice()),
                };
                let url_text = string_of(url.as_slice());
                let decoded = decode_provider_url(url_text.as_str());
                let ghost pair = (name@, decoded@);
                out.push((name, decoded));
                assert(pair_views(out@) =~= before + seq![pair]);
            } else {
                assert(before + Seq::empty() =~= before);
            }
        },
        None => {
            assert(before + Seq::empty() =~= before);
        },
    }
}

/// Extracts the provider entries from decrypted `tobeparsed` text.
fn parse_tobeparsed_plaintext(plain: &str) -> (r: Vec<(String, String)>)
    ensures
        pair_views(r@) == plaintext_entries_from(plain@, 0),
{
    let s = chars_of(plain);
    let brace = vec!['}'];
    assert(brace@ =~= seq!['}']);
    let mut out: Vec<(String, String)> = Vec::new();
    let mut i: usize = 0;
    assert(s.len() == s@.len());
    assert(pair_views(out@) =~= Seq::empty());
    loop
        invariant
            s@ == plain@,
            s.len() == s@.len(),
            brace@ == seq!['}'],
            i <= s@.len(),
            pair_views(out@) + plaintext_entries_from(s@, i as int) == plaintext_entries_from(s@, 0),
        decreases s@.len() - i,
    {
        let ghost before = pair_views(out@);
        match vec_find_from(&s, &brace, i) {
            None => {
                let mut seg: Vec<char> = Vec::new();
                extend_range(&mut seg, &s, i, s.len());
                assert(seg@ =~= s@.subrange(i as int, s@.len() as int));
                entry_of_segment(&seg, &mut out);
                return out;
            },
            Some(k) => {
                proof {
                    lemma_find_from_bounds(s@, brace@, i as int);
                }
                let mut seg: Vec<char> = Vec::new();
                extend_range(&mut seg, &s, i, k);
                assert(seg@ =~= s@.subrange(i as int, k as int));
                entry_of_segment(&seg, &mut out);
                assert(before + segment_entry(seg@) + plaintext_entries_from(s@, k + 1)
                    =~= before + (segment_entry(seg@) + plaintext_entries_from(s@, k + 1)));
                i = k + 1;
            },
        }
    }
}

/// The passphrase whose SHA-256 digest is the `tobeparsed` key.
pub open spec fn tobeparsed_passphrase() -> Seq<char> {
    seq!['X', 'o', 't', '3', '6', 'i', '3', 'l', 'K', '3', ':', 'v', '1']
}

/// The CTR counter block for a decoded payload: its bytes 1..13 followed by
/// `00 00 00 02`.
pub open spec fn tobeparsed_counter(data: Seq<u8>) -> Seq<u8> {
    data.subrange(1, 13) + seq![0u8, 0u8, 0u8, 2u8]
}

/// What decoding a `tobeparsed` blob yields: base64 decoding, a length check
/// (a 13-byte header and a 16-byte tag around the ciphertext), AES-256-CTR
/// with the passphrase digest as key, lossy UTF-8, then the provider entries.
pub open spec fn decoded_tobeparsed(blob: Seq<char>) -> Result<Seq<(Seq<char>, Seq<char>)>, Seq<char>> {
    match base64_standard_decode(blob) {
        Err(e) => Err("Base64 decode failed: "@ + e),
        Ok(data) => if data.len() < 29 {
            Err("Payload too short"@)
        } else {
            let ct = data.subrange(13, data.len() - 16);
            let plain = aes256_ctr_apply(sha256_of_text(tobeparsed_passphrase()), tobeparsed_counter(data), ct);
            Ok(plaintext_entries_from(utf8_lossy(plain), 0))
        },
    }
}

/// The view of a list of provider entries or an error message.
pub open spec fn entries_or_message(r: Result<Vec<(String, String)>, String>) -> Result<Seq<(Seq<char>, Seq<char>)>, Seq<char>> {
    match r {
        Ok(v) => Ok(pair_views(v@)),
        Err(e) => Err(e@),
    }
}

/// The raw SHA-256 digest of the passphrase, the AES key of the payload.
fn passphrase_digest() -> (r: Vec<u8>)
    ensures
        r@ == sha256_of_text(tobeparsed_passphrase()),
        r@.len() == 32,
{
    let pass = string_of(['X', 'o', 't', '3', '6', 'i', '3', 'l', 'K', '3', ':', 'v', '1'].as_slice());
    assert(pass@ =~= tobeparsed_passphrase());
    sha256_text(pass.as_str())
}

/// The SHA-256 hex digest of the passphrase: 64 lower-case hexadecimal
/// digits, as ASCII bytes.
pub fn get_allanime_key() -> (r: Vec<u8>)
    ensures
        r@ == hex_lower_ascii(sha256_of_text(tobeparsed_passphrase())),
        r@ == ascii_bytes(hex_lower(sha256_of_text(tobeparsed_passphrase()))),
        r@.len() == 64,
{
    let digest = passphrase_digest();
    let r = hex_lower_ascii_bytes(digest.as_slice());
    proof {
        lemma_hex_lower_ascii(digest@);
        lemma_hex_lower_len(digest@);
    }
    r
}

/// Decrypts a `tobeparsed` blob into `(sourceName, decoded provider path)` entries.
pub fn decode_tobeparsed(blob: &str) -> (r: Result<Vec<(String, String)>, String>)
    ensures
        entries_or_message(r) == decoded_tobeparsed(blob@),
{
    let data = match base64_decode(blob) {
        Ok(d) => d,
        Err(e) => {
            return Err(join_str("Base64 decode failed: ", e.as_str()));
        },
    };
    if data.len() < 13 + 16 {
        return Err("Payload too short".to_owned());
    }
    let key = passphrase_digest();
    let mut ctr: Vec<u8> = Vec::new();
    let mut i: usize = 1;
    while i < 13
        invariant
            1 <= i <= 13,
            data@.len() >= 29,
            ctr@ == data@.subrange(1, i as int),
        decreases 13 - i,
    {
        ctr.push(data[i]);
        i += 1;
        assert(data@.subrange(1, i as int) =~= data@.subrange(1, i - 1) + seq![data@[i - 1]]);
    }
    ctr.push(0);
    ctr.push(0);
    ctr.push(0);
    ctr.push(2);
    assert(ctr@ =~= tobeparsed_counter(data@));
    let ct_len = data.len() - 13 - 16;
    let ct = vstd::slice::slice_subrange(data.as_slice(), 13, 13 + ct_len);
    let plain_bytes = match aes_256_ctr_decrypt(key.as_slice(), ctr.as_slice(), ct) {
        Ok(p) => p,
        Err(e) => {
            return Err(e);
        },
    };
    let plain = utf8_lossy_string(plain_bytes.as_slice());
    Ok(parse_tobeparsed_plaintext(plain.as_str()))
}

/// The lower-case hexadecimal digits in order.
pub open spec fn hex_digits() -> Seq<char> {
    seq!['0', '1', '2', '3', '4', '5', '6', '7', '8', '9', 'a', 'b', 'c', 'd', 'e', 'f']
}

/// Bytes written as lower-case hexadecimal, two digits each, high digit first.
pub open spec fn hex_lower(bytes: Seq<u8>) -> Seq<char>
    decreases bytes.len(),
{
    if bytes.len() == 0 {
        Seq::empty()
    } else {
        let b = bytes.last();
        hex_lower(bytes.drop_last()) + seq![hex_digits()[(b / 16) as int], hex_digits()[(b % 16) as int]]
    }
}

/// Writes bytes as lower-case hexadecimal.
pub fn hex_lower_text(bytes: &[u8]) -> (r: String)
    ensures
        r@ == hex_lower(bytes@),
{
    let digits = vec!['0', '1', '2', '3', '4', '5', '6', '7', '8', '9', 'a', 'b', 'c', 'd', 'e', 'f'];
    assert(digits@ =~= hex_digits());
    let mut out: Vec<char> = Vec::new();
    let mut i: usize = 0;
    while i < bytes.len()
        invariant
            i <= bytes@.len(),
            digits@ == hex_digits(),
            out@ == hex_lower(bytes@.take(i as int)),
        decreases bytes@.len() - i,
    {
        let b = bytes[i];
        out.push(digits[(b / 16) as usize]);
        out.push(digits[(b % 16) as usize]);
        assert(bytes@.take(i + 1).drop_last() =~= bytes@.take(i as int));
        i += 1;
    }
    assert(bytes@.take(bytes@.len() as int) =~= bytes@);
    string_of(out.as_slice())
}

/// The persisted-query hash of a GraphQL query: its SHA-256 in lower-case
/// hexadecimal.
pub fn episode_query_hash(query: &str) -> (r: String)
    ensures
        r@ == hex_lower(sha256_of_text(query@)),
        r@.len() == 64,
{
    let digest = sha256_text(query);
    let r = hex_lower_text(digest.as_slice());
    proof {
        lemma_hex_lower_len(digest@);
    }
    r
}

/// Hexadecimal text is twice as long as its bytes.
pub proof fn lemma_hex_lower_len(bytes: Seq<u8>)
    ensures
        hex_lower(bytes).len() == 2 * bytes.len(),
    decreases bytes.len(),
{
    if bytes.len() > 0 {
        lemma_hex_lower_len(bytes.drop_last());
    }
}

/// The ASCII codes of the lower-case hexadecimal digits in order.
pub open spec fn hex_ascii_digits() -> Seq<u8> {
    seq![48u8, 49, 50, 51, 52, 53, 54, 55, 56, 57, 97, 98, 99, 100, 101, 102]
}

/// Bytes written as lower-case hexadecimal ASCII, two digits each, high
/// digit first.
pub open spec fn hex_lower_ascii(bytes: Seq<u8>) -> Seq<u8>
    decreases bytes.len(),
{
    if bytes.len() == 0 {
        Seq::empty()
    } else {
        let b = bytes.last();
        hex_lower_ascii(bytes.drop_last()) + seq![
            hex_ascii_digits()[(b / 16) as int],
            hex_ascii_digits()[(b % 16) as int],
        ]
    }
}

/// The ASCII bytes of a text made of ASCII characters.
pub open spec fn ascii_bytes(s: Seq<char>) -> Seq<u8> {
    s.map_values(|c: char| c as u8)
}

/// The ASCII form of the hexadecimal text is its byte encoding.
pub proof fn lemma_hex_lower_ascii(bytes: Seq<u8>)
    ensures
        hex_lower_ascii(bytes) == ascii_bytes(hex_lower(bytes)),
    decreases bytes.len(),
{
    if bytes.len() > 0 {
        lemma_hex_lower_ascii(bytes.drop_last());
        let b = bytes.last();
        assert(hex_ascii_digits() =~= ascii_bytes(hex_digits()));
        assert(ascii_bytes(hex_lower(bytes)) =~= ascii_bytes(hex_lower(bytes.drop_last()))
            + ascii_bytes(seq![hex_digits()[(b / 16) as int], hex_digits()[(b % 16) as int]]));
    } else {
        assert(ascii_bytes(hex_lower(bytes)) =~= Seq::<u8>::empty());
    }
}

/// Writes bytes as lower-case hexadecimal ASCII.
pub fn hex_lower_ascii_bytes(bytes: &[u8]) -> (r: Vec<u8>)
    ensures
        r@ == hex_lower_ascii(bytes@),
{
    let digits: Vec<u8> = vec![48u8, 49, 50, 51, 52, 53, 54, 55, 56, 57, 97, 98, 99, 100, 101, 102];
    assert(digits@ =~= hex_ascii_digits());
    let mut out: Vec<u8> = Vec::new();
    let mut i: usize = 0;
    while i < bytes.len()
        invariant
            i <= bytes@.len(),
            digits@ == hex_ascii_digits(),
            out@ == hex_lower_ascii(bytes@.take(i as int)),
        decreases bytes@.len() - i,
    {
        let b = bytes[i];
        out.push(digits[(b / 16) as usize]);
        out.push(digits[(b % 16) as usize]);
        assert(bytes@.take(i + 1).drop_last() =~= bytes@.take(i as int));
        i += 1;
    }
    assert(bytes@.take(bytes@.len() as int) =~= bytes@);
    out
}

/// The provider's substitution table, entry by entry: the two hex digits of
/// a token and the character it stands for.
pub open spec fn in_cipher_table(a: char, b: char, c: char) -> bool {
    ||| (a, b, c) == ('7', '9', 'A')
    ||| (a, b, c) == ('7', 'a', 'B')
    ||| (a, b, c) == ('7', 'b', 'C')
    ||| (a, b, c) == ('7', 'c', 'D')
    ||| (a, b, c) == ('7', 'd', 'E')
    ||| (a, b, c) == ('7', 'e', 'F')
    ||| (a, b, c) == ('7', 'f', 'G')
    ||| (a, b, c) == ('7', '0', 'H')
    ||| (a, b, c) == ('7', '1', 'I')
    ||| (a, b, c) == ('7', '2', 'J')
    ||| (a, b, c) == ('7', '3', 'K')
    ||| (a, b, c) == ('7', '4', 'L')
    ||| (a, b, c) == ('7', '5', 'M')
    ||| (a, b, c) == ('7', '6', 'N')
    ||| (a, b, c) == ('7', '7', 'O')
    ||| (a, b, c) == ('6', '8', 'P')
    ||| (a, b, c) == ('6', '9', 'Q')
    ||| (a, b, c) == ('6', 'a', 'R')
    ||| (a, b, c) == ('6', 'b', 'S')
    ||| (a, b, c) == ('6', 'c', 'T')
    ||| (a, b, c) == ('6', 'd', 'U')
    ||| (a, b, c) == ('6', 'e', 'V')
    ||| (a, b, c) == ('6', 'f', 'W')
    ||| (a, b, c) == ('6', '0', 'X')
    ||| (a, b, c) == ('6', '1', 'Y')
    ||| (a, b, c) == ('6', '2', 'Z')
    ||| (a, b, c) == ('5', '9', 'a')
    ||| (a, b, c) == ('5', 'a', 'b')
    ||| (a, b, c) == ('5', 'b', 'c')
    ||| (a, b, c) == ('5', 'c', 'd')
    ||| (a, b, c) == ('5', 'd', 'e')
    ||| (a, b, c) == ('5', 'e', 'f')
    ||| (a, b, c) == ('5', 'f', 'g')
    ||| (a, b, c) == ('5', '0', 'h')
    ||| (a, b, c) == ('5', '1', 'i')
    ||| (a, b, c) == ('5', '2', 'j')
    ||| (a, b, c) == ('5', '3', 'k')
    ||| (a, b, c) == ('5', '4', 'l')
    ||| (a, b, c) == ('5', '5', 'm')
    ||| (a, b, c) == ('5', '6', 'n')
    ||| (a, b, c) == ('5', '7', 'o')
    ||| (a, b, c) == ('4', '8', 'p')
    ||| (a, b, c) == ('4', '9', 'q')
    ||| (a, b, c) == ('4', 'a', 'r')
    ||| (a, b, c) == ('4', 'b', 's')
    ||| (a, b, c) == ('4', 'c', 't')
    ||| (a, b, c) == ('4', 'd', 'u')
    ||| (a, b, c) == ('4', 'e', 'v')
    ||| (a, b, c) == ('4', 'f', 'w')
    ||| (a, b, c) == ('4', '0', 'x')
    ||| (a, b, c) == ('4', '1', 'y')
    ||| (a, b, c) == ('4', '2', 'z')
    ||| (a, b, c) == ('0', '8', '0')
    ||| (a, b, c) == ('0', '9', '1')
    ||| (a, b, c) == ('0', 'a', '2')
    ||| (a, b, c) == ('0', 'b', '3')
    ||| (a, b, c) == ('0', 'c', '4')
    ||| (a, b, c) == ('0', 'd', '5')
    ||| (a, b, c) == ('0', 'e', '6')
    ||| (a, b, c) == ('0', 'f', '7')
    ||| (a, b, c) == ('0', '0', '8')
    ||| (a, b, c) == ('0', '1', '9')
    ||| (a, b, c) == ('1', '5', '-')
    ||| (a, b, c) == ('1', '6', '.')
    ||| (a, b, c) == ('6', '7', '_')
    ||| (a, b, c) == ('4', '6', '~')
    ||| (a, b, c) == ('0', '2', ':')
    ||| (a, b, c) == ('1', '7', '/')
    ||| (a, b, c) == ('0', '7', '?')
    ||| (a, b, c) == ('1', 'b', '#')
    ||| (a, b, c) == ('6', '3', '[')
    ||| (a, b, c) == ('6', '5', ']')
    ||| (a, b, c) == ('7', '8', '@')
    ||| (a, b, c) == ('1', '9', '!')
    ||| (a, b, c) == ('1', 'c', '$')
    ||| (a, b, c) == ('1', 'e', '&')
    ||| (a, b, c) == ('1', '0', '(')
    ||| (a, b, c) == ('1', '1', ')')
    ||| (a, b, c) == ('1', '2', '*')
    ||| (a, b, c) == ('1', '3', '+')
    ||| (a, b, c) == ('1', '4', ',')
    ||| (a, b, c) == ('0', '3', ';')
    ||| (a, b, c) == ('0', '5', '=')
    ||| (a, b, c) == ('1', 'd', '%')
}

/// Every token of the provider's substitution table decodes to its
/// character, on its own and as a whole provider path.
pub proof fn lemma_cipher_table(a: char, b: char, c: char)
    requires
        in_cipher_table(a, b, c),
    ensures
        decode_token(a, b) == Some(c),
        decoded_provider_url(seq![a, b]) == seq![c],
{
    assert(
        (121u8 ^ 56u8) == 65u8 &&
        (122u8 ^ 56u8) == 66u8 &&
        (123u8 ^ 56u8) == 67u8 &&
        (124u8 ^ 56u8) == 68u8 &&
        (125u8 ^ 56u8) == 69u8 &&
        (126u8 ^ 56u8) == 70u8 &&
        (127u8 ^ 56u8) == 71u8 &&
        (112u8 ^ 56u8) == 72u8 &&
        (113u8 ^ 56u8) == 73u8 &&
        (114u8 ^ 56u8) == 74u8 &&
        (115u8 ^ 56u8) == 75u8 &&
        (116u8 ^ 56u8) == 76u8 &&
        (117u8 ^ 56u8) == 77u8 &&
        (118u8 ^ 56u8) == 78u8 &&
        (119u8 ^ 56u8) == 79u8 &&
        (104u8 ^ 56u8) == 80u8 &&
        (105u8 ^ 56u8) == 81u8 &&
        (106u8 ^ 56u8) == 82u8 &&
        (107u8 ^ 56u8) == 83u8 &&
        (108u8 ^ 56u8) == 84u8 &&
        (109u8 ^ 56u8) == 85u8 &&
        (110u8 ^ 56u8) == 86u8 &&
        (111u8 ^ 56u8) == 87u8 &&
        (96u8 ^ 56u8) == 88u8 &&
        (97u8 ^ 56u8) == 89u8 &&
        (98u8 ^ 56u8) == 90u8 &&
        (89u8 ^ 56u8) == 97u8 &&
        (90u8 ^ 56u8) == 98u8 &&
        (91u8 ^ 56u8) == 99u8 &&
        (92u8 ^ 56u8) == 100u8 &&
        (93u8 ^ 56u8) == 101u8 &&
        (94u8 ^ 56u8) == 102u8 &&
        (95u8 ^ 56u8) == 103u8 &&
        (80u8 ^ 56u8) == 104u8 &&
        (81u8 ^ 56u8) == 105u8 &&
        (82u8 ^ 56u8) == 106u8 &&
        (83u8 ^ 56u8) == 107u8 &&
        (84u8 ^ 56u8) == 108u8 &&
        (85u8 ^ 56u8) == 109u8 &&
        (86u8 ^ 56u8) == 110u8 &&
        (87u8 ^ 56u8) == 111u8 &&
        (72u8 ^ 56u8) == 112u8 &&
        (73u8 ^ 56u8) == 113u8 &&
        (74u8 ^ 56u8) == 114u8 &&
        (75u8 ^ 56u8) == 115u8 &&
        (76u8 ^ 56u8) == 116u8 &&
        (77u8 ^ 56u8) == 117u8 &&
        (78u8 ^ 56u8) == 118u8 &&
        (79u8 ^ 56u8) == 119u8 &&
        (64u8 ^ 56u8) == 120u8 &&
        (65u8 ^ 56u8) == 121u8 &&
        (66u8 ^ 56u8) == 122u8 &&
        (8u8 ^ 56u8) == 48u8 &&
        (9u8 ^ 56u8) == 49u8 &&
        (10u8 ^ 56u8) == 50u8 &&
        (11u8 ^ 56u8) == 51u8 &&
        (12u8 ^ 56u8) == 52u8 &&
        (13u8 ^ 56u8) == 53u8 &&
        (14u8 ^ 56u8) == 54u8 &&
        (15u8 ^ 56u8) == 55u8 &&
        (0u8 ^ 56u8) == 56u8 &&
        (1u8 ^ 56u8) == 57u8 &&
        (21u8 ^ 56u8) == 45u8 &&
        (22u8 ^ 56u8) == 46u8 &&
        (103u8 ^ 56u8) == 95u8 &&
        (70u8 ^ 56u8) == 126u8 &&
        (2u8 ^ 56u8) == 58u8 &&
        (23u8 ^ 56u8) == 47u8 &&
        (7u8 ^ 56u8) == 63u8 &&
        (27u8 ^ 56u8) == 35u8 &&
        (99u8 ^ 56u8) == 91u8 &&
        (101u8 ^ 56u8) == 93u8 &&
        (120u8 ^ 56u8) == 64u8 &&
        (25u8 ^ 56u8) == 33u8 &&
        (28u8 ^ 56u8) == 36u8 &&
        (30u8 ^ 56u8) == 38u8 &&
        (16u8 ^ 56u8) == 40u8 &&
        (17u8 ^ 56u8) == 41u8 &&
        (18u8 ^ 56u8) == 42u8 &&
        (19u8 ^ 56u8) == 43u8 &&
        (20u8 ^ 56u8) == 44u8 &&
        (3u8 ^ 56u8) == 59u8 &&
        (5u8 ^ 56u8) == 61u8 &&
        (29u8 ^ 56u8) == 37u8
    ) by (bit_vector);
    assert(decode_token(a, b) == Some(c));
    let s = seq![a, b];
    assert(s.skip(2) =~= Seq::<char>::empty());
    assert(decode_pairs(s.skip(2)) =~= Seq::<char>::empty());
    assert(s[0] == a && s[1] == b);
    assert(decode_pairs(s) =~= seq![c]);
    let pat = seq!['/', 'c', 'l', 'o', 'c', 'k'];
    assert(seq![c].subrange(0, 1) =~= seq![c]);
    assert(replace_all(seq![c], pat, seq!['/', 'c', 'l', 'o', 'c', 'k', '.', 'j', 's', 'o', 'n'])
        == seq![c]);
}

/// Only the tokens of the provider's substitution table decode to a
/// character: every other two-character token is dropped.
pub proof fn lemma_cipher_table_only(a: char, b: char)
    requires
        decode_token(a, b) is Some,
    ensures
        in_cipher_table(a, b, decode_token(a, b)->Some_0),
{
    let hi = hex_digit_value(a)->Some_0;
    let lo = hex_digit_value(b)->Some_0;
    let v = (hi * 16 + lo) as u8;
    let w = v ^ 0x38u8;
    assert(is_cipher_output(w as char));
    let k = w as u32;
    assert((65 <= k <= 90) || (97 <= k <= 122) || (48 <= k <= 57) || k == 45 || k == 46 || k == 95
        || k == 126 || k == 58 || k == 47 || k == 63 || k == 35 || k == 91 || k == 93 || k == 64
        || k == 33 || k == 36 || k == 38 || k == 40 || k == 41 || k == 42 || k == 43 || k == 44
        || k == 59 || k == 61 || k == 37);
    assert(v == 0u8 || v == 1u8 || v == 2u8 || v == 3u8 || v == 5u8 || v == 7u8 || v == 8u8 || v == 9u8 || v == 10u8 || v == 11u8 || v == 12u8 || v == 13u8 || v == 14u8 || v == 15u8 || v == 16u8 || v == 17u8 || v == 18u8 || v == 19u8 || v == 20u8 || v == 21u8 || v == 22u8 || v == 23u8 || v == 25u8 || v == 27u8 || v == 28u8 || v == 29u8 || v == 30u8 || v == 64u8 || v == 65u8 || v == 66u8 || v == 70u8 || v == 72u8 || v == 73u8 || v == 74u8 || v == 75u8 || v == 76u8 || v == 77u8 || v == 78u8 || v == 79u8 || v == 80u8 || v == 81u8 || v == 82u8 || v == 83u8 || v == 84u8 || v == 85u8 || v == 86u8 || v == 87u8 || v == 89u8 || v == 90u8 || v == 91u8 || v == 92u8 || v == 93u8 || v == 94u8 || v == 95u8 || v == 96u8 || v == 97u8 || v == 98u8 || v == 99u8 || v == 101u8 || v == 103u8 || v == 104u8 || v == 105u8 || v == 106u8 || v == 107u8 || v == 108u8 || v == 109u8 || v == 110u8 || v == 111u8 || v == 112u8 || v == 113u8 || v == 114u8 || v == 115u8 || v == 116u8 || v == 117u8 || v == 118u8 || v == 119u8 || v == 120u8 || v == 121u8 || v == 122u8 || v == 123u8 || v == 124u8 || v == 125u8 || v == 126u8 || v == 127u8) by (bit_vector)
        requires
            w == v ^ 0x38u8,
            k == w as u32,
            (65 <= k <= 90) || (97 <= k <= 122) || (48 <= k <= 57) || k == 45 || k == 46 || k
                == 95 || k == 126 || k == 58 || k == 47 || k == 63 || k == 35 || k == 91 || k == 93
                || k == 64 || k == 33 || k == 36 || k == 38 || k == 40 || k == 41 || k == 42 || k
                == 43 || k == 44 || k == 59 || k == 61 || k == 37,
    ;
    lemma_cipher_digits(a, b);
    assert(hi == v / 16 && lo == v % 16);
    assert(a == hex_char_of(v / 16) && b == hex_char_of(v % 16));
    assert(
        (121u8 ^ 56u8) == 65u8 &&
        (122u8 ^ 56u8) == 66u8 &&
        (123u8 ^ 56u8) == 67u8 &&
        (124u8 ^ 56u8) == 68u8 &&
        (125u8 ^ 56u8) == 69u8 &&
        (126u8 ^ 56u8) == 70u8 &&
        (127u8 ^ 56u8) == 71u8 &&
        (112u8 ^ 56u8) == 72u8 &&
        (113u8 ^ 56u8) == 73u8 &&
        (114u8 ^ 56u8) == 74u8 &&
        (115u8 ^ 56u8) == 75u8 &&
        (116u8 ^ 56u8) == 76u8 &&
        (117u8 ^ 56u8) == 77u8 &&
        (118u8 ^ 56u8) == 78u8 &&
        (119u8 ^ 56u8) == 79u8 &&
        (104u8 ^ 56u8) == 80u8 &&
        (105u8 ^ 56u8) == 81u8 &&
        (106u8 ^ 56u8) == 82u8 &&
        (107u8 ^ 56u8) == 83u8 &&
        (108u8 ^ 56u8) == 84u8 &&
        (109u8 ^ 56u8) == 85u8 &&
        (110u8 ^ 56u8) == 86u8 &&
        (111u8 ^ 56u8) == 87u8 &&
        (96u8 ^ 56u8) == 88u8 &&
        (97u8 ^ 56u8) == 89u8 &&
        (98u8 ^ 56u8) == 90u8 &&
        (89u8 ^ 56u8) == 97u8 &&
        (90u8 ^ 56u8) == 98u8 &&
        (91u8 ^ 56u8) == 99u8 &&
        (92u8 ^ 56u8) == 100u8 &&
        (93u8 ^ 56u8) == 101u8 &&
        (94u8 ^ 56u8) == 102u8 &&
        (95u8 ^ 56u8) == 103u8 &&
        (80u8 ^ 56u8) == 104u8 &&
        (81u8 ^ 56u8) == 105u8 &&
        (82u8 ^ 56u8) == 106u8 &&
        (83u8 ^ 56u8) == 107u8 &&
        (84u8 ^ 56u8) == 108u8 &&
        (85u8 ^ 56u8) == 109u8 &&
        (86u8 ^ 56u8) == 110u8 &&
        (87u8 ^ 56u8) == 111u8 &&
        (72u8 ^ 56u8) == 112u8 &&
        (73u8 ^ 56u8) == 113u8 &&
        (74u8 ^ 56u8) == 114u8 &&
        (75u8 ^ 56u8) == 115u8 &&
        (76u8 ^ 56u8) == 116u8 &&
        (77u8 ^ 56u8) == 117u8 &&
        (78u8 ^ 56u8) == 118u8 &&
        (79u8 ^ 56u8) == 119u8 &&
        (64u8 ^ 56u8) == 120u8 &&
        (65u8 ^ 56u8) == 121u8 &&
        (66u8 ^ 56u8) == 122u8 &&
        (8u8 ^ 56u8) == 48u8 &&
        (9u8 ^ 56u8) == 49u8 &&
        (10u8 ^ 56u8) == 50u8 &&
        (11u8 ^ 56u8) == 51u8 &&
        (12u8 ^ 56u8) == 52u8 &&
        (13u8 ^ 56u8) == 53u8 &&
        (14u8 ^ 56u8) == 54u8 &&
        (15u8 ^ 56u8) == 55u8 &&
        (0u8 ^ 56u8) == 56u8 &&
        (1u8 ^ 56u8) == 57u8 &&
        (21u8 ^ 56u8) == 45u8 &&
        (22u8 ^ 56u8) == 46u8 &&
        (103u8 ^ 56u8) == 95u8 &&
        (70u8 ^ 56u8) == 126u8 &&
        (2u8 ^ 56u8) == 58u8 &&
        (23u8 ^ 56u8) == 47u8 &&
        (7u8 ^ 56u8) == 63u8 &&
        (27u8 ^ 56u8) == 35u8 &&
        (99u8 ^ 56u8) == 91u8 &&
        (101u8 ^ 56u8) == 93u8 &&
        (120u8 ^ 56u8) == 64u8 &&
        (25u8 ^ 56u8) == 33u8 &&
        (28u8 ^ 56u8) == 36u8 &&
        (30u8 ^ 56u8) == 38u8 &&
        (16u8 ^ 56u8) == 40u8 &&
        (17u8 ^ 56u8) == 41u8 &&
        (18u8 ^ 56u8) == 42u8 &&
        (19u8 ^ 56u8) == 43u8 &&
        (20u8 ^ 56u8) == 44u8 &&
        (3u8 ^ 56u8) == 59u8 &&
        (5u8 ^ 56u8) == 61u8 &&
        (29u8 ^ 56u8) == 37u8
    ) by (bit_vector);
}

/// The hex digits of a token are read back from their value.
proof fn lemma_cipher_digits(a: char, b: char)
    requires
        hex_digit_value(a) is Some,
        hex_digit_value(b) is Some,
    ensures
        a == hex_char_of(hex_digit_value(a)->Some_0),
        b == hex_char_of(hex_digit_value(b)->Some_0),
{
}

/// The lower-case hex digit of a value below 16.
pub open spec fn hex_char_of(d: u8) -> char {
    if d < 10 {
        ((d as u32) + 48) as char
    } else {
        ((d as u32) + 87) as char
    }
}

} // verus!
