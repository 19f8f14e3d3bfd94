//! Artwork handling: inline data URIs and image payloads.
//!
//! Embedded artwork travels as a `data:<mime>;base64,<payload>` URI; this
//! module builds and splits such URIs. Fetching an image from disk or from
//! the network happens outside the library.

use vstd::prelude::*;

use crate::strutil::{find_sub_from, find_substring, has_prefix, str_chars, sub_chars};

verus! {

/// The base64 rendering (standard alphabet, padded) of a byte sequence.
pub uninterp spec fn base64_of(data: Seq<u8>) -> Seq<char>;

/// What base64 decoding yields on a character sequence: the bytes, or
/// nothing where the text is not valid base64.
pub uninterp spec fn base64_decode_of(s: Seq<char>) -> Option<Seq<u8>>;

/// The essence (`type/subtype`) of a media type string, or nothing where it
/// does not parse as a media type.
pub uninterp spec fn mime_essence_of(s: Seq<char>) -> Option<Seq<char>>;

/// Relies on base64's STANDARD engine encode: two to four characters per
/// three input bytes, a pure function of the bytes.
#[verifier::external_body]
fn base64_encode(data: &Vec<u8>) -> (r: String)
    ensures
        r@ == base64_of(data@),
{
    base64::Engine::encode(&base64::engine::general_purpose::STANDARD, data)
}

/// Relies on base64's STANDARD engine decode: inverts the standard
/// encoding, failing on text that is not valid base64.
#[verifier::external_body]
fn base64_decode(s: &str) -> (r: Option<Vec<u8>>)
    ensures
        r matches Some(v) ==> base64_decode_of(s@) == Some(v@),
        r is None ==> base64_decode_of(s@) is None,
{
    base64::Engine::decode(&base64::engine::general_purpose::STANDARD, s).ok()
}

/// Relies on mime's Mime parsing (FromStr) and essence_str: the media type
/// without its parameters, or nothing where the text is not a media type.
#[verifier::external_body]
fn mime_essence(s: &str) -> (r: Option<String>)
    ensures
        r matches Some(v) ==> mime_essence_of(s@) == Some(v@),
        r is None ==> mime_essence_of(s@) is None,
{
    s.parse::<mime::Mime>().ok().map(|m| m.essence_str().to_owned())
}

/// The inline data URI carrying a picture: `data:<mime>;base64,<payload>`.
pub open spec fn data_uri_of(mime_type: Seq<char>, data: Seq<u8>) -> Seq<char> {
    "data:"@ + mime_type + ";base64,"@ + base64_of(data)
}

/// Encodes a picture as an inline data URI.
pub fn picture2base64(mime_type: &str, data: &Vec<u8>) -> (r: String)
    ensures
        r@ == data_uri_of(mime_type@, data@),
{
    let mut s = String::new();
    s.append("data:");
    s.append(mime_type);
    s.append(";base64,");
    let encoded = base64_encode(data);
    s.append(encoded.as_str());
    proof {
        assert(s@ =~= data_uri_of(mime_type@, data@));
    }
    s
}

/// A string of the shape `data:...;base64,<payload>` with a non-empty
/// payload segment before any further `;base64,` marker.
pub open spec fn is_data_uri(s: Seq<char>) -> bool {
    &&& s.len() >= 5 && s.subrange(0, 5) == "data:"@
    &&& match find_sub_from(s, ";base64,"@, 0) {
        Some(p) => {
            let seg_end = match find_sub_from(s, ";base64,"@, p + 8) {
                Some(q) => q,
                None => s.len() as int,
            };
            seg_end > p + 8
        },
        None => false,
    }
}

/// Checks whether the string is a base64-encoded data URI of the shape
/// `data:<mime>;base64,<payload>`.
pub fn is_base64_encoded(s: &str) -> (r: bool)
    ensures
        r == is_data_uri(s@),
{
    let cs = str_chars(s);
    let marker = str_chars(";base64,");
    proof {
        reveal_strlit("data:");
        reveal_strlit(";base64,");
    }
    if !has_prefix(&cs, "data:") {
        return false;
    }
    let n = cs.len();
    match find_substring(&cs, &marker, 0) {
        Some(p) => {
            proof {
                crate::strutil::lemma_find_sub_bounds(cs@, ";base64,"@, 0, p as int);
                assert(p + 8 <= n);
            }
            let seg_end: usize = match find_substring(&cs, &marker, p + 8) {
                Some(q) => q,
                None => cs.len(),
            };
            seg_end > p + 8
        },
        None => false,
    }
}

/// Splits a data URI into its media type (with any repeated `data:` prefix
/// stripped) and its decoded payload; nothing where the text lacks the
/// marker, the media type does not parse, or the payload is not base64.
pub fn decode_base64_media(encoded: &str) -> (r: Option<(String, Vec<u8>)>)
    ensures
        r matches Some(p) ==> (find_sub_from(encoded@, ";base64,"@, 0) matches Some(q) && ({
            let head = strip_data_prefixes(encoded@.subrange(0, q));
            let payload = encoded@.subrange(q + 8, encoded@.len() as int);
            &&& mime_essence_of(head) == Some(p.0@)
            &&& base64_decode_of(payload) == Some(p.1@)
        })),
        r is None ==> (find_sub_from(encoded@, ";base64,"@, 0) is None || (find_sub_from(
            encoded@,
            ";base64,"@,
            0,
        ) matches Some(q) && (mime_essence_of(strip_data_prefixes(encoded@.subrange(0, q))) is None
            || base64_decode_of(encoded@.subrange(q + 8, encoded@.len() as int)) is None))),
{
    let cs = str_chars(encoded);
    let marker = str_chars(";base64,");
    proof {
        reveal_strlit(";base64,");
    }
    let p = match find_substring(&cs, &marker, 0) {
        Some(p) => p,
        None => {
            return None;
        },
    };
    let n = cs.len();
    proof {
        crate::strutil::lemma_find_sub_bounds(cs@, ";base64,"@, 0, p as int);
        assert(p + 8 <= n);
    }
    let head_raw = sub_chars(&cs, 0, p);
    let head = strip_data_prefixes_exec(&head_raw);
    let payload = sub_chars(&cs, p + 8, cs.len());
    let mime = match mime_essence(crate::strutil::chars_to_string(&head).as_str()) {
        Some(m) => m,
        None => {
            return None;
        },
    };
    let data = match base64_decode(crate::strutil::chars_to_string(&payload).as_str()) {
        Some(d) => d,
        None => {
            return None;
        },
    };
    Some((mime, data))
}

/// `s` with every leading repetition of `data:` removed, as
/// `trim_start_matches` behaves.
pub open spec fn strip_data_prefixes(s: Seq<char>) -> Seq<char>
    decreases s.len(),
{
    if s.len() >= 5 && s.subrange(0, 5) == "data:"@ {
        strip_data_prefixes(s.subrange(5, s.len() as int))
    } else {
        s
    }
}

fn strip_data_prefixes_exec(v: &Vec<char>) -> (r: Vec<char>)
    ensures
        r@ == strip_data_prefixes(v@),
    decreases v@.len(),
{
    proof {
        reveal_strlit("data:");
    }
    if has_prefix(v, "data:") {
        let rest = sub_chars(v, 5, v.len());
        let r = strip_data_prefixes_exec(&rest);
        r
    } else {
        let r = sub_chars(v, 0, v.len());
        proof {
            assert(v@.subrange(0, v@.len() as int) =~= v@);
        }
        r
    }
}

} // verus!
