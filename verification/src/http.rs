//! Decisions of the centre's HTTP layer: the log level of a request's span
//! and of its completion, and the origins CORS allows.

use vstd::prelude::*;

use crate::text::{chars_of, str_equals, string_from_chars, trim};

verus! {

/// Log levels used for requests.
#[derive(Clone, Copy, Debug, PartialEq, Eq, Structural)]
pub enum LogLevel {
    Trace,
    Debug,
    Warn,
    Error,
}

/// Completed requests: server errors are logged as errors, client errors
/// as warnings, the rest at debug level.
pub open spec fn response_level(status: u16) -> LogLevel {
    if status >= 500 {
        LogLevel::Error
    } else if status >= 400 {
        LogLevel::Warn
    } else {
        LogLevel::Debug
    }
}

/// The level at which a completed request with this status is logged.
pub fn response_log_level(status: u16) -> (level: LogLevel)
    ensures
        level == response_level(status),
{
    if status >= 500 {
        LogLevel::Error
    } else if status >= 400 {
        LogLevel::Warn
    } else {
        LogLevel::Debug
    }
}

/// The level of a request's span: health checks at trace level, the rest
/// at debug level.
pub fn request_span_level(path: &str) -> (level: LogLevel)
    ensures
        path@ == "/health"@ ==> level == LogLevel::Trace,
        path@ != "/health"@ ==> level == LogLevel::Debug,
{
    if str_equals(path, "/health") {
        LogLevel::Trace
    } else {
        LogLevel::Debug
    }
}

/// The pieces of `s` between commas, as `str::split(',')` yields them
/// (an empty text is one empty piece).
pub open spec fn split_commas(s: Seq<char>) -> Seq<Seq<char>>
    decreases s.len(),
{
    if s.len() == 0 {
        seq![Seq::empty()]
    } else {
        let parts = split_commas(s.drop_last());
        if s.last() == ',' {
            parts.push(Seq::empty())
        } else {
            parts.update(parts.len() - 1, parts.last().push(s.last()))
        }
    }
}

proof fn lemma_split_nonempty(s: Seq<char>)
    ensures
        split_commas(s).len() >= 1,
    decreases s.len(),
{
    if s.len() > 0 {
        lemma_split_nonempty(s.drop_last());
    }
}

/// A character `http::HeaderValue::from_str` accepts: a tab, or anything
/// but an ASCII control character or DEL (non-ASCII characters encode to
/// bytes of at least 0x80, all accepted).
pub open spec fn header_char_ok(c: char) -> bool {
    c == '\t' || (c as u32 >= 32 && c as u32 != 127)
}

/// Text that `http::HeaderValue::from_str` accepts.
pub open spec fn header_value_ok(s: Seq<char>) -> bool {
    forall|i: int| 0 <= i < s.len() ==> header_char_ok(#[trigger] s[i])
}

/// The origins kept from a configured list: each piece trimmed, and kept
/// when it is a valid header value.
pub open spec fn kept_origins(pieces: Seq<Seq<char>>) -> Seq<Seq<char>>
    decreases pieces.len(),
{
    if pieces.len() == 0 {
        Seq::empty()
    } else {
        let rest = kept_origins(pieces.drop_last());
        let t = trim(pieces.last());
        if header_value_ok(t) {
            rest.push(t)
        } else {
            rest
        }
    }
}

/// Header values accept tab and every visible ASCII character (space to
/// `~`, hyphens, colons, slashes and dots included) and refuse the other
/// ASCII control characters and DEL.
pub proof fn law_header_accepts_visible_ascii(c: char)
    ensures
        c == '\t' || (32 <= c as u32 && c as u32 <= 126) ==> header_char_ok(c),
        (c as u32) < 32 && c != '\t' ==> !header_char_ok(c),
        c as u32 == 127 ==> !header_char_ok(c),
{
}

/// Configured origins made of visible ASCII are all kept, trimmed, in the
/// order given; in any case no more origins are kept than were configured.
pub proof fn law_visible_origins_are_kept(pieces: Seq<Seq<char>>)
    ensures
        kept_origins(pieces).len() <= pieces.len(),
        (forall|i: int, k: int|
            0 <= i < pieces.len() && 0 <= k < trim(pieces[i]).len() ==> 32 <= (#[trigger] trim(
                pieces[i],
            )[k]) as u32 <= 126) ==> kept_origins(pieces) == pieces.map_values(
            |p: Seq<char>| trim(p),
        ),
    decreases pieces.len(),
{
    if pieces.len() > 0 {
        let front = pieces.drop_last();
        law_visible_origins_are_kept(front);
        if forall|i: int, k: int|
            0 <= i < pieces.len() && 0 <= k < trim(pieces[i]).len() ==> 32 <= (#[trigger] trim(
                pieces[i],
            )[k]) as u32 <= 126 {
            assert forall|i: int, k: int|
                0 <= i < front.len() && 0 <= k < trim(front[i]).len() implies 32 <= (#[trigger] trim(
                front[i],
            )[k]) as u32 <= 126 by {
                assert(front[i] == pieces[i]);
                assert(trim(pieces[i])[k] == trim(front[i])[k]);
            }
            let t = trim(pieces.last());
            assert forall|k: int| 0 <= k < t.len() implies header_char_ok(#[trigger] t[k]) by {
                assert(trim(pieces[pieces.len() - 1])[k] == t[k]);
            }
            assert(kept_origins(pieces) =~= pieces.map_values(|p: Seq<char>| trim(p)));
        }
    }
}

/// The origins allowed when none are configured: the development servers
/// on localhost.
pub open spec fn development_origins() -> Seq<Seq<char>> {
    seq![
        "http://localhost:3000"@,
        "http://localhost:5173"@,
        "http://127.0.0.1:3000"@,
        "http://127.0.0.1:5173"@,
    ]
}

/// The characters of each string in a list.
pub open spec fn texts(v: Seq<String>) -> Seq<Seq<char>> {
    v.map_values(|s: String| s@)
}

fn header_value_chars_ok(chars: &Vec<char>) -> (ok: bool)
    ensures
        ok == header_value_ok(chars@),
{
    let mut i: usize = 0;
    while i < chars.len()
        invariant
            i <= chars@.len(),
            forall|k: int| 0 <= k < i ==> header_char_ok(#[trigger] chars@[k]),
        decreases chars@.len() - i,
    {
        let c = chars[i];
        let v = c as u32;
        if !(c == '\t' || (v >= 32 && v != 127)) {
            return false;
        }
        i = i + 1;
    }
    true
}

fn trim_chars(chars: &Vec<char>) -> (trimmed: Vec<char>)
    ensures
        trimmed@ == trim(chars@),
{
    let s = string_from_chars(chars.as_slice());
    let t = crate::text::trim_str(s.as_str());
    chars_of(t.as_str())
}

/// The comma-separated pieces of a string.
fn split_on_commas(s: &str) -> (pieces: Vec<Vec<char>>)
    ensures
        pieces@.len() == split_commas(s@).len(),
        forall|i: int| 0 <= i < pieces@.len() ==> #[trigger] pieces@[i]@ == split_commas(s@)[i],
{
    let chars = chars_of(s);
    let mut pieces: Vec<Vec<char>> = Vec::new();
    let mut current: Vec<char> = Vec::new();
    let mut i: usize = 0;
    while i < chars.len()
        invariant
            i <= chars@.len(),
            chars@ == s@,
            split_commas(chars@.take(i as int)).len() == pieces@.len() + 1,
            forall|k: int|
                0 <= k < pieces@.len() ==> #[trigger] pieces@[k]@ == split_commas(
                    chars@.take(i as int),
                )[k],
            current@ == split_commas(chars@.take(i as int)).last(),
        decreases chars@.len() - i,
    {
        let c = chars[i];
        proof {
            lemma_split_nonempty(chars@.take(i as int));
            assert(chars@.take(i + 1).drop_last() =~= chars@.take(i as int));
        }
        if c == ',' {
            pieces.push(current);
            current = Vec::new();
            assert(current@ =~= Seq::<char>::empty());
        } else {
            current.push(c);
        }
        i = i + 1;
    }
    assert(chars@.take(chars@.len() as int) =~= chars@);
    pieces.push(current);
    pieces
}

/// The origins CORS allows: from the configured comma-separated list, the
/// trimmed pieces that are valid header values; without a list, the
/// development origins.
pub fn cors_allowed_origins(configured: Option<&str>) -> (origins: Vec<String>)
    ensures
        match configured {
            Some(list) => texts(origins@) == kept_origins(split_commas(list@)),
            None => texts(origins@) == development_origins(),
        },
{
    match configured {
        Some(list) => {
            let pieces = split_on_commas(list);
            let mut origins: Vec<String> = Vec::new();
            let mut i: usize = 0;
            while i < pieces.len()
                invariant
                    i <= pieces@.len(),
                    pieces@.len() == split_commas(list@).len(),
                    forall|k: int|
                        0 <= k < pieces@.len() ==> #[trigger] pieces@[k]@ == split_commas(list@)[k],
                    texts(origins@) == kept_origins(split_commas(list@).take(i as int)),
                decreases pieces@.len() - i,
            {
                let t = trim_chars(&pieces[i]);
                proof {
                    assert(split_commas(list@).take(i + 1).drop_last() =~= split_commas(list@).take(
                        i as int,
                    ));
                }
                if header_value_chars_ok(&t) {
                    let ghost before = origins@;
                    origins.push(string_from_chars(t.as_slice()));
                    assert(texts(origins@) =~= texts(before).push(t@));
                }
                i = i + 1;
            }
            assert(split_commas(list@).take(pieces@.len() as int) =~= split_commas(list@));
            origins
        },
        None => {
            let origins = vec![
                String::from_str("http://localhost:3000"),
                String::from_str("http://localhost:5173"),
                String::from_str("http://127.0.0.1:3000"),
                String::from_str("http://127.0.0.1:5173"),
            ];
            assert(texts(origins@) =~= development_origins());
            origins
        },
    }
}

} // verus!
