//! Destination paths: where a track is stored, and under which temporary name
//! it is written while the download is in progress.

use crate::text::{
    decimal, int_to_string, lemma_trim_chars_from_input, str_trim, string_push, trim_ws,
};
use vstd::prelude::*;
use vstd::string::*;

verus! {

/// The characters that may not appear in a file or directory name.
pub open spec fn is_forbidden(c: char) -> bool {
    c == '<' || c == '>' || c == ':' || c == '"' || c == '/' || c == '\\' || c == '|' || c == '?'
        || c == '*'
}

/// A forbidden character becomes an underscore; any other stays as it is.
pub open spec fn sanitize_char(c: char) -> char {
    if is_forbidden(c) {
        '_'
    } else {
        c
    }
}

/// The name obtained from `s` by replacing every forbidden character and then
/// trimming whitespace at both ends.
pub open spec fn spec_sanitize(s: Seq<char>) -> Seq<char> {
    trim_ws(s.map_values(|c: char| sanitize_char(c)))
}

/// `<directory>/<sanitized collection>/<sanitized title>.mp3`
pub open spec fn spec_destination(directory: Seq<char>, collection: Seq<char>, title: Seq<char>) -> Seq<char> {
    directory + seq!['/'] + spec_sanitize(collection) + seq!['/'] + spec_sanitize(title)
        + seq!['.', 'm', 'p', '3']
}

/// The name of the temporary artifact that belongs to `destination`.
pub open spec fn spec_part_path(destination: Seq<char>) -> Seq<char> {
    destination + seq!['.', 'p', 'a', 'r', 't']
}

/// The title used for a track that has none: `track-<id>`.
pub open spec fn spec_fallback_title(id: i64) -> Seq<char> {
    seq!['t', 'r', 'a', 'c', 'k', '-'] + decimal(id as int)
}

/// Tells whether `c` may not appear in a file or directory name.
pub fn is_forbidden_char(c: char) -> (r: bool)
    ensures
        r == is_forbidden(c),
{
    c == '<' || c == '>' || c == ':' || c == '"' || c == '/' || c == '\\' || c == '|' || c == '?'
        || c == '*'
}

/// Makes an untrusted title or collection name safe to use as one path
/// segment: each of `< > : " / \ | ? *` becomes `_`, then surrounding
/// whitespace is removed. Never fails.
pub fn sanitize_filename(s: &str) -> (r: String)
    ensures
        r@ == spec_sanitize(s@),
        forall|i: int| 0 <= i < r@.len() ==> !is_forbidden(#[trigger] r@[i]),
{
    let mut cleaned = String::new();
    let chars = s.chars();
    for c in it: chars
        invariant
            it.seq() == s@,
            cleaned@ == s@.take(it.index()).map_values(|c: char| sanitize_char(c)),
    {
        let ghost before = cleaned@;
        if is_forbidden_char(c) {
            string_push(&mut cleaned, '_');
        } else {
            string_push(&mut cleaned, c);
        }
        assert(cleaned@ == s@.take(it.index() + 1).map_values(|c: char| sanitize_char(c))) by {
            let f = |c: char| sanitize_char(c);
            assert(s@.take(it.index() + 1) == s@.take(it.index()).push(s@[it.index()]));
            assert(s@.take(it.index()).push(s@[it.index()]).map_values(f) == s@.take(
                it.index(),
            ).map_values(f).push(f(s@[it.index()])));
        }
    }
    assert(s@.take(s@.len() as int) == s@);
    let trimmed = str_trim(cleaned.as_str());
    proof {
        lemma_sanitize_is_clean(s@);
    }
    trimmed.to_owned()
}

/// Derives the place where a track is stored:
/// `<directory>/<sanitized collection>/<sanitized title>.mp3`.
pub fn destination_path(directory: &str, collection: &str, title: &str) -> (r: String)
    ensures
        r@ == spec_destination(directory@, collection@, title@),
{
    let safe_collection = sanitize_filename(collection);
    let safe_title = sanitize_filename(title);
    proof {
        reveal_strlit("/");
        reveal_strlit(".mp3");
        assert("/"@ == seq!['/']);
        assert(".mp3"@ == seq!['.', 'm', 'p', '3']);
    }
    directory.to_owned().concat("/").concat(safe_collection.as_str()).concat("/").concat(
        safe_title.as_str(),
    ).concat(".mp3")
}

/// The temporary artifact of a destination: `<destination>.part`.
pub fn part_path(destination: &str) -> (r: String)
    ensures
        r@ == spec_part_path(destination@),
{
    proof {
        reveal_strlit(".part");
        assert(".part"@ == seq!['.', 'p', 'a', 'r', 't']);
    }
    destination.to_owned().concat(".part")
}

/// The title under which a track without one is stored: `track-<id>`.
pub fn fallback_title(id: i64) -> (r: String)
    ensures
        r@ == spec_fallback_title(id),
{
    proof {
        reveal_strlit("track-");
        assert("track-"@ == seq!['t', 'r', 'a', 'c', 'k', '-']);
    }
    let digits = int_to_string(id as i128);
    "track-".to_owned().concat(digits.as_str())
}

/// A sanitized name holds none of the forbidden characters.
pub proof fn lemma_sanitize_is_clean(s: Seq<char>)
    ensures
        forall|i: int| 0 <= i < spec_sanitize(s).len() ==> !is_forbidden(#[trigger] spec_sanitize(s)[i]),
{
    let mapped = s.map_values(|c: char| sanitize_char(c));
    assert forall|i: int| 0 <= i < spec_sanitize(s).len() implies !is_forbidden(#[trigger] spec_sanitize(s)[i]) by {
        lemma_trim_chars_from_input(mapped, i);
        let j = choose|j: int| 0 <= j < mapped.len() && mapped[j] == trim_ws(mapped)[i];
        assert(mapped[j] == sanitize_char(s[j]));
    }
}


/// Clean segments. For every directory, collection and title, the destination
/// is the directory, a slash, the collection segment, a slash, the title
/// segment and `.mp3`, and neither of the two segments, which are the
/// sanitized collection and the sanitized title, holds any of
/// `< > : " / \ | ? *`.
pub proof fn law_generated_segments_are_clean(
    directory: Seq<char>,
    collection: Seq<char>,
    title: Seq<char>,
)
    ensures
        ({
            let d = spec_destination(directory, collection, title);
            let c = spec_sanitize(collection);
            let t = spec_sanitize(title);
            let c0: int = directory.len() as int + 1;
            let c1: int = c0 + c.len();
            let t0: int = c1 + 1;
            let t1: int = t0 + t.len();
            &&& d.len() == t1 + 4
            &&& d.subrange(0, directory.len() as int) == directory
            &&& d[directory.len() as int] == '/'
            &&& d.subrange(c0, c1) == c
            &&& d[c1] == '/'
            &&& d.subrange(t0, t1) == t
            &&& d.subrange(t1, d.len() as int) == seq!['.', 'm', 'p', '3']
            &&& forall|i: int| c0 <= i < c1 ==> !is_forbidden(#[trigger] d[i])
            &&& forall|i: int| t0 <= i < t1 ==> !is_forbidden(#[trigger] d[i])
        }),
{
    let d = spec_destination(directory, collection, title);
    let c = spec_sanitize(collection);
    let t = spec_sanitize(title);
    let c0: int = directory.len() as int + 1;
    let c1: int = c0 + c.len();
    let t0: int = c1 + 1;
    let t1: int = t0 + t.len();
    lemma_sanitize_is_clean(collection);
    lemma_sanitize_is_clean(title);
    assert forall|i: int| c0 <= i < c1 implies !is_forbidden(#[trigger] d[i]) by {
        assert(d[i] == c[i - c0]);
    }
    assert forall|i: int| t0 <= i < t1 implies !is_forbidden(#[trigger] d[i]) by {
        assert(d[i] == t[i - t0]);
    }
}

} // verus!
