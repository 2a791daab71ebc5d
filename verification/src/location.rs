//! Object keys: the normalised, backend-agnostic name of an object or of a
//! listing prefix.

use crate::error::ConfigError;
use object_store::path::Path;
use vstd::prelude::*;
use vstd::string::*;

verus! {

/// `object_store::path::Error`, the reason why a path has no normal form.
/// It is only carried.
#[verifier::external_type_specification]
#[verifier::external_body]
pub struct ExPathError(object_store::path::Error);

/// `s` without one leading `/`, if it has one.
pub open spec fn strip_leading(s: Seq<char>) -> Seq<char> {
    if s.len() > 0 && s[0] == '/' {
        s.skip(1)
    } else {
        s
    }
}

/// `s` without one trailing `/`, if it has one.
pub open spec fn strip_trailing(s: Seq<char>) -> Seq<char> {
    if s.len() > 0 && s.last() == '/' {
        s.drop_last()
    } else {
        s
    }
}

/// The pieces of `s` between its `/` delimiters; never empty.
pub open spec fn segments(s: Seq<char>) -> Seq<Seq<char>>
    decreases s.len(),
{
    if s.len() == 0 {
        seq![Seq::<char>::empty()]
    } else {
        let before = segments(s.drop_last());
        if s.last() == '/' {
            before.push(Seq::<char>::empty())
        } else {
            before.drop_last().push(before.last().push(s.last()))
        }
    }
}

/// An ASCII control character: below the space, or the delete character.
pub open spec fn is_control(c: char) -> bool {
    (c as u32) < 0x20 || (c as u32) == 0x7f
}

/// A segment that may stand in a key: not empty, not `.` or `..`, and free
/// of control characters.
pub open spec fn valid_segment(seg: Seq<char>) -> bool {
    &&& seg.len() > 0
    &&& seg != seq!['.']
    &&& seg != seq!['.', '.']
    &&& forall|i: int| 0 <= i < seg.len() ==> !is_control(#[trigger] seg[i])
}

/// The key that a raw path normalises to: one leading and one trailing `/`
/// are dropped, and every segment of what is left must be valid. The path
/// that is empty after dropping the leading `/` is the root, with the empty
/// key.
pub open spec fn parse_key(raw: Seq<char>) -> Option<Seq<char>> {
    let head = strip_leading(raw);
    if head.len() == 0 {
        Some(head)
    } else {
        let key = strip_trailing(head);
        if forall|i: int| 0 <= i < segments(key).len() ==> valid_segment(#[trigger] segments(key)[i]) {
            Some(key)
        } else {
            None
        }
    }
}

/// A key in normal form: one that normalising leaves as it is.
pub open spec fn is_normal(key: Seq<char>) -> bool {
    parse_key(key) == Some(key)
}

/// A text that begins with `/` has an empty first segment.
pub proof fn lemma_leading_delimiter_gives_empty_segment(s: Seq<char>)
    requires
        s.len() > 0,
        s[0] == '/',
    ensures
        segments(s).len() >= 2,
        segments(s)[0].len() == 0,
    decreases s.len(),
{
    if s.len() == 1 {
        assert(s.drop_last() =~= Seq::<char>::empty());
        assert(segments(s.drop_last()) =~= seq![Seq::<char>::empty()]);
    } else {
        lemma_leading_delimiter_gives_empty_segment(s.drop_last());
    }
}

/// Normalising is idempotent: the key that a path normalises to is in normal
/// form.
pub proof fn lemma_key_is_normal(raw: Seq<char>)
    requires
        parse_key(raw) is Some,
    ensures
        is_normal(parse_key(raw).unwrap()),
{
    let key = parse_key(raw).unwrap();
    if key.len() == 0 {
        if strip_leading(raw).len() > 0 {
            assert(segments(key) =~= seq![Seq::<char>::empty()]);
            assert(!valid_segment(segments(key)[0]));
        }
    } else {
        assert(strip_leading(raw).len() > 0);
        if key[0] == '/' {
            lemma_leading_delimiter_gives_empty_segment(key);
            assert(!valid_segment(segments(key)[0]));
        }
        if key.last() == '/' {
            let pieces = segments(key);
            assert(pieces == segments(key.drop_last()).push(Seq::<char>::empty()));
            assert(!valid_segment(pieces[pieces.len() - 1]));
        }
    }
}

/// Calls `object_store::path::Path::parse` and hands back the text of the
/// path it built. The contract restates that function: it strips one leading
/// and one trailing `/`, accepts the empty remainder as the root, and
/// otherwise rejects a path with an empty segment, a segment `.` or `..`, or
/// an ASCII control character, keeping the stripped text unchanged.
#[verifier::external_body]
fn parse_path(raw: &str) -> (r: Result<String, object_store::path::Error>)
    ensures
        r is Ok <==> parse_key(raw@) is Some,
        r matches Ok(key) ==> Some(key@) == parse_key(raw@),
{
    match Path::parse(raw) {
        Ok(path) => Ok(String::from(path)),
        Err(e) => Err(e),
    }
}

/// A normalised object key.
#[derive(Debug, Eq, PartialOrd, Ord, Hash)]
pub struct Location {
    key: String,
}

impl PartialEq for Location {
    fn eq(&self, other: &Location) -> (r: bool) {
        self.key == other.key
    }
}

impl vstd::std_specs::cmp::PartialEqSpecImpl for Location {
    open spec fn obeys_eq_spec() -> bool {
        true
    }

    /// Two locations are equal when their keys are the same text.
    open spec fn eq_spec(&self, other: &Location) -> bool {
        self@ == other@
    }
}

impl Clone for Location {
    fn clone(&self) -> (r: Self)
        ensures
            r@ == self@,
    {
        proof {
            use_type_invariant(self);
        }
        Location { key: self.key.clone() }
    }
}

impl Location {
    #[verifier::type_invariant]
    spec fn normal(&self) -> bool {
        is_normal(self.key@)
    }
}

impl View for Location {
    type V = Seq<char>;

    closed spec fn view(&self) -> Seq<char> {
        self.key@
    }
}

impl Location {
    /// Normalises the path component of a URL into a key. Fails with
    /// `InvalidPath`, carrying the raw path, exactly when the path has no
    /// normal form.
    pub fn parse(raw: &str) -> (r: Result<Location, ConfigError>)
        ensures
            match parse_key(raw@) {
                Some(key) => r matches Ok(location) && location@ == key,
                None => r matches Err(ConfigError::InvalidPath { path }) && path@ == raw@,
            },
    {
        match parse_path(raw) {
            Ok(key) => {
                proof {
                    lemma_key_is_normal(raw@);
                }
                Ok(Location { key })
            },
            Err(_) => Err(ConfigError::InvalidPath { path: String::from_str(raw) }),
        }
    }

    /// The key as text; it is always in normal form.
    pub fn as_str(&self) -> (s: &str)
        ensures
            s@ == self@,
            is_normal(self@),
    {
        proof {
            use_type_invariant(self);
        }
        self.key.as_str()
    }
}

} // verus!
