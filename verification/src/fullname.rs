//! Fullnames: a two-character kind, an underscore and a base-36 id.
//!
//! The kinds are `t1` comment, `t2` account, `t3` link, `t4` message,
//! `t5` subreddit, `t6` award and `t8` promo campaign.

use crate::text::{chars_of, find_char, find_text, first_index, first_index_from,
    first_occurrence_from, lemma_first_index_from, slice_chars, string_of};
use vstd::prelude::*;
use vstd::string::StrSliceExecFns;
use vstd::string::StringExecFns;

verus! {

/// The text is not a fullname.
#[derive(Debug, Clone, Copy, PartialEq, Eq, Structural)]
pub struct InvalidFullname;

/// Whether a text is a fullname: it has an underscore, exactly two
/// characters stand before the first one, and the first of them is `t`.
pub open spec fn valid_fullname(s: Seq<char>) -> bool {
    &&& first_index(s, '_') < s.len()
    &&& first_index(s, '_') == 2
    &&& s[0] == 't'
}

/// The id that a submission permalink names: the path segment that follows
/// `/r/`, the subreddit and one more segment. `None` where the link has no
/// `/r/` or fewer than two `/` after it.
pub open spec fn link_submission_id(url: Seq<char>) -> Option<Seq<char>> {
    let a = first_occurrence_from(url, seq!['/', 'r', '/'], 0);
    let b = first_index_from(url, '/', a + 3);
    let c = first_index_from(url, '/', b + 1);
    let d = first_index_from(url, '/', c + 1);
    if a < url.len() && b < url.len() && c < url.len() {
        Some(url.subrange(c + 1, d))
    } else {
        None
    }
}

/// A kind prefix, an underscore and an id make a fullname.
pub proof fn lemma_prefixed_is_valid(kind: Seq<char>, id: Seq<char>)
    requires
        kind.len() == 2,
        kind[0] == 't',
        kind[1] != '_',
    ensures
        valid_fullname(kind + seq!['_'] + id),
        (kind + seq!['_'] + id).subrange(0, 2) == kind,
        (kind + seq!['_'] + id).subrange(3, (kind + seq!['_'] + id).len() as int) == id,
{
    let s = kind + seq!['_'] + id;
    assert(s[0] == 't');
    assert(s[1] == kind[1]);
    assert(s[2] == '_');
    assert(first_index_from(s, '_', 2) == 2);
    assert(first_index_from(s, '_', 1) == 2);
    assert(first_index_from(s, '_', 0) == 2);
    assert(s.subrange(0, 2) =~= kind);
    assert(s.subrange(3, s.len() as int) =~= id);
}

fn check_fullname(chars: &Vec<char>) -> (ok: bool)
    ensures
        ok == valid_fullname(chars@),
{
    let at = find_char(chars, '_', 0);
    at < chars.len() && at == 2 && chars[0] == 't'
}

fn submission_id_of_link(url: &Vec<char>) -> (r: Option<Vec<char>>)
    ensures
        r is Some <==> link_submission_id(url@) is Some,
        r matches Some(id) ==> Some(id@) == link_submission_id(url@),
{
    let mut pat: Vec<char> = Vec::new();
    pat.push('/');
    pat.push('r');
    pat.push('/');
    proof {
        assert(pat@ =~= seq!['/', 'r', '/']);
    }
    let a = find_text(url, &pat);
    if a >= url.len() {
        return None;
    }
    let b = find_char(url, '/', a + 3);
    if b >= url.len() {
        return None;
    }
    let c = find_char(url, '/', b + 1);
    if c >= url.len() {
        return None;
    }
    let d = find_char(url, '/', c + 1);
    Some(slice_chars(url, c + 1, d))
}

fn prefixed(kind: &str, id: &Vec<char>) -> (r: String)
    ensures
        r@ == kind@ + seq!['_'] + id@,
{
    let tail = string_of(id);
    let head = String::from_str(kind);
    let head = head.concat("_");
    proof {
        reveal_strlit("_");
        assert("_"@ =~= seq!['_']);
    }
    head.concat(tail.as_str())
}

/// A validated fullname.
#[derive(Debug, PartialEq, Eq, Hash)]
pub struct ThingFullname(String);

impl View for ThingFullname {
    type V = Seq<char>;

    closed spec fn view(&self) -> Seq<char> {
        self.0@
    }
}

impl Clone for ThingFullname {
    fn clone(&self) -> (r: Self)
        ensures
            r@ == self@,
    {
        proof {
            use_type_invariant(self);
        }
        ThingFullname(self.0.clone())
    }
}

impl ThingFullname {
    #[verifier::type_invariant]
    spec fn well_formed(self) -> bool {
        valid_fullname(self.0@)
    }

    /// Says whether a text is a fullname.
    pub fn validate(thing_id: &str) -> (r: Result<(), InvalidFullname>)
        ensures
            r is Ok <==> valid_fullname(thing_id@),
    {
        let chars = chars_of(thing_id);
        if check_fullname(&chars) {
            Ok(())
        } else {
            Err(InvalidFullname)
        }
    }

    /// Makes a fullname of a text, where the text is one.
    pub fn try_from(thing_id: &str) -> (r: Result<Self, InvalidFullname>)
        ensures
            r is Ok <==> valid_fullname(thing_id@),
            r matches Ok(f) ==> f@ == thing_id@,
    {
        match Self::validate(thing_id) {
            Ok(()) => Ok(ThingFullname(thing_id.to_owned())),
            Err(e) => Err(e),
        }
    }

    /// Makes a fullname of an owned text, or hands the text back.
    pub fn try_from_string(thing_id: String) -> (r: Result<Self, String>)
        ensures
            r is Ok <==> valid_fullname(thing_id@),
            r matches Ok(f) ==> f@ == thing_id@,
            r matches Err(s) ==> s@ == thing_id@,
    {
        match Self::validate(thing_id.as_str()) {
            Ok(()) => Ok(ThingFullname(thing_id)),
            Err(_) => Err(thing_id),
        }
    }

    /// The kind and the id.
    pub fn split(&self) -> (r: (&str, &str))
        ensures
            r.0@ == self@.subrange(0, 2),
            r.1@ == self@.subrange(3, self@.len() as int),
            r.0@ + seq!['_'] + r.1@ == self@,
            r.0@.len() == 2,
    {
        proof {
            use_type_invariant(self);
            lemma_first_index_from(self.0@, '_', 0);
        }
        let s = self.0.as_str();
        let n = s.unicode_len();
        let kind = s.substring_char(0, 2);
        let id = s.substring_char(3, n);
        proof {
            assert(kind@ + seq!['_'] + id@ =~= self.0@);
        }
        (kind, id)
    }

    /// The kind, such as `t1`.
    pub fn kind(&self) -> (r: &str)
        ensures
            r@ == self@.subrange(0, 2),
            r@.len() == 2,
    {
        self.split().0
    }

    /// The id, such as `1e5leyy`.
    pub fn id(&self) -> (r: &str)
        ensures
            r@ == self@.subrange(3, self@.len() as int),
    {
        self.split().1
    }

    /// The whole fullname.
    pub fn full(&self) -> (r: &str)
        ensures
            r@ == self@,
            valid_fullname(self@),
    {
        proof {
            use_type_invariant(self);
        }
        self.0.as_str()
    }

    /// The whole fullname, owned.
    pub fn into_inner(self) -> (r: String)
        ensures
            r@ == self@,
    {
        self.0
    }

    /// The fullname of the comment with this id.
    pub fn from_comment_id(comment_id: &str) -> (r: Self)
        ensures
            r@ == seq!['t', '1', '_'] + comment_id@,
    {
        let id = chars_of(comment_id);
        let full = prefixed("t1", &id);
        proof {
            reveal_strlit("t1");
            lemma_prefixed_is_valid("t1"@, id@);
            assert(full@ =~= seq!['t', '1', '_'] + comment_id@);
        }
        ThingFullname(full)
    }

    /// The fullname of the submission with this id.
    pub fn from_submission_id(submission_id: &str) -> (r: Self)
        ensures
            r@ == seq!['t', '3', '_'] + submission_id@,
    {
        let id = chars_of(submission_id);
        let full = prefixed("t3", &id);
        proof {
            reveal_strlit("t3");
            lemma_prefixed_is_valid("t3"@, id@);
            assert(full@ =~= seq!['t', '3', '_'] + submission_id@);
        }
        ThingFullname(full)
    }

    /// The fullname of the submission that a permalink of the form
    /// `https://www.reddit.com/r/SUBREDDIT/comments/ID[/TITLE/]` names.
    pub fn from_submission_link(url: &str) -> (r: Option<Self>)
        ensures
            r is Some <==> link_submission_id(url@) is Some,
            r matches Some(f) ==> f@ == seq!['t', '3', '_'] + link_submission_id(url@)->0,
    {
        let chars = chars_of(url);
        match submission_id_of_link(&chars) {
            Some(id) => {
                let full = prefixed("t3", &id);
                proof {
                    reveal_strlit("t3");
                    lemma_prefixed_is_valid("t3"@, id@);
                    assert(full@ =~= seq!['t', '3', '_'] + id@);
                }
                Some(ThingFullname(full))
            },
            None => None,
        }
    }
}

/// A validated thing id: the same form as a fullname.
#[derive(Debug, PartialEq, Eq, Hash)]
pub struct ThingId(String);

impl View for ThingId {
    type V = Seq<char>;

    closed spec fn view(&self) -> Seq<char> {
        self.0@
    }
}

impl Clone for ThingId {
    fn clone(&self) -> (r: Self)
        ensures
            r@ == self@,
    {
        proof {
            use_type_invariant(self);
        }
        ThingId(self.0.clone())
    }
}

impl ThingId {
    #[verifier::type_invariant]
    spec fn well_formed(self) -> bool {
        valid_fullname(self.0@)
    }

    /// Says whether a text is a thing id.
    pub fn validate(thing_id: &str) -> (r: Result<(), InvalidFullname>)
        ensures
            r is Ok <==> valid_fullname(thing_id@),
    {
        let chars = chars_of(thing_id);
        if check_fullname(&chars) {
            Ok(())
        } else {
            Err(InvalidFullname)
        }
    }

    /// Makes a thing id of a text, where the text is one.
    pub fn try_from(thing_id: &str) -> (r: Result<Self, InvalidFullname>)
        ensures
            r is Ok <==> valid_fullname(thing_id@),
            r matches Ok(f) ==> f@ == thing_id@,
    {
        match Self::validate(thing_id) {
            Ok(()) => Ok(ThingId(thing_id.to_owned())),
            Err(e) => Err(e),
        }
    }

    /// The kind and the id: what stands before and after the first
    /// underscore.
    pub fn split(&self) -> (r: (&str, &str))
        ensures
            r.0@ == self@.subrange(0, 2),
            r.1@ == self@.subrange(3, self@.len() as int),
            r.0@ + seq!['_'] + r.1@ == self@,
            r.0@.len() == 2,
    {
        proof {
            use_type_invariant(self);
            lemma_first_index_from(self.0@, '_', 0);
        }
        let s = self.0.as_str();
        let n = s.unicode_len();
        let kind = s.substring_char(0, 2);
        let id = s.substring_char(3, n);
        proof {
            assert(kind@ + seq!['_'] + id@ =~= self.0@);
        }
        (kind, id)
    }

    /// The kind, such as `t1`.
    pub fn kind(&self) -> (r: &str)
        ensures
            r@ == self@.subrange(0, 2),
            r@.len() == 2,
    {
        self.split().0
    }

    /// The id, such as `1e5leyy`.
    pub fn id(&self) -> (r: &str)
        ensures
            r@ == self@.subrange(3, self@.len() as int),
    {
        self.split().1
    }

    /// The whole thing id.
    pub fn full(&self) -> (r: &str)
        ensures
            r@ == self@,
            valid_fullname(self@),
    {
        proof {
            use_type_invariant(self);
        }
        self.0.as_str()
    }

    /// The whole thing id, owned.
    pub fn into_inner(self) -> (r: String)
        ensures
            r@ == self@,
    {
        self.0
    }

    /// The id of the submission that a permalink of the form
    /// `https://www.reddit.com/r/SUBREDDIT/comments/ID[/TITLE/]` names.
    pub fn from_submission_link(url: &str) -> (r: Option<Self>)
        ensures
            r is Some <==> link_submission_id(url@) is Some,
            r matches Some(f) ==> f@ == seq!['t', '3', '_'] + link_submission_id(url@)->0,
    {
        let chars = chars_of(url);
        match submission_id_of_link(&chars) {
            Some(id) => {
                let full = prefixed("t3", &id);
                proof {
                    reveal_strlit("t3");
                    lemma_prefixed_is_valid("t3"@, id@);
                    assert(full@ =~= seq!['t', '3', '_'] + id@);
                }
                Some(ThingId(full))
            },
            None => None,
        }
    }
}

/// A fullname is its kind, an underscore and its id, and its kind has two
/// characters.
pub proof fn lemma_fullname_parts(full: Seq<char>)
    requires
        valid_fullname(full),
    ensures
        full.subrange(0, 2) + seq!['_'] + full.subrange(3, full.len() as int) == full,
        full.subrange(0, 2).len() == 2,
{
    lemma_first_index_from(full, '_', 0);
    assert(full.subrange(0, 2) + seq!['_'] + full.subrange(3, full.len() as int) =~= full);
}

} // verus!
