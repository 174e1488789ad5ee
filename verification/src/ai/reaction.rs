//! The reaction marker that the sales assistant appends to a reply
//! (`[REACTION: 👍]`): finding it, taking the emoji out and cleaning the text.

use vstd::prelude::*;
use crate::text::{
    chars_of, copy_range, extend_range, find_from, find_in, lemma_find_first, lemma_find_from, lemma_trim_prepend_white_space,
    lemma_trim_push_white_space, occurs_at, trim, trimmed_string,
};

verus! {

/// The opening of a reaction marker.
pub open spec fn reaction_tag() -> Seq<char> {
    seq!['[', 'R', 'E', 'A', 'C', 'T', 'I', 'O', 'N', ':']
}

/// Where the marker in `s` starts and where its closing bracket stands: the first
/// `[REACTION:` and the first `]` from there on.
pub open spec fn marker_bounds(s: Seq<char>) -> Option<(int, int)> {
    match find_from(s, reaction_tag(), 0) {
        Some(start) => match find_from(s, seq![']'], start) {
            Some(close) => Some((start, close)),
            None => None,
        },
        None => None,
    }
}

/// The text with the marker cut out and trimmed, and the trimmed emoji inside the marker.
pub open spec fn reaction_parts(s: Seq<char>) -> Option<(Seq<char>, Seq<char>)> {
    match marker_bounds(s) {
        Some((start, close)) => Some(
            (
                trim(s.subrange(0, start) + s.subrange(close + 1, s.len() as int)),
                trim(s.subrange(start + reaction_tag().len(), close)),
            ),
        ),
        None => None,
    }
}

proof fn lemma_close_after_tag(s: Seq<char>, start: int)
    requires
        occurs_at(s, reaction_tag(), start),
    ensures
        match find_from(s, seq![']'], start) {
            Some(close) => start + reaction_tag().len() <= close < s.len() && s[close] == ']',
            None => true,
        },
{
    lemma_find_from(s, seq![']'], start);
    match find_from(s, seq![']'], start) {
        Some(close) => {
            assert(s.subrange(close, close + 1)[0] == s[close]);
            if close < start + 10 {
                assert(s.subrange(start, start + 10)[close - start] == s[close]);
            }
        },
        None => {},
    }
}

/// A reply with a reaction marker on a line of its own at the end, as the assistant is
/// told to write it: the text, a line break, `[REACTION:`, a space, the emoji and `]`.
pub open spec fn marked_reply(text: Seq<char>, emoji: Seq<char>) -> Seq<char> {
    text + seq!['\n'] + reaction_tag() + seq![' '] + emoji + seq![']']
}

/// Law: a reply written with its marker at the end, whose text holds no marker and
/// whose emoji holds no `]`, is read back as the trimmed text and the trimmed emoji.
pub proof fn law_marker_round_trip(text: Seq<char>, emoji: Seq<char>)
    requires
        forall|i: int| !occurs_at(text, reaction_tag(), i),
        forall|j: int| 0 <= j < emoji.len() ==> emoji[j] != ']',
    ensures
        reaction_parts(marked_reply(text, emoji)) == Some((trim(text), trim(emoji))),
{
    let s = marked_reply(text, emoji);
    let tag = reaction_tag();
    let l = text.len() as int;
    let start = l + 1;
    let close = l + 12 + emoji.len();
    assert(s.len() == close + 1);
    assert(s.subrange(start, start + 10) =~= tag);
    assert forall|j: int| 0 <= j < start implies !occurs_at(s, tag, j) by {
        if j + 10 <= l {
            if occurs_at(s, tag, j) {
                assert(text.subrange(j, j + 10) =~= s.subrange(j, j + 10));
                assert(occurs_at(text, tag, j));
            }
        } else {
            if occurs_at(s, tag, j) {
                assert(s.subrange(j, j + 10)[l - j] == s[l]);
                assert(s[l] == '\n');
            }
        }
    }
    lemma_find_first(s, tag, 0, start);
    assert(s.subrange(close, close + 1) =~= seq![']']);
    assert forall|k: int| start <= k < close implies !occurs_at(s, seq![']'], k) by {
        if occurs_at(s, seq![']'], k) {
            assert(s.subrange(k, k + 1)[0] == s[k]);
            if k < start + 10 {
                assert(s[k] == tag[k - start]);
            } else if k == start + 10 {
                assert(s[k] == ' ');
            } else {
                assert(s[k] == emoji[k - start - 11]);
            }
        }
    }
    lemma_find_first(s, seq![']'], start, close);
    assert(s.subrange(0, start) + s.subrange(close + 1, s.len() as int) =~= text.push('\n'));
    lemma_trim_push_white_space(text, '\n');
    assert(s.subrange(start + 10, close) =~= seq![' '] + emoji);
    lemma_trim_prepend_white_space(' ', emoji);
}

/// Splits a marked reply into the cleaned text and the emoji of its marker.
///
/// Gives `None` when the text holds no `[REACTION:` followed somewhere by `]`.
pub fn extract_reaction(text: &str) -> (r: Option<(String, String)>)
    ensures
        match r {
            Some((cleaned, emoji)) => reaction_parts(text@) == Some((cleaned@, emoji@)),
            None => reaction_parts(text@) is None,
        },
{
    let v = chars_of(text);
    let tag_text = "[REACTION:";
    proof {
        reveal_strlit("[REACTION:");
    }
    let tag = chars_of(tag_text);
    assert(tag@ =~= reaction_tag());
    let close_mark: Vec<char> = vec![']'];
    assert(close_mark@ =~= seq![']']);
    match find_in(&v, &tag, 0) {
        None => None,
        Some(start) => {
            proof {
                lemma_find_from(v@, reaction_tag(), 0);
                assert(occurs_at(v@, reaction_tag(), start as int));
            }
            match find_in(&v, &close_mark, start) {
                None => None,
                Some(close) => {
                    proof {
                        lemma_close_after_tag(v@, start as int);
                    }
                    let inner = copy_range(&v, start + 10, close);
                    let emoji = trimmed_string(&inner);
                    let mut rest = copy_range(&v, 0, start);
                    extend_range(&mut rest, &v, close + 1, v.len());
                    let cleaned = trimmed_string(&rest);
                    Some((cleaned, emoji))
                },
            }
        },
    }
}

/// The reply text and, when it carries a reaction marker, the emoji of the marker.
///
/// A reply with a marker comes back with the marker cut out and trimmed; one without
/// comes back trimmed.
pub fn parse_reaction_marker(text: &str) -> (r: (String, Option<String>))
    ensures
        match reaction_parts(text@) {
            Some((cleaned, emoji)) => r.0@ == cleaned && r.1 is Some && r.1->0@ == emoji,
            None => r.0@ == trim(text@) && r.1 is None,
        },
{
    match extract_reaction(text) {
        Some((cleaned, emoji)) => (cleaned, Some(emoji)),
        None => {
            let v = chars_of(text);
            (trimmed_string(&v), None)
        },
    }
}

} // verus!
