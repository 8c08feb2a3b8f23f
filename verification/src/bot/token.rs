//! The token behind a navigation button.
//!
//! A button carries a short text that says what it does and on which page
//! it was shown: `standings_next_4` is the way forward shown on page four,
//! pages counted from zero. The league is not in it; that is read from the
//! footer of the view the button belongs to.
//!
//! Tokens are written in that form. They are read in a wider one: behind
//! the page a token may go on with an underscore and anything at all, as
//! the tokens of views do that carry the remote page as a further field,
//! `standings_next_4_3`. What follows the page is not looked at.

use crate::decimal::{
    is_digit, lemma_nat_text_reads_back, nat_chars, nat_text, parse_nat_within, read_nat,
};
use crate::text::{
    chars_of, find_from, first_index_of, has_at, lemma_first_index_is, matches_at, push_all,
    push_str, string_of,
};
use vstd::prelude::*;

verus! {

/// What the reader of a view can ask for.
#[derive(Clone, Copy, Debug, PartialEq, Eq, Structural)]
pub enum NavAction {
    /// The page before this one.
    Prev,
    /// The page behind this one.
    Next,
    /// This page again, with fresh data.
    Refresh,
}

/// What every token of a standings view begins with.
pub open spec fn token_mark() -> Seq<char> {
    "standings_"@
}

/// The word for an action.
pub open spec fn action_word(action: NavAction) -> Seq<char> {
    match action {
        NavAction::Prev => "prev"@,
        NavAction::Next => "next"@,
        NavAction::Refresh => "refresh"@,
    }
}

/// The action that a word stands for.
pub open spec fn word_action(word: Seq<char>) -> Option<NavAction> {
    if word == "prev"@ {
        Some(NavAction::Prev)
    } else if word == "next"@ {
        Some(NavAction::Next)
    } else if word == "refresh"@ {
        Some(NavAction::Refresh)
    } else {
        None
    }
}

/// The token of `action` on page `ui_page`.
pub open spec fn token_text(action: NavAction, ui_page: int) -> Seq<char> {
    token_mark() + action_word(action) + "_"@ + nat_text(ui_page as nat)
}

/// Whether `s` begins as the token of a standings view does.
pub open spec fn is_standings_token(s: Seq<char>) -> bool {
    has_at(s, 0, token_mark())
}

/// Where the word of the action ends: at the first underscore behind the
/// mark, or at the end of `s` where there is none.
pub open spec fn word_end(s: Seq<char>) -> int {
    token_mark().len() + first_index_of(s.skip(token_mark().len() as int), '_')
}

/// Where the page ends: at the first underscore behind the one that ends
/// the word, or at the end of `s` where there is none.
pub open spec fn page_end(s: Seq<char>) -> int {
    word_end(s) + 1 + first_index_of(s.skip(word_end(s) + 1), '_')
}

/// Whether `s` goes on behind the word of the action, so that there is a
/// field for the page, whatever it holds.
pub open spec fn has_page_field(s: Seq<char>) -> bool {
    word_end(s) < s.len()
}

/// What a token reads as: after the mark, the word of an action up to the
/// next underscore, and behind that a page number that 32 bits can hold,
/// up to the end or to a further underscore. What follows that underscore
/// is not read. Text of any other form reads as nothing.
pub open spec fn parse_token(s: Seq<char>) -> Option<(NavAction, u32)> {
    if is_standings_token(s) && has_page_field(s) {
        match (
            word_action(s.subrange(token_mark().len() as int, word_end(s))),
            parse_nat_within(s.subrange(word_end(s) + 1, page_end(s)), u32::MAX as int),
        ) {
            (Some(action), Some(page)) => Some((action, page as u32)),
            _ => None,
        }
    } else {
        None
    }
}

/// The token of `action` on page `ui_page`.
pub fn action_token(action: NavAction, ui_page: u32) -> (token: String)
    ensures
        token@ == token_text(action, ui_page as int),
{
    let mut out: Vec<char> = Vec::new();
    push_str(&mut out, "standings_");
    assert(out@ =~= token_mark());
    match action {
        NavAction::Prev => push_str(&mut out, "prev"),
        NavAction::Next => push_str(&mut out, "next"),
        NavAction::Refresh => push_str(&mut out, "refresh"),
    }
    push_str(&mut out, "_");
    push_all(&mut out, &nat_chars(ui_page as u128));
    string_of(&out)
}

/// Tests whether `text[from..to]` is the text `word`.
fn is_word(text: &Vec<char>, from: usize, to: usize, word: &str) -> (same: bool)
    requires
        from <= to <= text.len(),
    ensures
        same == (text@.subrange(from as int, to as int) == word@),
{
    let pattern = chars_of(word);
    if pattern.len() != to - from {
        return false;
    }
    matches_at(text, from, &pattern)
}

/// Reads a token.
pub fn read_token(token: &str) -> (read: Option<(NavAction, u32)>)
    ensures
        read == parse_token(token@),
{
    let text = chars_of(token);
    let mark = chars_of("standings_");
    if !matches_at(&text, 0, &mark) {
        return None;
    }
    let word_from = mark.len();
    let word_to = find_from(&text, word_from, '_');
    if word_to >= text.len() {
        return None;
    }
    let action = if is_word(&text, word_from, word_to, "prev") {
        NavAction::Prev
    } else if is_word(&text, word_from, word_to, "next") {
        NavAction::Next
    } else if is_word(&text, word_from, word_to, "refresh") {
        NavAction::Refresh
    } else {
        return None;
    };
    let page_to = find_from(&text, word_to + 1, '_');
    match read_nat(&text, word_to + 1, page_to, 0xffff_ffff) {
        Some(page) => Some((action, page as u32)),
        None => None,
    }
}

/// A token of the written form, with or without more behind it, holds the
/// word of its action and the digits of its page where reading looks for
/// them.
proof fn lemma_token_fields(action: NavAction, ui_page: int, s: Seq<char>, more: Seq<char>)
    requires
        0 <= ui_page,
        s == token_text(action, ui_page) || s == token_text(action, ui_page) + "_"@ + more,
    ensures
        is_standings_token(s),
        has_page_field(s),
        s.subrange(token_mark().len() as int, word_end(s)) == action_word(action),
        s.subrange(word_end(s) + 1, page_end(s)) == nat_text(ui_page as nat),
{
    reveal_strlit("standings_");
    reveal_strlit("prev");
    reveal_strlit("next");
    reveal_strlit("refresh");
    reveal_strlit("_");
    let a = token_mark();
    let b = action_word(action);
    let c = nat_text(ui_page as nat);
    lemma_nat_text_reads_back(ui_page as nat);
    let word_from = a.len() as int;
    let word_to = word_from + b.len();
    let page_from = word_to + 1;
    let page_to = page_from + c.len();
    assert(s.subrange(0, word_from) =~= a);
    assert(first_index_of(s.skip(word_from), '_') == b.len()) by {
        let tail = s.skip(word_from);
        assert forall|i: int| 0 <= i < b.len() implies tail[i] != '_' by {
            assert(tail[i] == b[i]);
        }
        assert(tail[b.len() as int] == '_');
        lemma_first_index_is(tail, '_', b.len() as int);
    }
    assert(s.subrange(word_from, word_to) =~= b);
    assert(first_index_of(s.skip(page_from), '_') == c.len()) by {
        let tail = s.skip(page_from);
        assert forall|i: int| 0 <= i < c.len() implies tail[i] != '_' by {
            assert(tail[i] == c[i]);
            assert(is_digit(c[i]));
        }
        if c.len() < tail.len() {
            assert(tail[c.len() as int] == '_');
        }
        lemma_first_index_is(tail, '_', c.len() as int);
    }
    assert(s.subrange(page_from, page_to) =~= c);
}

/// The words of the three actions differ, so a word stands for one action.
proof fn lemma_word_of_action(action: NavAction)
    ensures
        word_action(action_word(action)) == Some(action),
{
    reveal_strlit("prev");
    reveal_strlit("next");
    reveal_strlit("refresh");
    assert("prev"@ !== "next"@) by {
        assert("prev"@[0] != "next"@[0]);
    }
    assert("prev"@.len() != "refresh"@.len());
    assert("next"@.len() != "refresh"@.len());
}

/// A token that was written reads back as the action and the page it was
/// written for.
pub proof fn lemma_token_reads_back(action: NavAction, ui_page: int)
    requires
        0 <= ui_page <= u32::MAX,
    ensures
        parse_token(token_text(action, ui_page)) == Some((action, ui_page as u32)),
{
    lemma_token_fields(action, ui_page, token_text(action, ui_page), Seq::empty());
    lemma_word_of_action(action);
    lemma_nat_text_reads_back(ui_page as nat);
}

/// A token that goes on behind its page with an underscore and anything
/// at all reads as the token without it: as the action and the page.
pub proof fn lemma_longer_token_reads_back(action: NavAction, ui_page: int, more: Seq<char>)
    requires
        0 <= ui_page <= u32::MAX,
    ensures
        parse_token(token_text(action, ui_page) + "_"@ + more) == Some((action, ui_page as u32)),
{
    lemma_token_fields(action, ui_page, token_text(action, ui_page) + "_"@ + more, more);
    lemma_word_of_action(action);
    lemma_nat_text_reads_back(ui_page as nat);
}

} // verus!
