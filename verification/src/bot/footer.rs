//! The footer of a standings view: the one place where the state of a view
//! is kept between two interactions.
//!
//! A footer reads `League ID: 55555`, a bullet, `Page 5 of ?`: the league,
//! the page shown, counted from one, and the number of pages, or a question
//! mark while the remote source has more to give. Whatever instance of the
//! bot gets the next interaction reads league and page back from this text,
//! so the form is fixed: what is written here must be read back here.

use crate::decimal::{
    int_chars, int_text, is_digit, lemma_int_text_chars, lemma_int_text_reads_back,
    lemma_nat_text_reads_back, nat_chars, nat_text, parse_int_within, parse_nat, parse_nat_within,
    read_i32, read_nat,
};
use crate::text::{
    chars_of, find_from, first_index_of, has_at, lemma_first_index_is, matches_at, push_all,
    push_str,
};
use vstd::prelude::*;

verus! {

/// How many pages a view has, where that can be known.
#[derive(Clone, Copy, Debug, PartialEq, Eq, Structural)]
pub enum PageTotal {
    /// This many pages.
    Known(u128),
    /// The remote source has more pages, so the number cannot be known.
    Unknown,
}

/// What a footer holds of a view's state.
#[derive(Clone, Copy, Debug, PartialEq, Eq, Structural)]
pub struct FooterState {
    /// The league shown.
    pub league_id: i32,
    /// The page shown, counted from zero.
    pub ui_page: u32,
}

/// What stands before the league.
pub open spec fn league_mark() -> Seq<char> {
    "League ID: "@
}

/// What stands between the league and the page.
pub open spec fn page_mark() -> Seq<char> {
    " \u{2022} Page "@
}

/// What stands between the page and the number of pages.
pub open spec fn total_mark() -> Seq<char> {
    " of "@
}

/// The number of pages as the footer shows it.
pub open spec fn total_text(total: PageTotal) -> Seq<char> {
    match total {
        PageTotal::Known(pages) => nat_text(pages as nat),
        PageTotal::Unknown => "?"@,
    }
}

/// The footer of the view of league `league_id` at page `ui_page`, counted
/// from zero and shown counted from one.
pub open spec fn footer_text(league_id: int, ui_page: int, total: PageTotal) -> Seq<char> {
    league_mark() + int_text(league_id) + page_mark() + nat_text((ui_page + 1) as nat)
        + total_mark() + total_text(total)
}

/// Whether `s` can stand for a number of pages: a question mark, or digits.
pub open spec fn is_total_text(s: Seq<char>) -> bool {
    s == "?"@ || parse_nat(s) is Some
}

/// The greatest page number that a footer may show: that of the last page
/// that 32 bits can count.
pub open spec fn max_page_number() -> int {
    0x1_0000_0000
}

/// What a footer reads as. Its league runs from the league mark to the next
/// space and is an integer of 32 bits, with or without sign; its page runs
/// from the page mark to the next space and is a number from one to
/// `max_page_number()`; the total mark follows, and a question mark or a
/// number ends the footer. Text of any other form reads as nothing.
pub open spec fn parse_footer(s: Seq<char>) -> Option<FooterState> {
    let id_from = league_mark().len() as int;
    let id_to = id_from + first_index_of(s.skip(id_from), ' ');
    let page_from = id_to + page_mark().len();
    let page_to = page_from + first_index_of(s.skip(page_from), ' ');
    let total_from = page_to + total_mark().len();
    if has_at(s, 0, league_mark()) && has_at(s, id_to, page_mark()) && has_at(
        s,
        page_to,
        total_mark(),
    ) && is_total_text(s.skip(total_from)) {
        match (
            parse_int_within(s.subrange(id_from, id_to), i32::MIN as int, i32::MAX as int),
            parse_nat_within(s.subrange(page_from, page_to), max_page_number()),
        ) {
            (Some(id), Some(number)) => if number >= 1 {
                Some(FooterState { league_id: id as i32, ui_page: (number - 1) as u32 })
            } else {
                None
            },
            _ => None,
        }
    } else {
        None
    }
}

/// The footer of the view of league `league_id` at page `ui_page`.
pub fn footer_chars(league_id: i32, ui_page: u32, total: PageTotal) -> (out: Vec<char>)
    ensures
        out@ == footer_text(league_id as int, ui_page as int, total),
{
    let mut out: Vec<char> = Vec::new();
    push_str(&mut out, "League ID: ");
    assert(out@ =~= league_mark());
    push_all(&mut out, &int_chars(league_id as i128));
    push_str(&mut out, " \u{2022} Page ");
    push_all(&mut out, &nat_chars(ui_page as u128 + 1));
    push_str(&mut out, " of ");
    match total {
        PageTotal::Known(pages) => {
            push_all(&mut out, &nat_chars(pages));
        },
        PageTotal::Unknown => {
            push_str(&mut out, "?");
        },
    }
    out
}

/// Tests whether `text[from..]` can stand for a number of pages.
fn reads_as_total(text: &Vec<char>, from: usize) -> (ok: bool)
    requires
        from <= text.len(),
    ensures
        ok == is_total_text(text@.skip(from as int)),
{
    let ghost tail = text@.skip(from as int);
    proof {
        reveal_strlit("?");
    }
    if text.len() - from == 1 && text[from] == '?' {
        assert(tail =~= "?"@);
        return true;
    }
    if from == text.len() {
        return false;
    }
    let mut i: usize = from;
    while i < text.len()
        invariant
            from <= i <= text.len(),
            tail == text@.skip(from as int),
            forall|k: int| 0 <= k < i - from ==> is_digit(#[trigger] tail[k]),
            text.len() - from == 1 ==> text@[from as int] != '?',
        decreases text.len() - i,
    {
        let c = text[i];
        if c < '0' || c > '9' {
            assert(!is_digit(tail[i - from]));
            assert(tail !== "?"@) by {
                reveal_strlit("?");
                if tail.len() == 1 {
                    assert(tail[0] == text@[from as int]);
                }
            }
            return false;
        }
        i += 1;
    }
    true
}

/// Reads a footer.
pub fn read_footer(footer: &str) -> (state: Option<FooterState>)
    ensures
        state == parse_footer(footer@),
{
    let text = chars_of(footer);
    let league = chars_of("League ID: ");
    let page = chars_of(" \u{2022} Page ");
    let total = chars_of(" of ");
    if !matches_at(&text, 0, &league) {
        return None;
    }
    let id_from = league.len();
    let id_to = find_from(&text, id_from, ' ');
    if !matches_at(&text, id_to, &page) {
        return None;
    }
    let page_from = id_to + page.len();
    let page_to = find_from(&text, page_from, ' ');
    if !matches_at(&text, page_to, &total) {
        return None;
    }
    let total_from = page_to + total.len();
    if !reads_as_total(&text, total_from) {
        return None;
    }
    match (read_i32(&text, id_from, id_to), read_nat(&text, page_from, page_to, 0x1_0000_0000)) {
        (Some(id), Some(number)) => {
            if number >= 1 {
                Some(FooterState { league_id: id, ui_page: (number - 1) as u32 })
            } else {
                None
            }
        },
        _ => None,
    }
}

/// A footer that was written reads back as the league and the page it was
/// written for, whatever number of pages it shows.
pub proof fn lemma_footer_reads_back(league_id: int, ui_page: int, total: PageTotal)
    requires
        i32::MIN <= league_id <= i32::MAX,
        0 <= ui_page <= u32::MAX,
    ensures
        parse_footer(footer_text(league_id, ui_page, total)) == Some(
            FooterState { league_id: league_id as i32, ui_page: ui_page as u32 },
        ),
{
    reveal_strlit("League ID: ");
    reveal_strlit(" \u{2022} Page ");
    reveal_strlit(" of ");
    reveal_strlit("?");
    let a = league_mark();
    let b = int_text(league_id);
    let c = page_mark();
    let d = nat_text((ui_page + 1) as nat);
    let e = total_mark();
    let f = total_text(total);
    let s = footer_text(league_id, ui_page, total);
    lemma_int_text_chars(league_id);
    lemma_int_text_reads_back(league_id);
    lemma_nat_text_reads_back((ui_page + 1) as nat);
    match total {
        PageTotal::Known(pages) => {
            lemma_nat_text_reads_back(pages as nat);
        },
        PageTotal::Unknown => {},
    }
    let id_from = a.len() as int;
    let id_to = id_from + b.len();
    let page_from = id_to + c.len();
    let page_to = page_from + d.len();
    let total_from = page_to + e.len();
    assert(s.len() == total_from + f.len());
    assert(s.subrange(0, id_from) =~= a);
    assert(s.subrange(id_from, id_to) =~= b);
    assert(s.subrange(id_to, page_from) =~= c);
    assert(s.subrange(page_from, page_to) =~= d);
    assert(s.subrange(page_to, total_from) =~= e);
    assert(s.skip(total_from) =~= f);
    assert(first_index_of(s.skip(id_from), ' ') == b.len()) by {
        let tail = s.skip(id_from);
        assert forall|i: int| 0 <= i < b.len() implies tail[i] != ' ' by {
            assert(tail[i] == b[i]);
        }
        assert(tail[b.len() as int] == c[0]);
        lemma_first_index_is(tail, ' ', b.len() as int);
    }
    assert(first_index_of(s.skip(page_from), ' ') == d.len()) by {
        let tail = s.skip(page_from);
        assert forall|i: int| 0 <= i < d.len() implies tail[i] != ' ' by {
            assert(tail[i] == d[i]);
            assert(is_digit(d[i]));
        }
        assert(tail[d.len() as int] == e[0]);
        lemma_first_index_is(tail, ' ', d.len() as int);
    }
}

} // verus!
