//! The standings table: column widths, names cut to fit, rows, title and
//! footer.
//!
//! The table is a block of fixed-width text of about forty characters a
//! line. The number columns are as wide as their widest entry over all the
//! rows handed in, shown or not, so that the columns stay put while the
//! reader pages; the name column takes what is left, and names that do not
//! fit are shortened. All widths count code points.

use crate::bot::footer::{footer_chars, footer_text, PageTotal};
use crate::bot::token::{action_token, token_text, NavAction};
use crate::decimal::{
    int_chars, int_text, int_width, lemma_nat_text_len_below, pow10, signed_chars, signed_text,
};
use crate::fpl::models::league::{LeagueInfo, LeagueStandings, StandingsManager};
use crate::paging::{
    nav_of, nav_state, pages_for, remote_page_for, remote_page_of, row_window, rows_known,
    total_rows_known, total_ui_pages, window_of, NavState, PageSizes,
};
use crate::text::{
    chars_of, find_from, first_index_of, lemma_append_more, lemma_first_index_of, pad_right,
    push_all, push_padded_right, push_range, push_str, string_of,
};
use crate::utils::error::FplBotError;
use crate::utils::type_conversion::{first_number, first_option_number, ResolvedOption};
use vstd::prelude::*;

verus! {

/// Characters that a line of the table aims at.
pub const TABLE_WIDTH: usize = 40;

/// Characters of a line that belong to no column: the marks between them.
pub const SEPARATORS_WIDTH: usize = 7;

/// The least width of the name column.
pub const MIN_NAME_WIDTH: usize = 5;

/// How many characters `num` takes when written out: its digits, and a
/// minus sign where it is negative.
pub fn number_len(num: i32) -> (len: usize)
    ensures
        len == int_text(num as int).len(),
        1 <= len <= 11,
{
    proof {
        lemma_i64_text_len(num as int);
        assert(pow10(10) == 10000000000) by {
            reveal_with_fuel(pow10, 11);
        }
        if num < 0 {
            lemma_nat_text_len_below((-num) as nat, 10);
        } else {
            lemma_nat_text_len_below(num as nat, 10);
        }
    }
    int_width(num as i128)
}

/// The text of a number of 64 bits has at most twenty characters.
pub proof fn lemma_i64_text_len(v: int)
    requires
        i64::MIN <= v <= i64::MAX,
    ensures
        1 <= int_text(v).len() <= 20,
{
    assert(pow10(19) == 10000000000000000000) by {
        reveal_with_fuel(pow10, 20);
    }
    if v < 0 {
        lemma_nat_text_len_below((-v) as nat, 19);
        crate::decimal::lemma_nat_text_len((-v) as nat);
    } else {
        lemma_nat_text_len_below(v as nat, 19);
        crate::decimal::lemma_nat_text_len(v as nat);
    }
}

/// A name cut to `width` characters, in three steps: the name itself where
/// it fits; else its first word, a space, the first letter of what follows
/// the first space, and a full stop, where that fits; else the first
/// `width - 1` characters of the first word, or all of it where it has
/// fewer, and a full stop. A name without a space is its own first word,
/// and where nothing follows the first space a space stands for the
/// letter. At a width of zero the last step leaves the full stop alone,
/// which is one character too many.
pub open spec fn truncated_name(name: Seq<char>, width: nat) -> Seq<char> {
    if name.len() <= width {
        name
    } else {
        let cut = first_index_of(name, ' ');
        let first = name.take(cut);
        let initial = if cut + 1 < name.len() {
            name[cut + 1]
        } else {
            ' '
        };
        let short = first + seq![' ', initial, '.'];
        let kept = if width == 0 {
            0
        } else if first.len() <= width - 1 {
            first.len() as int
        } else {
            width - 1
        };
        if short.len() <= width {
            short
        } else {
            first.take(kept) + seq!['.']
        }
    }
}

/// A name cut to a width of at least one character is no wider than that.
pub proof fn lemma_truncated_name_fits(name: Seq<char>, width: nat)
    requires
        width >= 1,
    ensures
        truncated_name(name, width).len() <= width,
{
    lemma_first_index_of(name, ' ');
}

/// A name that fits is shown as it is.
pub proof fn lemma_truncated_name_keeps_short(name: Seq<char>, width: nat)
    requires
        name.len() <= width,
    ensures
        truncated_name(name, width) == name,
{
}

/// Cuts `name` to `width` characters.
pub fn truncate_name(name: &Vec<char>, width: usize) -> (out: Vec<char>)
    ensures
        out@ == truncated_name(name@, width as nat),
        width >= 1 ==> out@.len() <= width,
{
    proof {
        lemma_first_index_of(name@, ' ');
        assert(name@.skip(0) =~= name@);
    }
    let mut out: Vec<char> = Vec::new();
    if name.len() <= width {
        push_all(&mut out, name);
        return out;
    }
    let cut = find_from(name, 0, ' ');
    let initial = if cut < name.len() - 1 {
        name[cut + 1]
    } else {
        ' '
    };
    assert(name@.subrange(0, cut as int) =~= name@.take(cut as int));
    if cut <= width && width - cut >= 3 {
        push_range(&mut out, name, 0, cut);
        out.push(' ');
        out.push(initial);
        out.push('.');
        assert(out@ =~= name@.take(cut as int) + seq![' ', initial, '.']);
    } else {
        let keep = if width == 0 {
            0
        } else if cut <= width - 1 {
            cut
        } else {
            width - 1
        };
        push_range(&mut out, name, 0, keep);
        out.push('.');
        proof {
            let first = name@.take(cut as int);
            assert(name@.subrange(0, keep as int) =~= first.take(keep as int));
        }
    }
    out
}

/// The manager's display name cut to `name_width` characters.
pub fn format_name(manager: &StandingsManager, name_width: usize) -> (name: String)
    ensures
        name@ == truncated_name(manager.manager_name@, name_width as nat),
        name_width >= 1 ==> name@.len() <= name_width,
{
    let full = chars_of(manager.manager_name.as_str());
    let cut = truncate_name(&full, name_width);
    string_of(&cut)
}

/// The number columns of the table.
#[derive(Clone, Copy, Debug, PartialEq, Eq, Structural)]
pub enum Column {
    /// The manager's rank now.
    Rank,
    /// How many places the manager has gained since the last ranking;
    /// negative where places were lost.
    Change,
    /// The manager's points over the season.
    Points,
    /// The manager's points in the running gameweek.
    Gameweek,
}

/// The number that a row shows in a column. The rank change is the previous
/// rank less the rank now, so a rise from fifth to second place is 3.
pub open spec fn cell_value(row: StandingsManager, column: Column) -> int {
    match column {
        Column::Rank => row.current_rank as int,
        Column::Change => -(row.current_rank - row.previous_rank),
        Column::Points => row.total_points as int,
        Column::Gameweek => row.gameweek_points as int,
    }
}

/// What a row shows in a column: rank and points as they are, the rank
/// change in brackets with its sign always written, the gameweek's points in
/// brackets.
pub open spec fn cell_text(row: StandingsManager, column: Column) -> Seq<char> {
    match column {
        Column::Rank => int_text(cell_value(row, column)),
        Column::Change => seq!['('] + signed_text(cell_value(row, column)) + seq![')'],
        Column::Points => int_text(cell_value(row, column)),
        Column::Gameweek => seq!['('] + int_text(cell_value(row, column)) + seq![')'],
    }
}

/// The greatest written length of a column's numbers over `rows`; zero for
/// no rows.
pub open spec fn widest(rows: Seq<StandingsManager>, column: Column) -> nat
    decreases rows.len(),
{
    if rows.len() == 0 {
        0
    } else {
        let before = widest(rows.drop_last(), column);
        let here = int_text(cell_value(rows.last(), column)).len();
        if here > before {
            here
        } else {
            before
        }
    }
}

/// The widest number of a column, or `otherwise` where there are no rows.
pub open spec fn widest_or(rows: Seq<StandingsManager>, column: Column, otherwise: nat) -> nat {
    if rows.len() == 0 {
        otherwise
    } else {
        widest(rows, column)
    }
}

/// The widths of the table's columns, in characters.
#[derive(Clone, Copy, Debug, PartialEq, Eq, Structural)]
pub struct ColumnWidths {
    /// The rank, without the `#` in front of it.
    pub rank: usize,
    /// The rank change with its brackets.
    pub change: usize,
    /// The season's points.
    pub points: usize,
    /// The gameweek's points with their brackets.
    pub gameweek: usize,
    /// The manager's name.
    pub name: usize,
}

/// Width of the rank column: that of the widest rank, and at least two.
pub open spec fn rank_width_of(rows: Seq<StandingsManager>) -> nat {
    let widest = widest_or(rows, Column::Rank, 2);
    if widest < 2 {
        2
    } else {
        widest
    }
}

/// Width of the rank change column: that of the widest change, and three
/// more for the brackets and the sign.
pub open spec fn change_width_of(rows: Seq<StandingsManager>) -> nat {
    widest_or(rows, Column::Change, 4) + 3
}

/// Width of the points column: that of the widest total.
pub open spec fn points_width_of(rows: Seq<StandingsManager>) -> nat {
    widest_or(rows, Column::Points, 4)
}

/// Width of the gameweek column: that of the widest number of points, and
/// two more for the brackets.
pub open spec fn gameweek_width_of(rows: Seq<StandingsManager>) -> nat {
    widest_or(rows, Column::Gameweek, 4) + 2
}

/// Width of the name column: what the number columns and the separators
/// leave of `TABLE_WIDTH`, and at least `MIN_NAME_WIDTH`.
pub open spec fn name_width_of(rows: Seq<StandingsManager>) -> nat {
    let taken = rank_width_of(rows) + change_width_of(rows) + points_width_of(rows)
        + gameweek_width_of(rows) + SEPARATORS_WIDTH;
    if TABLE_WIDTH - taken >= MIN_NAME_WIDTH {
        (TABLE_WIDTH - taken) as nat
    } else {
        MIN_NAME_WIDTH as nat
    }
}

/// The column widths that `rows` call for.
pub open spec fn widths_of(rows: Seq<StandingsManager>) -> ColumnWidths {
    ColumnWidths {
        rank: rank_width_of(rows) as usize,
        change: change_width_of(rows) as usize,
        points: points_width_of(rows) as usize,
        gameweek: gameweek_width_of(rows) as usize,
        name: name_width_of(rows) as usize,
    }
}

/// Whether `widths` are the column widths that `rows` call for.
pub open spec fn widths_fit(widths: ColumnWidths, rows: Seq<StandingsManager>) -> bool {
    &&& widths.rank == rank_width_of(rows)
    &&& widths.change == change_width_of(rows)
    &&& widths.points == points_width_of(rows)
    &&& widths.gameweek == gameweek_width_of(rows)
    &&& widths.name == name_width_of(rows)
}

/// No number of a column is written wider than the column's widest, and
/// that is no more than twenty characters.
pub proof fn lemma_widest_bounds(rows: Seq<StandingsManager>, column: Column)
    ensures
        widest(rows, column) <= 20,
        rows.len() > 0 ==> widest(rows, column) >= 1,
        forall|i: int|
            0 <= i < rows.len() ==> int_text(cell_value(#[trigger] rows[i], column)).len()
                <= widest(rows, column),
    decreases rows.len(),
{
    if rows.len() > 0 {
        let front = rows.drop_last();
        lemma_widest_bounds(front, column);
        lemma_i64_text_len(cell_value(rows.last(), column));
        assert forall|i: int| 0 <= i < rows.len() implies int_text(
            cell_value(#[trigger] rows[i], column),
        ).len() <= widest(rows, column) by {
            if i < front.len() {
                assert(front[i] == rows[i]);
            }
        }
    }
}

/// Every cell of a row fits its column, whatever the row, once the widths
/// are those of rows that hold it.
pub proof fn lemma_cells_fit(rows: Seq<StandingsManager>, widths: ColumnWidths, i: int)
    requires
        widths_fit(widths, rows),
        0 <= i < rows.len(),
    ensures
        cell_text(rows[i], Column::Rank).len() <= widths.rank,
        cell_text(rows[i], Column::Change).len() <= widths.change,
        cell_text(rows[i], Column::Points).len() <= widths.points,
        cell_text(rows[i], Column::Gameweek).len() <= widths.gameweek,
        truncated_name(rows[i].manager_name@, widths.name as nat).len() <= widths.name,
{
    lemma_widest_bounds(rows, Column::Rank);
    lemma_widest_bounds(rows, Column::Change);
    lemma_widest_bounds(rows, Column::Points);
    lemma_widest_bounds(rows, Column::Gameweek);
    lemma_truncated_name_fits(rows[i].manager_name@, widths.name as nat);
    let change = cell_value(rows[i], Column::Change);
    assert(signed_text(change).len() <= int_text(change).len() + 1);
}

/// The larger of two widths.
fn wider(a: usize, b: usize) -> (w: usize)
    ensures
        w == if b > a {
            b
        } else {
            a
        },
{
    if b > a {
        b
    } else {
        a
    }
}

/// The rank change of a row: the previous rank less the rank now.
pub fn rank_change(row: &StandingsManager) -> (change: i64)
    ensures
        change == cell_value(*row, Column::Change),
{
    (row.previous_rank as i64) - (row.current_rank as i64)
}

/// The column widths that `rows` call for.
pub fn column_widths(rows: &Vec<StandingsManager>) -> (widths: ColumnWidths)
    ensures
        widths == widths_of(rows@),
        widths_fit(widths, rows@),
        widths.name >= MIN_NAME_WIDTH,
        widths.rank + widths.change + widths.points + widths.gameweek <= 85,
{
    let mut rank: usize = 0;
    let mut change: usize = 0;
    let mut points: usize = 0;
    let mut gameweek: usize = 0;
    let mut i: usize = 0;
    while i < rows.len()
        invariant
            i <= rows.len(),
            rank == widest(rows@.take(i as int), Column::Rank),
            change == widest(rows@.take(i as int), Column::Change),
            points == widest(rows@.take(i as int), Column::Points),
            gameweek == widest(rows@.take(i as int), Column::Gameweek),
        decreases rows.len() - i,
    {
        let row = &rows[i];
        proof {
            let seen = rows@.take(i + 1);
            assert(seen.drop_last() =~= rows@.take(i as int));
            assert(seen.last() == rows@[i as int]);
        }
        rank = wider(rank, int_width(row.current_rank as i128));
        change = wider(change, int_width(rank_change(row) as i128));
        points = wider(points, int_width(row.total_points as i128));
        gameweek = wider(gameweek, int_width(row.gameweek_points as i128));
        i += 1;
    }
    proof {
        assert(rows@.take(rows.len() as int) =~= rows@);
        lemma_widest_bounds(rows@, Column::Rank);
        lemma_widest_bounds(rows@, Column::Change);
        lemma_widest_bounds(rows@, Column::Points);
        lemma_widest_bounds(rows@, Column::Gameweek);
    }
    if rows.len() == 0 {
        rank = 2;
        change = 4;
        points = 4;
        gameweek = 4;
    }
    let rank = wider(rank, 2);
    let change = change + 3;
    let gameweek = gameweek + 2;
    let taken = rank + change + points + gameweek + SEPARATORS_WIDTH;
    let name = if taken <= TABLE_WIDTH {
        wider(TABLE_WIDTH - taken, MIN_NAME_WIDTH)
    } else {
        MIN_NAME_WIDTH
    };
    ColumnWidths { rank, change, points, gameweek, name }
}

/// One line of the table: `#`, the rank, the rank change, `| `, the name,
/// ` | `, the season's points, a space, the gameweek's points, `pts` and a
/// line feed, each column filled with spaces on the right to its width.
pub open spec fn row_text(row: StandingsManager, widths: ColumnWidths) -> Seq<char> {
    "#"@ + pad_right(cell_text(row, Column::Rank), widths.rank as nat) + pad_right(
        cell_text(row, Column::Change),
        widths.change as nat,
    ) + "| "@ + pad_right(
        truncated_name(row.manager_name@, widths.name as nat),
        widths.name as nat,
    ) + " | "@ + pad_right(cell_text(row, Column::Points), widths.points as nat) + " "@
        + pad_right(cell_text(row, Column::Gameweek), widths.gameweek as nat) + "pts\n"@
}

/// The lines of `rows`, one after the other, in the order of the rows.
pub open spec fn rows_text(rows: Seq<StandingsManager>, widths: ColumnWidths) -> Seq<char>
    decreases rows.len(),
{
    if rows.len() == 0 {
        Seq::empty()
    } else {
        rows_text(rows.drop_last(), widths) + row_text(rows.last(), widths)
    }
}

/// The mark that opens and closes a block of fixed-width text.
pub open spec fn fence() -> Seq<char> {
    seq!['`', '`', '`']
}

/// The table for `length` rows from index `start` on, between two fences.
pub open spec fn body_text(
    rows: Seq<StandingsManager>,
    start: int,
    length: int,
    widths: ColumnWidths,
) -> Seq<char> {
    fence() + rows_text(rows.subrange(start, start + length), widths) + fence()
}

/// A line of the table whose cells fit their columns is as long as its
/// columns, the separators between them, `pts` and the line feed: its
/// columns and separators fill `TABLE_WIDTH` characters where the name
/// column did not have to be widened.
pub proof fn lemma_row_text_len(row: StandingsManager, widths: ColumnWidths)
    requires
        cell_text(row, Column::Rank).len() <= widths.rank,
        cell_text(row, Column::Change).len() <= widths.change,
        cell_text(row, Column::Points).len() <= widths.points,
        cell_text(row, Column::Gameweek).len() <= widths.gameweek,
        truncated_name(row.manager_name@, widths.name as nat).len() <= widths.name,
    ensures
        row_text(row, widths).len() == widths.rank + widths.change + widths.name + widths.points
            + widths.gameweek + SEPARATORS_WIDTH + 4,
{
    reveal_strlit("#");
    reveal_strlit("| ");
    reveal_strlit(" | ");
    reveal_strlit(" ");
    reveal_strlit("pts\n");
}

/// The text of a number between brackets.
fn bracketed(digits: &Vec<char>) -> (out: Vec<char>)
    ensures
        out@ == seq!['('] + digits@ + seq![')'],
{
    let mut out: Vec<char> = Vec::new();
    out.push('(');
    push_all(&mut out, digits);
    out.push(')');
    assert(out@ =~= seq!['('] + digits@ + seq![')']);
    out
}

/// The widths that `rows` call for are machine numbers as they stand, and
/// the name column among them is at least `MIN_NAME_WIDTH` wide.
pub proof fn lemma_widths_of_fit(rows: Seq<StandingsManager>)
    ensures
        widths_fit(widths_of(rows), rows),
        widths_of(rows).name >= MIN_NAME_WIDTH,
{
    lemma_widest_bounds(rows, Column::Rank);
    lemma_widest_bounds(rows, Column::Change);
    lemma_widest_bounds(rows, Column::Points);
    lemma_widest_bounds(rows, Column::Gameweek);
}

/// All lines of a table are equally long, whatever window of the rows is
/// shown: each row's line is as long as the columns that all the rows call
/// for, the separators, `pts` and the line feed.
pub proof fn lemma_rows_align(rows: Seq<StandingsManager>, i: int)
    requires
        0 <= i < rows.len(),
    ensures
        row_text(rows[i], widths_of(rows)).len() == rank_width_of(rows) + change_width_of(rows)
            + name_width_of(rows) + points_width_of(rows) + gameweek_width_of(rows)
            + SEPARATORS_WIDTH + 4,
{
    let widths = widths_of(rows);
    lemma_widths_of_fit(rows);
    lemma_cells_fit(rows, widths, i);
    lemma_row_text_len(rows[i], widths);
}

/// Appends the line of `row` to `out`.
pub fn push_row(out: &mut Vec<char>, row: &StandingsManager, widths: &ColumnWidths)
    ensures
        final(out)@ == old(out)@ + row_text(*row, *widths),
{
    let rank = int_chars(row.current_rank as i128);
    let change = bracketed(&signed_chars(rank_change(row) as i128));
    let name = truncate_name(&chars_of(row.manager_name.as_str()), widths.name);
    let points = int_chars(row.total_points as i128);
    let gameweek = bracketed(&int_chars(row.gameweek_points as i128));
    let ghost before = out@;
    push_str(out, "#");
    let ghost mut line = "#"@;
    push_padded_right(out, &rank, widths.rank);
    proof {
        let piece = pad_right(rank@, widths.rank as nat);
        lemma_append_more(before, line, piece);
        line = line + piece;
    }
    push_padded_right(out, &change, widths.change);
    proof {
        let piece = pad_right(change@, widths.change as nat);
        lemma_append_more(before, line, piece);
        line = line + piece;
    }
    push_str(out, "| ");
    proof {
        lemma_append_more(before, line, "| "@);
        line = line + "| "@;
    }
    push_padded_right(out, &name, widths.name);
    proof {
        let piece = pad_right(name@, widths.name as nat);
        lemma_append_more(before, line, piece);
        line = line + piece;
    }
    push_str(out, " | ");
    proof {
        lemma_append_more(before, line, " | "@);
        line = line + " | "@;
    }
    push_padded_right(out, &points, widths.points);
    proof {
        let piece = pad_right(points@, widths.points as nat);
        lemma_append_more(before, line, piece);
        line = line + piece;
    }
    push_str(out, " ");
    proof {
        lemma_append_more(before, line, " "@);
        line = line + " "@;
    }
    push_padded_right(out, &gameweek, widths.gameweek);
    proof {
        let piece = pad_right(gameweek@, widths.gameweek as nat);
        lemma_append_more(before, line, piece);
        line = line + piece;
    }
    push_str(out, "pts\n");
    proof {
        lemma_append_more(before, line, "pts\n"@);
        line = line + "pts\n"@;
        assert(line == row_text(*row, *widths));
    }
}

/// The table for the rows `rows[start..start + length]`, with the given
/// column widths.
pub fn table_body(
    rows: &Vec<StandingsManager>,
    start: usize,
    length: usize,
    widths: &ColumnWidths,
) -> (body: Vec<char>)
    requires
        start + length <= rows.len(),
    ensures
        body@ == body_text(rows@, start as int, length as int, *widths),
{
    let ghost shown = rows@.subrange(start as int, start + length);
    let mut body: Vec<char> = Vec::new();
    body.push('`');
    body.push('`');
    body.push('`');
    assert(body@ =~= fence());
    let mut i: usize = 0;
    while i < length
        invariant
            i <= length,
            start + length <= rows.len(),
            shown == rows@.subrange(start as int, start + length),
            body@ == fence() + rows_text(shown.take(i as int), *widths),
        decreases length - i,
    {
        proof {
            let next = shown.take(i + 1);
            assert(next.drop_last() =~= shown.take(i as int));
            assert(next.last() == rows@[start + i]);
        }
        push_row(&mut body, &rows[start + i], widths);
        proof {
            lemma_append_more(
                fence(),
                rows_text(shown.take(i as int), *widths),
                row_text(rows@[start + i], *widths),
            );
        }
        i += 1;
    }
    assert(shown.take(length as int) =~= shown);
    body.push('`');
    body.push('`');
    body.push('`');
    assert(body@ =~= fence() + rows_text(shown, *widths) + fence());
    body
}

/// A standings view as text: a title, the table, and the footer that
/// carries the view's state.
#[derive(Debug, Clone)]
pub struct RenderedView {
    /// The league's name behind a trophy.
    pub title: String,
    /// The table, as a block of fixed-width text.
    pub body: String,
    /// League, page and number of pages.
    pub footer: String,
}

/// What stands before the league's name in a title.
pub open spec fn title_mark() -> Seq<char> {
    "\u{1F3C6}  "@
}

/// The title of the view of a league called `league_name`.
pub open spec fn title_text(league_name: Seq<char>) -> Seq<char> {
    title_mark() + league_name
}

/// Whether `view` is the view of page `ui_page` over the rows of one remote
/// page: its title names the league, its table shows the rows of the page's
/// window in columns as wide as all the rows call for, and its footer holds
/// the league, the page and the number of pages.
pub open spec fn is_view_of(
    view: RenderedView,
    rows: Seq<StandingsManager>,
    league: LeagueInfo,
    ui_page: int,
    total: PageTotal,
    sizes: PageSizes,
) -> bool {
    let window = window_of(ui_page, sizes.ui_rows(), sizes.remote_rows(), rows.len() as int);
    &&& view.title@ == title_text(league.league_name@)
    &&& view.body@ == body_text(rows, window.0, window.1, widths_of(rows))
    &&& view.footer@ == footer_text(league.id as int, ui_page, total)
}

/// The view of page `ui_page` over `rows`, the rows of the remote page that
/// was loaded for it.
pub fn render(
    rows: &Vec<StandingsManager>,
    league: &LeagueInfo,
    ui_page: u32,
    total_ui_pages: PageTotal,
    sizes: &PageSizes,
) -> (view: RenderedView)
    ensures
        is_view_of(view, rows@, *league, ui_page as int, total_ui_pages, *sizes),
{
    let widths = column_widths(rows);
    let (start, length) = row_window(ui_page, sizes.ui(), sizes.remote(), rows.len());
    let body = table_body(rows, start, length, &widths);
    let mut title: Vec<char> = Vec::new();
    push_str(&mut title, "\u{1F3C6}  ");
    push_str(&mut title, league.league_name.as_str());
    assert(title@ =~= title_text(league.league_name@));
    let footer = footer_chars(league.id, ui_page, total_ui_pages);
    RenderedView { title: string_of(&title), body: string_of(&body), footer: string_of(&footer) }
}

/// Two views of the same page over the same rows are the same text, so the
/// same bytes: nothing but what is handed in goes into a view.
pub proof fn lemma_render_is_a_function(
    first: RenderedView,
    second: RenderedView,
    rows: Seq<StandingsManager>,
    league: LeagueInfo,
    ui_page: int,
    total: PageTotal,
    sizes: PageSizes,
)
    requires
        is_view_of(first, rows, league, ui_page, total, sizes),
        is_view_of(second, rows, league, ui_page, total, sizes),
    ensures
        first.title@ == second.title@,
        first.body@ == second.body@,
        first.footer@ == second.footer@,
{
}

/// The rows known to exist once the remote page for page `requested` of
/// the view has arrived with `rows_in_page` rows.
pub open spec fn known_rows_of(requested: int, rows_in_page: int, sizes: PageSizes) -> int {
    rows_known(
        remote_page_of(requested, sizes.ui_rows(), sizes.remote_rows()),
        sizes.remote_rows(),
        rows_in_page,
    )
}

/// The number of pages to show: unknown while the remote source has more
/// to give, else the pages that the known rows fill.
pub open spec fn page_total_of(has_next: bool, total_rows: int, sizes: PageSizes) -> PageTotal {
    if has_next {
        PageTotal::Unknown
    } else {
        PageTotal::Known(pages_for(total_rows, sizes.ui_rows()) as u128)
    }
}

/// The rows known to exist once the remote page for page `requested` has
/// arrived with `rows_in_page` rows.
pub fn known_rows(requested: u32, rows_in_page: usize, sizes: &PageSizes) -> (total: u128)
    ensures
        total == known_rows_of(requested as int, rows_in_page as int, *sizes),
{
    let remote_page = remote_page_for(requested, sizes.ui(), sizes.remote());
    total_rows_known(remote_page, sizes.remote(), rows_in_page)
}

/// The number of pages to show.
pub fn page_total(has_next: bool, total_rows: u128, sizes: &PageSizes) -> (total: PageTotal)
    ensures
        total == page_total_of(has_next, total_rows as int, *sizes),
{
    if has_next {
        PageTotal::Unknown
    } else {
        PageTotal::Known(total_ui_pages(total_rows, sizes.ui()))
    }
}

/// The colour of a standings view, as red, green and blue.
pub const EMBED_COLOR: u32 = 0x37003c;

/// A standings view as the chat platform shows it.
#[derive(Debug, Clone)]
pub struct StandingsEmbed {
    /// The league's name behind a trophy.
    pub title: String,
    /// The table, as a block of fixed-width text.
    pub description: String,
    /// The colour of the bar beside the view.
    pub color: u32,
    /// League, page and number of pages.
    pub footer: String,
}

/// The view of page `page` of a league, over the page of standings that was
/// loaded for it, with pages of `UI_PAGE_SIZE` rows over remote pages of
/// `REMOTE_PAGE_SIZE`.
pub fn build_standings_embed(standings: &LeagueStandings, page: u32) -> (embed: StandingsEmbed)
    ensures
        embed.color == EMBED_COLOR,
        is_view_of(
            RenderedView { title: embed.title, body: embed.description, footer: embed.footer },
            standings.standings.managers@,
            standings.league_info,
            page as int,
            page_total_of(
                standings.standings.has_next,
                known_rows_of(
                    page as int,
                    standings.standings.managers@.len() as int,
                    PageSizes::standard_sizes(),
                ),
                PageSizes::standard_sizes(),
            ),
            PageSizes::standard_sizes(),
        ),
{
    let sizes = PageSizes::standard();
    let rows = &standings.standings.managers;
    let total = page_total(
        standings.standings.has_next,
        known_rows(page, rows.len(), &sizes),
        &sizes,
    );
    let view = render(rows, &standings.league_info, page, total, &sizes);
    StandingsEmbed {
        title: view.title,
        description: view.body,
        color: EMBED_COLOR,
        footer: view.footer,
    }
}

/// How a button looks.
#[derive(Clone, Copy, Debug, PartialEq, Eq, Structural)]
pub enum ButtonStyle {
    /// The one button that stands out.
    Primary,
    /// Any other button.
    Secondary,
}

/// A button under a view.
#[derive(Debug, Clone)]
pub struct NavButton {
    /// The token handed back when the button is pressed.
    pub custom_id: String,
    /// What the button says.
    pub label: String,
    /// How the button looks.
    pub style: ButtonStyle,
    /// Whether the button cannot be pressed.
    pub disabled: bool,
}

/// The three buttons under a standings view.
#[derive(Debug, Clone)]
pub struct NavigationButtons {
    /// Previous page button
    pub prev: NavButton,
    /// Next page button
    pub next: NavButton,
    /// Refresh current page button
    pub refresh: NavButton,
}

/// What the button of an action says.
pub open spec fn label_text(action: NavAction) -> Seq<char> {
    match action {
        NavAction::Prev => "\u{2B05}\u{FE0F} Previous"@,
        NavAction::Next => "Next \u{27A1}\u{FE0F}"@,
        NavAction::Refresh => "\u{1F504} Refresh"@,
    }
}

/// Whether `button` is the button of `action` on page `ui_page`, open or not
/// as `enabled` says: refreshing stands out, the ways back and forth do not.
pub open spec fn is_button_of(
    button: NavButton,
    action: NavAction,
    ui_page: int,
    enabled: bool,
) -> bool {
    &&& button.custom_id@ == token_text(action, ui_page)
    &&& button.label@ == label_text(action)
    &&& button.style == if action == NavAction::Refresh {
        ButtonStyle::Primary
    } else {
        ButtonStyle::Secondary
    }
    &&& button.disabled == !enabled
}

/// Whether `buttons` are the buttons of page `ui_page` with the ways that
/// `nav` says are open. Refreshing is always open.
pub open spec fn are_buttons_of(buttons: NavigationButtons, ui_page: int, nav: NavState) -> bool {
    &&& is_button_of(buttons.prev, NavAction::Prev, ui_page, nav.can_prev)
    &&& is_button_of(buttons.next, NavAction::Next, ui_page, nav.can_next)
    &&& is_button_of(buttons.refresh, NavAction::Refresh, ui_page, true)
}

/// The buttons of page `ui_page` with the ways that `nav` says are open.
pub fn buttons_for(ui_page: u32, nav: NavState) -> (buttons: NavigationButtons)
    ensures
        are_buttons_of(buttons, ui_page as int, nav),
{
    NavigationButtons {
        prev: NavButton {
            custom_id: action_token(NavAction::Prev, ui_page),
            label: String::from_str("\u{2B05}\u{FE0F} Previous"),
            style: ButtonStyle::Secondary,
            disabled: !nav.can_prev,
        },
        next: NavButton {
            custom_id: action_token(NavAction::Next, ui_page),
            label: String::from_str("Next \u{27A1}\u{FE0F}"),
            style: ButtonStyle::Secondary,
            disabled: !nav.can_next,
        },
        refresh: NavButton {
            custom_id: action_token(NavAction::Refresh, ui_page),
            label: String::from_str("\u{1F504} Refresh"),
            style: ButtonStyle::Primary,
            disabled: false,
        },
    }
}

/// The buttons of page `page` of a league, over the page of standings that
/// was loaded for it, with pages of `UI_PAGE_SIZE` rows over remote pages of
/// `REMOTE_PAGE_SIZE`.
pub fn build_navigation_buttons(page: u32, standings: &LeagueStandings) -> (buttons:
    NavigationButtons)
    ensures
        are_buttons_of(
            buttons,
            page as int,
            nav_of(
                page as int,
                PageSizes::standard_sizes().ui_rows(),
                known_rows_of(
                    page as int,
                    standings.standings.managers@.len() as int,
                    PageSizes::standard_sizes(),
                ),
                standings.standings.has_next,
            ),
        ),
{
    let sizes = PageSizes::standard();
    let total = known_rows(page, standings.standings.managers.len(), &sizes);
    buttons_for(page, nav_state(page, sizes.ui(), total, standings.standings.has_next))
}

/// What is said where no league was given.
pub open spec fn no_league_text() -> Seq<char> {
    "Please provide a valid league ID"@
}

/// The league that a standings command names: the number in its first
/// option. A command without one is refused as input.
pub fn extract_league_id(options: &Vec<ResolvedOption>) -> (r: Result<i32, FplBotError>)
    ensures
        match first_option_number(options@) {
            Some(id) => r == Ok::<i32, FplBotError>(id),
            None => r matches Err(FplBotError::Input(detail)) && detail@ == no_league_text(),
        },
{
    first_number(options, "Please provide a valid league ID")
}

} // verus!
