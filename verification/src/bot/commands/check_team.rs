//! A manager's team of a gameweek as text: the starting eleven and the
//! bench, each player with club and points.
//!
//! The remote source may leave any field out. What is missing counts as
//! zero, as a multiplier of one, as no captaincy, or as an unknown name;
//! a pick whose player is not among the players is left out.

use crate::bot::commands::standings::EMBED_COLOR;
use crate::decimal::{int_chars, int_text};
use crate::text::{
    chars_of, lemma_append_more, pad_left, pad_right, push_all, push_padded_left,
    push_padded_right, push_str, string_of,
};
use crate::utils::error::FplBotError;
use crate::utils::type_conversion::{fits_id, ResolvedOption, ResolvedValue};
use vstd::prelude::*;
use vstd::utf8::encode_utf8;

verus! {

/// The widest that the name column gets.
pub const MAX_NAME_WIDTH: usize = 15;

/// The width of the name column where no player is listed.
pub const EMPTY_NAME_WIDTH: usize = 10;

/// The width of the club column.
pub const CLUB_WIDTH: usize = 3;

/// The width of the points column.
pub const POINTS_WIDTH: usize = 3;

/// One pick of a manager's team.
#[derive(Debug, Clone)]
pub struct Pick {
    /// The player picked
    pub element: Option<i64>,
    /// Whether the player is captain
    pub is_captain: Option<bool>,
    /// Whether the player is vice captain
    pub is_vice_captain: Option<bool>,
    /// How often the player's points count: zero on the bench
    pub multiplier: Option<i64>,
}

/// How a manager's gameweek went.
#[derive(Debug, Clone)]
pub struct EntryHistory {
    /// Points of the gameweek
    pub points: Option<i64>,
    /// Points of the season
    pub total_points: Option<i64>,
    /// Rank among all managers
    pub overall_rank: Option<i64>,
    /// Rank in the gameweek
    pub rank: Option<i64>,
}

/// A manager's team of a gameweek.
#[derive(Debug, Clone)]
pub struct TeamPicks {
    /// The players picked, starters first
    pub picks: Vec<Pick>,
    /// How the gameweek went
    pub entry_history: EntryHistory,
    /// The chip played, if any
    pub active_chip: Option<String>,
}

/// A player, as far as a team listing needs one.
#[derive(Debug, Clone)]
pub struct Element {
    /// The player's number
    pub id: Option<i64>,
    /// The number of the player's club
    pub team: Option<i64>,
    /// The player's short display name
    pub web_name: Option<String>,
    /// The player's points of the gameweek
    pub event_points: Option<i64>,
}

/// A club, as far as a team listing needs one.
#[derive(Debug, Clone)]
pub struct Club {
    /// The club's number
    pub id: Option<i64>,
    /// The club's three-letter name
    pub short_name: Option<String>,
}

/// All players and all clubs.
#[derive(Debug, Clone)]
pub struct GeneralData {
    /// The players
    pub elements: Vec<Element>,
    /// The clubs
    pub teams: Vec<Club>,
}

/// A titled value shown beside others below a view.
#[derive(Debug, Clone)]
pub struct EmbedField {
    /// What the value is
    pub name: String,
    /// The value
    pub value: String,
    /// Whether the field shares its line with its neighbours
    pub inline: bool,
}

/// A team as the chat platform shows it.
#[derive(Debug, Clone)]
pub struct TeamEmbed {
    /// Team and gameweek.
    pub title: String,
    /// The chip, the starting eleven and the bench.
    pub description: String,
    /// The colour of the bar beside the view.
    pub color: u32,
    /// Points and ranks.
    pub fields: Vec<EmbedField>,
    /// Manager and manager ID.
    pub footer: String,
}

/// A line of the listing: name, club, points and whether the player starts.
pub type Line = (Seq<char>, Seq<char>, int, bool);

/// The index of the first player with number `id`, or the number of players
/// where there is none.
pub open spec fn element_index(elements: Seq<Element>, id: int) -> int
    decreases elements.len(),
{
    if elements.len() == 0 || elements[0].id == Some(id as i64) {
        0
    } else {
        1 + element_index(elements.skip(1), id)
    }
}

/// The index of the first club with number `id`, or the number of clubs
/// where there is none.
pub open spec fn club_index(clubs: Seq<Club>, id: int) -> int
    decreases clubs.len(),
{
    if clubs.len() == 0 || clubs[0].id == Some(id as i64) {
        0
    } else {
        1 + club_index(clubs.skip(1), id)
    }
}

/// What `element_index` finds: an index within the players or their
/// number, with no player of that number before it, and one at it.
pub proof fn lemma_element_index(elements: Seq<Element>, id: i64)
    ensures
        0 <= element_index(elements, id as int) <= elements.len(),
        forall|i: int|
            0 <= i < element_index(elements, id as int) ==> (#[trigger] elements[i]).id != Some(id),
        element_index(elements, id as int) < elements.len() ==> elements[element_index(
            elements,
            id as int,
        )].id == Some(id),
    decreases elements.len(),
{
    if elements.len() == 0 || elements[0].id == Some(id) {
    } else {
        let rest = elements.skip(1);
        lemma_element_index(rest, id);
        assert forall|i: int| 0 <= i < element_index(elements, id as int) implies (
        #[trigger] elements[i]).id != Some(id) by {
            if i > 0 {
                assert(rest[i - 1] == elements[i]);
            }
        }
    }
}

/// What `club_index` finds, as for players.
pub proof fn lemma_club_index(clubs: Seq<Club>, id: i64)
    ensures
        0 <= club_index(clubs, id as int) <= clubs.len(),
        forall|i: int| 0 <= i < club_index(clubs, id as int) ==> (#[trigger] clubs[i]).id != Some(id),
        club_index(clubs, id as int) < clubs.len() ==> clubs[club_index(clubs, id as int)].id
            == Some(id),
    decreases clubs.len(),
{
    if clubs.len() == 0 || clubs[0].id == Some(id) {
    } else {
        let rest = clubs.skip(1);
        lemma_club_index(rest, id);
        assert forall|i: int| 0 <= i < club_index(clubs, id as int) implies (#[trigger] clubs[i]).id
            != Some(id) by {
            if i > 0 {
                assert(rest[i - 1] == clubs[i]);
            }
        }
    }
}

/// A number, or `otherwise` where it is missing.
pub open spec fn number_or(value: Option<i64>, otherwise: int) -> int {
    match value {
        Some(v) => v as int,
        None => otherwise,
    }
}

/// A player's name as listed: the display name, or `Unknown`, and behind
/// it `(C)` for the captain or else `(V)` for the vice captain.
pub open spec fn listed_name(pick: Pick, player: Element) -> Seq<char> {
    let name = match player.web_name {
        Some(name) => name@,
        None => "Unknown"@,
    };
    if pick.is_captain == Some(true) {
        name + " (C)"@
    } else if pick.is_vice_captain == Some(true) {
        name + " (V)"@
    } else {
        name
    }
}

/// The short name of a player's club: that of the first club with the
/// player's club number, or `???` where there is no such club or it has
/// no short name.
pub open spec fn listed_club(player: Element, clubs: Seq<Club>) -> Seq<char> {
    let at = club_index(clubs, number_or(player.team, 0));
    if at < clubs.len() {
        match clubs[at].short_name {
            Some(name) => name@,
            None => "???"@,
        }
    } else {
        "???"@
    }
}

/// The line of a pick: that of the first player with the pick's number,
/// with the player's points as often as the pick's multiplier says, among
/// the starters where the multiplier is above zero. A pick whose player is
/// not among the players has no line.
pub open spec fn line_of(pick: Pick, data: GeneralData) -> Option<Line> {
    let at = element_index(data.elements@, number_or(pick.element, 0));
    if at < data.elements@.len() {
        let player = data.elements@[at];
        Some(
            (
                listed_name(pick, player),
                listed_club(player, data.teams@),
                number_or(player.event_points, 0) * number_or(pick.multiplier, 1),
                number_or(pick.multiplier, 1) > 0,
            ),
        )
    } else {
        None
    }
}

/// The lines of `picks`, in their order.
pub open spec fn squad_of(picks: Seq<Pick>, data: GeneralData) -> Seq<Line>
    decreases picks.len(),
{
    if picks.len() == 0 {
        Seq::empty()
    } else {
        match line_of(picks.last(), data) {
            Some(line) => squad_of(picks.drop_last(), data).push(line),
            None => squad_of(picks.drop_last(), data),
        }
    }
}

/// The length of `text` in bytes of UTF-8, as far as the machine counts.
pub open spec fn byte_len(text: Seq<char>) -> usize {
    encode_utf8(text).len() as usize
}

/// The greatest length in bytes of a name in `squad`; zero for no lines.
pub open spec fn longest_name(squad: Seq<Line>) -> usize
    decreases squad.len(),
{
    if squad.len() == 0 {
        0
    } else {
        let before = longest_name(squad.drop_last());
        let here = byte_len(squad.last().0);
        if here > before {
            here
        } else {
            before
        }
    }
}

/// The width of the name column: the length in bytes of the longest name,
/// `EMPTY_NAME_WIDTH` where there is no line, and never more than
/// `MAX_NAME_WIDTH`.
pub open spec fn name_width_of(squad: Seq<Line>) -> usize {
    let longest = if squad.len() == 0 {
        EMPTY_NAME_WIDTH
    } else {
        longest_name(squad)
    };
    if longest > MAX_NAME_WIDTH {
        MAX_NAME_WIDTH
    } else {
        longest
    }
}

/// One line as text: the name filled on the right, the club filled on the
/// right, the points set to the right, `pts` and a line feed.
pub open spec fn line_text(line: Line, name_width: usize) -> Seq<char> {
    pad_right(line.0, name_width as nat) + " "@ + pad_right(line.1, CLUB_WIDTH as nat) + " "@
        + pad_left(int_text(line.2), POINTS_WIDTH as nat) + "pts\n"@
}

/// The lines of the starters, or of the bench, as text.
pub open spec fn group_text(squad: Seq<Line>, starters: bool, name_width: usize) -> Seq<char>
    decreases squad.len(),
{
    if squad.len() == 0 {
        Seq::empty()
    } else if squad.last().3 == starters {
        group_text(squad.drop_last(), starters, name_width) + line_text(squad.last(), name_width)
    } else {
        group_text(squad.drop_last(), starters, name_width)
    }
}

/// Whether a line of `squad` is on the bench.
pub open spec fn has_bench(squad: Seq<Line>) -> bool
    decreases squad.len(),
{
    squad.len() > 0 && (!squad.last().3 || has_bench(squad.drop_last()))
}

/// The chip played, where one was.
pub open spec fn chip_text(chip: Option<String>) -> Seq<char> {
    match chip {
        Some(name) => "**Active Chip:** "@ + name@ + "\n\n"@,
        None => Seq::empty(),
    }
}

/// The bench, where someone is on it.
pub open spec fn bench_text(squad: Seq<Line>, name_width: usize) -> Seq<char> {
    if has_bench(squad) {
        "**Bench**\n```\n"@ + group_text(squad, false, name_width) + "```"@
    } else {
        Seq::empty()
    }
}

/// The listing: the chip, the starting eleven, and the bench.
pub open spec fn description_text(squad: Seq<Line>, chip: Option<String>) -> Seq<char> {
    chip_text(chip) + "**Starting XI**\n```\n"@ + group_text(squad, true, name_width_of(squad))
        + "```\n"@ + bench_text(squad, name_width_of(squad))
}

/// The title: team and gameweek.
pub open spec fn team_title(team_name: Seq<char>, gameweek: int) -> Seq<char> {
    team_name + " - GW"@ + int_text(gameweek)
}

/// The footer: manager and manager ID.
pub open spec fn team_footer(manager_name: Seq<char>, manager_id: int) -> Seq<char> {
    "Manager: "@ + manager_name + " \u{2022} ID: "@ + int_text(manager_id)
}

/// Whether `field` shows `value` under `name`, on a line with its
/// neighbours.
pub open spec fn is_field(field: EmbedField, name: Seq<char>, value: int) -> bool {
    field.name@ == name && field.value@ == int_text(value) && field.inline
}

/// Whether `embed` shows the team `picks` of `gameweek`: the listing of its
/// lines, and below it the gameweek's points, the season's points, the
/// overall rank and the gameweek's rank, each zero where it is missing.
pub open spec fn is_team_embed(
    embed: TeamEmbed,
    picks: TeamPicks,
    manager_name: Seq<char>,
    team_name: Seq<char>,
    data: GeneralData,
    gameweek: int,
    manager_id: int,
) -> bool {
    &&& embed.title@ == team_title(team_name, gameweek)
    &&& embed.description@ == description_text(squad_of(picks.picks@, data), picks.active_chip)
    &&& embed.color == EMBED_COLOR
    &&& embed.fields@.len() == 4
    &&& is_field(embed.fields@[0], "GW Points"@, number_or(picks.entry_history.points, 0))
    &&& is_field(embed.fields@[1], "Total Points"@, number_or(picks.entry_history.total_points, 0))
    &&& is_field(embed.fields@[2], "Overall Rank"@, number_or(picks.entry_history.overall_rank, 0))
    &&& is_field(embed.fields@[3], "GW Rank"@, number_or(picks.entry_history.rank, 0))
    &&& embed.footer@ == team_footer(manager_name, manager_id)
}

/// A line of the listing, ready to be written.
struct SquadLine {
    name: Vec<char>,
    name_bytes: usize,
    club: Vec<char>,
    points: i128,
    starter: bool,
}

impl SquadLine {
    /// The line as the contracts speak of it.
    spec fn line(self) -> Line {
        (self.name@, self.club@, self.points as int, self.starter)
    }

    /// Whether the byte count is that of the name.
    spec fn counted(self) -> bool {
        self.name_bytes == byte_len(self.name@)
    }
}

/// The lines of a sequence of lines ready to be written.
spec fn lines_of(squad: Seq<SquadLine>) -> Seq<Line> {
    Seq::new(squad.len(), |i: int| squad[i].line())
}

/// A number, or `otherwise` where it is missing.
fn value_or(value: Option<i64>, otherwise: i64) -> (v: i64)
    ensures
        v == number_or(value, otherwise as int),
{
    match value {
        Some(v) => v,
        None => otherwise,
    }
}

/// The index of the first player with number `id`.
fn find_element(elements: &Vec<Element>, id: i64) -> (at: usize)
    ensures
        at == element_index(elements@, id as int),
        at <= elements.len(),
{
    let mut i: usize = 0;
    while i < elements.len()
        invariant
            i <= elements.len(),
            forall|k: int| 0 <= k < i ==> (#[trigger] elements@[k]).id != Some(id),
        decreases elements.len() - i,
    {
        match elements[i].id {
            Some(found) => {
                if found == id {
                    proof {
                        lemma_element_index(elements@, id);
                    }
                    return i;
                }
            },
            None => {},
        }
        i += 1;
    }
    proof {
        lemma_element_index(elements@, id);
    }
    i
}

/// The index of the first club with number `id`.
fn find_club(clubs: &Vec<Club>, id: i64) -> (at: usize)
    ensures
        at == club_index(clubs@, id as int),
        at <= clubs.len(),
{
    let mut i: usize = 0;
    while i < clubs.len()
        invariant
            i <= clubs.len(),
            forall|k: int| 0 <= k < i ==> (#[trigger] clubs@[k]).id != Some(id),
        decreases clubs.len() - i,
    {
        match clubs[i].id {
            Some(found) => {
                if found == id {
                    proof {
                        lemma_club_index(clubs@, id);
                    }
                    return i;
                }
            },
            None => {},
        }
        i += 1;
    }
    proof {
        lemma_club_index(clubs@, id);
    }
    i
}

/// The line of a pick, where its player is among the players.
fn squad_line(pick: &Pick, data: &GeneralData) -> (r: Option<SquadLine>)
    ensures
        match r {
            Some(line) => line_of(*pick, *data) == Some(line.line()) && line.counted(),
            None => line_of(*pick, *data) is None,
        },
{
    let at = find_element(&data.elements, value_or(pick.element, 0));
    if at >= data.elements.len() {
        return None;
    }
    let player = &data.elements[at];
    let mut name: Vec<char> = Vec::new();
    match &player.web_name {
        Some(web_name) => push_str(&mut name, web_name.as_str()),
        None => push_str(&mut name, "Unknown"),
    }
    let is_captain = match pick.is_captain {
        Some(flag) => flag,
        None => false,
    };
    let is_vice = match pick.is_vice_captain {
        Some(flag) => flag,
        None => false,
    };
    if is_captain {
        push_str(&mut name, " (C)");
    } else if is_vice {
        push_str(&mut name, " (V)");
    }
    assert(name@ =~= listed_name(*pick, *player));
    let club_at = find_club(&data.teams, value_or(player.team, 0));
    let mut club: Vec<char> = Vec::new();
    if club_at < data.teams.len() {
        match &data.teams[club_at].short_name {
            Some(short_name) => push_str(&mut club, short_name.as_str()),
            None => push_str(&mut club, "???"),
        }
    } else {
        push_str(&mut club, "???");
    }
    assert(club@ =~= listed_club(*player, data.teams@));
    let multiplier = value_or(pick.multiplier, 1);
    let event_points = value_or(player.event_points, 0);
    assert(-0x4000_0000_0000_0000_0000_0000_0000_0000 <= event_points * multiplier
        <= 0x4000_0000_0000_0000_0000_0000_0000_0000) by (nonlinear_arith)
        requires
            -0x8000_0000_0000_0000 <= event_points <= 0x7fff_ffff_ffff_ffff,
            -0x8000_0000_0000_0000 <= multiplier <= 0x7fff_ffff_ffff_ffff,
    ;
    let points: i128 = (event_points as i128) * (multiplier as i128);
    let name_bytes = string_of(&name).as_str().len();
    Some(SquadLine { name, name_bytes, club, points, starter: multiplier > 0 })
}

/// The lines of `picks`, in their order.
fn squad_lines(picks: &Vec<Pick>, data: &GeneralData) -> (squad: Vec<SquadLine>)
    ensures
        lines_of(squad@) == squad_of(picks@, *data),
        forall|i: int| 0 <= i < squad@.len() ==> (#[trigger] squad@[i]).counted(),
{
    let mut squad: Vec<SquadLine> = Vec::new();
    let mut i: usize = 0;
    assert(lines_of(squad@) =~= squad_of(picks@.take(0), *data));
    while i < picks.len()
        invariant
            i <= picks.len(),
            lines_of(squad@) == squad_of(picks@.take(i as int), *data),
            forall|k: int| 0 <= k < squad@.len() ==> (#[trigger] squad@[k]).counted(),
        decreases picks.len() - i,
    {
        proof {
            assert(picks@.take(i + 1).drop_last() =~= picks@.take(i as int));
            assert(picks@.take(i + 1).last() == picks@[i as int]);
        }
        let ghost before = squad@;
        match squad_line(&picks[i], data) {
            Some(line) => {
                let ghost added = line.line();
                squad.push(line);
                assert(lines_of(squad@) =~= lines_of(before).push(added));
            },
            None => {},
        }
        i += 1;
    }
    assert(picks@.take(picks.len() as int) =~= picks@);
    squad
}

/// The width of the name column for `squad`.
fn name_width(squad: &Vec<SquadLine>) -> (width: usize)
    requires
        forall|i: int| 0 <= i < squad@.len() ==> (#[trigger] squad@[i]).counted(),
    ensures
        width == name_width_of(lines_of(squad@)),
        width <= MAX_NAME_WIDTH,
{
    let ghost lines = lines_of(squad@);
    let mut longest: usize = 0;
    let mut i: usize = 0;
    while i < squad.len()
        invariant
            i <= squad.len(),
            lines == lines_of(squad@),
            forall|k: int| 0 <= k < squad@.len() ==> (#[trigger] squad@[k]).counted(),
            longest == longest_name(lines.take(i as int)),
        decreases squad.len() - i,
    {
        proof {
            assert(lines.take(i + 1).drop_last() =~= lines.take(i as int));
            assert(lines.take(i + 1).last() == squad@[i as int].line());
            assert(squad@[i as int].counted());
        }
        if squad[i].name_bytes > longest {
            longest = squad[i].name_bytes;
        }
        i += 1;
    }
    assert(lines.take(squad.len() as int) =~= lines);
    if squad.len() == 0 {
        longest = EMPTY_NAME_WIDTH;
    }
    if longest > MAX_NAME_WIDTH {
        MAX_NAME_WIDTH
    } else {
        longest
    }
}

/// Appends one line of the listing to `out`.
fn push_line(out: &mut Vec<char>, line: &SquadLine, name_width: usize)
    ensures
        final(out)@ == old(out)@ + line_text(line.line(), name_width),
{
    let points = int_chars(line.points);
    let ghost before = out@;
    push_padded_right(out, &line.name, name_width);
    let ghost mut text = pad_right(line.name@, name_width as nat);
    push_str(out, " ");
    proof {
        lemma_append_more(before, text, " "@);
        text = text + " "@;
    }
    push_padded_right(out, &line.club, CLUB_WIDTH);
    proof {
        let piece = pad_right(line.club@, CLUB_WIDTH as nat);
        lemma_append_more(before, text, piece);
        text = text + piece;
    }
    push_str(out, " ");
    proof {
        lemma_append_more(before, text, " "@);
        text = text + " "@;
    }
    push_padded_left(out, &points, POINTS_WIDTH);
    proof {
        let piece = pad_left(points@, POINTS_WIDTH as nat);
        lemma_append_more(before, text, piece);
        text = text + piece;
    }
    push_str(out, "pts\n");
    proof {
        lemma_append_more(before, text, "pts\n"@);
        text = text + "pts\n"@;
    }
}

/// Appends the lines of the starters, or of the bench, to `out`, and says
/// whether anyone is on the bench.
fn push_group(out: &mut Vec<char>, squad: &Vec<SquadLine>, starters: bool, name_width: usize) -> (bench:
    bool)
    ensures
        final(out)@ == old(out)@ + group_text(lines_of(squad@), starters, name_width),
        bench == has_bench(lines_of(squad@)),
{
    let ghost lines = lines_of(squad@);
    let ghost before = out@;
    let mut bench = false;
    let mut i: usize = 0;
    assert(out@ =~= before + group_text(lines.take(0), starters, name_width));
    while i < squad.len()
        invariant
            i <= squad.len(),
            lines == lines_of(squad@),
            out@ == before + group_text(lines.take(i as int), starters, name_width),
            bench == has_bench(lines.take(i as int)),
        decreases squad.len() - i,
    {
        proof {
            assert(lines.take(i + 1).drop_last() =~= lines.take(i as int));
            assert(lines.take(i + 1).last() == squad@[i as int].line());
            lemma_append_more(
                before,
                group_text(lines.take(i as int), starters, name_width),
                line_text(squad@[i as int].line(), name_width),
            );
        }
        if squad[i].starter == starters {
            push_line(out, &squad[i], name_width);
        }
        if !squad[i].starter {
            bench = true;
        }
        i += 1;
    }
    assert(lines.take(squad.len() as int) =~= lines);
    bench
}

/// The listing of `squad` under the chip played.
fn description(squad: &Vec<SquadLine>, chip: &Option<String>) -> (out: Vec<char>)
    requires
        forall|i: int| 0 <= i < squad@.len() ==> (#[trigger] squad@[i]).counted(),
    ensures
        out@ == description_text(lines_of(squad@), *chip),
{
    let ghost lines = lines_of(squad@);
    let width = name_width(squad);
    let mut out: Vec<char> = Vec::new();
    match chip {
        Some(name) => {
            push_str(&mut out, "**Active Chip:** ");
            push_str(&mut out, name.as_str());
            push_str(&mut out, "\n\n");
        },
        None => {},
    }
    assert(out@ =~= chip_text(*chip));
    push_str(&mut out, "**Starting XI**\n```\n");
    let bench = push_group(&mut out, squad, true, width);
    push_str(&mut out, "```\n");
    let ghost head = out@;
    if bench {
        push_str(&mut out, "**Bench**\n```\n");
        push_group(&mut out, squad, false, width);
        push_str(&mut out, "```");
        assert(out@ =~= head + bench_text(lines, width));
    } else {
        assert(out@ =~= head + bench_text(lines, width));
    }
    out
}

/// A field that shows `value` under `name`.
fn field(name: &str, value: Option<i64>) -> (field: EmbedField)
    ensures
        is_field(field, name@, number_or(value, 0)),
{
    EmbedField {
        name: String::from_str(name),
        value: string_of(&int_chars(value_or(value, 0) as i128)),
        inline: true,
    }
}

/// The team `picks_data` of `gameweek` as the chat platform shows it.
pub fn build_team_embed(
    picks_data: &TeamPicks,
    manager_name: &str,
    team_name: &str,
    general_data: &GeneralData,
    gameweek: i32,
    manager_id: i32,
) -> (embed: TeamEmbed)
    ensures
        is_team_embed(
            embed,
            *picks_data,
            manager_name@,
            team_name@,
            *general_data,
            gameweek as int,
            manager_id as int,
        ),
{
    let squad = squad_lines(&picks_data.picks, general_data);
    let body = description(&squad, &picks_data.active_chip);
    let mut title: Vec<char> = Vec::new();
    push_str(&mut title, team_name);
    push_str(&mut title, " - GW");
    push_all(&mut title, &int_chars(gameweek as i128));
    assert(title@ =~= team_title(team_name@, gameweek as int));
    let mut footer: Vec<char> = Vec::new();
    push_str(&mut footer, "Manager: ");
    push_str(&mut footer, manager_name);
    push_str(&mut footer, " \u{2022} ID: ");
    push_all(&mut footer, &int_chars(manager_id as i128));
    assert(footer@ =~= team_footer(manager_name@, manager_id as int));
    let mut fields: Vec<EmbedField> = Vec::new();
    fields.push(field("GW Points", picks_data.entry_history.points));
    fields.push(field("Total Points", picks_data.entry_history.total_points));
    fields.push(field("Overall Rank", picks_data.entry_history.overall_rank));
    fields.push(field("GW Rank", picks_data.entry_history.rank));
    TeamEmbed {
        title: string_of(&title),
        description: string_of(&body),
        color: EMBED_COLOR,
        fields,
        footer: string_of(&footer),
    }
}

/// Whose team a command asks for.
#[derive(Debug, Clone)]
pub enum TeamRequest {
    /// The team of the manager with this ID.
    Manager(i32),
    /// The team of the manager that this user of the chat platform has
    /// linked: the user's identifier and name.
    LinkedTo(u64, String),
    /// The team of the manager that the requester has linked.
    Own,
}

/// The index of the first option called `name`, or the number of options
/// where there is none.
pub open spec fn option_index(options: Seq<ResolvedOption>, name: Seq<char>) -> int
    decreases options.len(),
{
    if options.len() == 0 || options[0].name@ == name {
        0
    } else {
        1 + option_index(options.skip(1), name)
    }
}

/// What `option_index` finds: an index within the options or their number,
/// with no option of that name before it, and one at it.
pub proof fn lemma_option_index(options: Seq<ResolvedOption>, name: Seq<char>)
    ensures
        0 <= option_index(options, name) <= options.len(),
        forall|i: int|
            0 <= i < option_index(options, name) ==> (#[trigger] options[i]).name@ != name,
        option_index(options, name) < options.len() ==> options[option_index(options, name)].name@
            == name,
    decreases options.len(),
{
    if options.len() == 0 || options[0].name@ == name {
    } else {
        let rest = options.skip(1);
        lemma_option_index(rest, name);
        assert forall|i: int| 0 <= i < option_index(options, name) implies (
        #[trigger] options[i]).name@ != name by {
            if i > 0 {
                assert(rest[i - 1] == options[i]);
            }
        }
    }
}

/// The number in the first option called `manager_id`, where there is such
/// an option and it holds a number.
pub open spec fn named_manager(options: Seq<ResolvedOption>) -> Option<int> {
    let at = option_index(options, "manager_id"@);
    if at < options.len() {
        match options[at].value {
            ResolvedValue::Integer(id) => Some(id as int),
            _ => None,
        }
    } else {
        None
    }
}

/// The user in the first option called `user`, where there is such an
/// option and it holds a user.
pub open spec fn named_user(options: Seq<ResolvedOption>) -> Option<(u64, Seq<char>)> {
    let at = option_index(options, "user"@);
    if at < options.len() {
        match options[at].value {
            ResolvedValue::User(id, name) => Some((id, name@)),
            _ => None,
        }
    } else {
        None
    }
}

/// What is said of a manager ID that is none.
pub open spec fn no_manager_text() -> Seq<char> {
    "Please provide a valid manager ID"@
}

/// The index of the first option called `name`.
fn find_option(options: &Vec<ResolvedOption>, name: &str) -> (at: usize)
    ensures
        at == option_index(options@, name@),
        at <= options.len(),
{
    let wanted = chars_of(name);
    let mut i: usize = 0;
    while i < options.len()
        invariant
            i <= options.len(),
            wanted@ == name@,
            forall|k: int| 0 <= k < i ==> (#[trigger] options@[k]).name@ != name@,
        decreases options.len() - i,
    {
        let here = chars_of(options[i].name.as_str());
        if here.len() == wanted.len() && crate::text::matches_at(&here, 0, &wanted) {
            proof {
                assert(here@.subrange(0, here@.len() as int) =~= here@);
                lemma_option_index(options@, name@);
            }
            return i;
        }
        proof {
            if here@ == wanted@ {
                assert(here@.subrange(0, wanted@.len() as int) =~= here@);
            }
        }
        i += 1;
    }
    proof {
        lemma_option_index(options@, name@);
    }
    i
}

/// Whose team the options of a command ask for: the manager named in
/// `manager_id`; else the manager linked by the user named in `user`; else
/// the requester's own. A manager ID beyond 32 bits is refused as input.
pub fn whose_team(options: &Vec<ResolvedOption>) -> (r: Result<TeamRequest, FplBotError>)
    ensures
        match (named_manager(options@), named_user(options@)) {
            (Some(id), _) => if fits_id(id) {
                r matches Ok(TeamRequest::Manager(manager)) && manager == id
            } else {
                r matches Err(FplBotError::Input(detail)) && detail@ == no_manager_text()
            },
            (None, Some((id, name))) => r matches Ok(TeamRequest::LinkedTo(user, user_name))
                && user == id && user_name@ == name,
            (None, None) => r matches Ok(TeamRequest::Own),
        },
{
    let manager_at = find_option(options, "manager_id");
    if manager_at < options.len() {
        match &options[manager_at].value {
            ResolvedValue::Integer(id) => {
                if *id >= -2147483648 && *id <= 2147483647 {
                    return Ok(TeamRequest::Manager(*id as i32));
                } else {
                    return Err(
                        FplBotError::Input(String::from_str("Please provide a valid manager ID")),
                    );
                }
            },
            _ => {},
        }
    }
    let user_at = find_option(options, "user");
    if user_at < options.len() {
        match &options[user_at].value {
            ResolvedValue::User(id, name) => {
                return Ok(TeamRequest::LinkedTo(*id, name.clone()));
            },
            _ => {},
        }
    }
    Ok(TeamRequest::Own)
}

/// What is said of a user who has linked no manager.
pub open spec fn not_linked_text(user_name: Seq<char>) -> Seq<char> {
    "User "@ + user_name + " has not linked their FPL manager ID."@
}

/// What is said to a requester who has linked no manager.
pub open spec fn own_not_linked_text() -> Seq<char> {
    "No manager_id configured for you. Use /update_manager_id please!"@
}

/// What to answer where the manager asked for is not linked: that the
/// named user has linked none, or that the requester has none configured.
pub fn not_linked_reply(request: &TeamRequest) -> (reply: String)
    ensures
        reply@ == match *request {
            TeamRequest::LinkedTo(_, name) => not_linked_text(name@),
            _ => own_not_linked_text(),
        },
{
    match request {
        TeamRequest::LinkedTo(_, name) => {
            let mut out: Vec<char> = Vec::new();
            push_str(&mut out, "User ");
            push_str(&mut out, name.as_str());
            push_str(&mut out, " has not linked their FPL manager ID.");
            assert(out@ =~= not_linked_text(name@));
            string_of(&out)
        },
        _ => String::from_str("No manager_id configured for you. Use /update_manager_id please!"),
    }
}

/// The name shown for a manager: first and last name with a space between.
pub open spec fn full_name_text(first: Seq<char>, last: Seq<char>) -> Seq<char> {
    first + " "@ + last
}

/// The name shown for a manager.
pub fn full_name(first: &str, last: &str) -> (name: String)
    ensures
        name@ == full_name_text(first@, last@),
{
    let mut out: Vec<char> = Vec::new();
    push_str(&mut out, first);
    push_str(&mut out, " ");
    push_str(&mut out, last);
    string_of(&out)
}

/// A gameweek of the season, as far as finding the running one needs it.
#[derive(Debug, Clone)]
pub struct GameweekMark {
    /// The gameweek's number
    pub id: Option<i64>,
    /// Whether the gameweek is the running one
    pub is_current: Option<bool>,
}

/// The index of the first gameweek marked as running, or the number of
/// gameweeks where none is.
pub open spec fn current_index(events: Seq<GameweekMark>) -> int
    decreases events.len(),
{
    if events.len() == 0 || events[0].is_current == Some(true) {
        0
    } else {
        1 + current_index(events.skip(1))
    }
}

/// What `current_index` finds: an index within the gameweeks or their
/// number, with no running gameweek before it, and one at it.
pub proof fn lemma_current_index(events: Seq<GameweekMark>)
    ensures
        0 <= current_index(events) <= events.len(),
        forall|i: int|
            0 <= i < current_index(events) ==> (#[trigger] events[i]).is_current != Some(true),
        current_index(events) < events.len() ==> events[current_index(events)].is_current == Some(
            true,
        ),
    decreases events.len(),
{
    if events.len() == 0 || events[0].is_current == Some(true) {
    } else {
        let rest = events.skip(1);
        lemma_current_index(rest);
        assert forall|i: int| 0 <= i < current_index(events) implies (
        #[trigger] events[i]).is_current != Some(true) by {
            if i > 0 {
                assert(rest[i - 1] == events[i]);
            }
        }
    }
}

/// The number of the running gameweek: that of the first gameweek marked
/// as running, where there is one and its number is one of 32 bits.
pub open spec fn current_gameweek_of(events: Seq<GameweekMark>) -> Option<i32> {
    let at = current_index(events);
    if at < events.len() {
        match events[at].id {
            Some(id) => if fits_id(id as int) {
                Some(id as i32)
            } else {
                None
            },
            None => None,
        }
    } else {
        None
    }
}

/// What is said where no gameweek is running.
pub open spec fn no_current_gameweek_text() -> Seq<char> {
    "Could not determine the current gameweek"@
}

/// The number of the running gameweek. A season without one, or with one
/// whose number is missing or beyond 32 bits, is a parse failure.
pub fn current_gameweek(events: &Vec<GameweekMark>) -> (r: Result<i32, FplBotError>)
    ensures
        match current_gameweek_of(events@) {
            Some(id) => r == Ok::<i32, FplBotError>(id),
            None => r matches Err(FplBotError::Parse(detail)) && detail@
                == no_current_gameweek_text(),
        },
{
    let mut i: usize = 0;
    while i < events.len()
        invariant
            i <= events.len(),
            forall|k: int| 0 <= k < i ==> (#[trigger] events@[k]).is_current != Some(true),
        decreases events.len() - i,
    {
        let running = match events[i].is_current {
            Some(flag) => flag,
            None => false,
        };
        if running {
            proof {
                lemma_current_index(events@);
            }
            match events[i].id {
                Some(id) => {
                    if id >= -2147483648 && id <= 2147483647 {
                        return Ok(id as i32);
                    }
                },
                None => {},
            }
            return Err(
                FplBotError::Parse(String::from_str("Could not determine the current gameweek")),
            );
        }
        i += 1;
    }
    proof {
        lemma_current_index(events@);
    }
    Err(FplBotError::Parse(String::from_str("Could not determine the current gameweek")))
}

} // verus!
