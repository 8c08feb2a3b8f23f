//! The fixtures of a gameweek as a block of text: for each fixture the
//! kickoff, centred, and below it the home team against the away team.

use crate::bot::commands::standings::{fence, EMBED_COLOR};
use crate::decimal::{int_chars, int_text};
use crate::fpl::models::fixtures::{Fixture, GameweekFixtures};
use crate::fpl::models::teams::{get_team_name, team_name_of};
use crate::text::{
    chars_of, lemma_append_more, pad_center, pad_left, pad_right, push_all, push_padded_center,
    push_padded_left, push_padded_right, push_str, string_of,
};
use crate::utils::error::FplBotError;
use crate::utils::type_conversion::{first_number, first_option_number, ResolvedOption};
use vstd::prelude::*;

verus! {

/// Characters that the kickoff is centred in.
pub const KICKOFF_WIDTH: usize = 38;

/// Characters that the home team is set to the right in.
pub const HOME_WIDTH: usize = 17;

/// Characters that the away team is set to the left in.
pub const AWAY_WIDTH: usize = 18;

/// The latest second of the year 9999, counted from the Unix epoch.
pub const LAST_COMMON_SECOND: i64 = 253_402_300_799;

/// Day, month, hour and minute in UTC of the second `timestamp` after the
/// Unix epoch, as `chrono` writes them for the pattern `%d.%m %H:%M`.
pub uninterp spec fn kickoff_label(timestamp: int) -> Seq<char>;

/// `chrono::DateTime::from_timestamp` with no nanoseconds, then
/// `DateTime::format` with the pattern `%d.%m %H:%M`, written out as a
/// string. Taken on trust, in two claims. The text is a function of the
/// timestamp alone: the time zone is UTC and the pattern has no part that
/// depends on a locale. And a timestamp from the epoch to the end of the
/// year 9999 gives a text: `from_timestamp` gives nothing only for a day
/// outside the years that `chrono` holds, which reach some 262,000 years
/// either way. Of a timestamp outside those bounds nothing is claimed but
/// the first.
#[verifier::external_body]
fn format_kickoff(timestamp: i64) -> (label: Option<String>)
    ensures
        label matches Some(text) ==> text@ == kickoff_label(timestamp as int),
        0 <= timestamp <= LAST_COMMON_SECOND ==> label is Some,
{
    match chrono::DateTime::from_timestamp(timestamp, 0) {
        Some(time) => Some(time.format("%d.%m %H:%M").to_string()),
        None => None,
    }
}

/// The fixtures of a gameweek as the chat platform shows them.
#[derive(Debug, Clone)]
pub struct FixturesEmbed {
    /// The gameweek.
    pub title: String,
    /// The fixtures, as a block of fixed-width text.
    pub description: String,
    /// The colour of the bar beside the view.
    pub color: u32,
}

/// The two lines of a fixture with the kickoff written as `label`, and the
/// empty line behind them.
pub open spec fn fixture_text(fixture: Fixture, label: Seq<char>) -> Seq<char> {
    pad_center(label, KICKOFF_WIDTH as nat) + "\n"@ + pad_left(
        team_name_of(fixture.team_h as int),
        HOME_WIDTH as nat,
    ) + " - "@ + pad_right(team_name_of(fixture.team_a as int), AWAY_WIDTH as nat) + "\n\n"@
}

/// The lines of `fixtures`, in order, with their kickoffs written as
/// `labels` say, one label for each fixture.
pub open spec fn fixtures_text(fixtures: Seq<Fixture>, labels: Seq<Seq<char>>) -> Seq<char>
    decreases fixtures.len(),
{
    if fixtures.len() == 0 {
        Seq::empty()
    } else {
        fixtures_text(fixtures.drop_last(), labels.drop_last()) + fixture_text(
            fixtures.last(),
            labels.last(),
        )
    }
}

/// The kickoffs of `fixtures` as `chrono` writes them.
pub open spec fn kickoff_labels(fixtures: Seq<Fixture>) -> Seq<Seq<char>> {
    Seq::new(fixtures.len(), |i: int| kickoff_label(fixtures[i].kickoff_time as int))
}

/// The title of the fixtures of `gameweek`.
pub open spec fn gameweek_title(gameweek: int) -> Seq<char> {
    "Gameweek "@ + int_text(gameweek)
}

/// Whether `embed` shows the fixtures of `gameweek` with the kickoffs
/// written as `labels` say.
pub open spec fn is_fixtures_embed(
    embed: FixturesEmbed,
    gameweek: GameweekFixtures,
    labels: Seq<Seq<char>>,
) -> bool {
    &&& embed.title@ == gameweek_title(gameweek.gameweek as int)
    &&& embed.description@ == fence() + fixtures_text(gameweek.fixtures@, labels) + fence()
    &&& embed.color == EMBED_COLOR
}

/// Appends the lines of `fixture` to `out`.
fn push_fixture(out: &mut Vec<char>, fixture: &Fixture, label: &Vec<char>)
    ensures
        final(out)@ == old(out)@ + fixture_text(*fixture, label@),
{
    let home = chars_of(get_team_name(fixture.team_h).name);
    let away = chars_of(get_team_name(fixture.team_a).name);
    let ghost before = out@;
    push_padded_center(out, label, KICKOFF_WIDTH);
    let ghost mut lines = pad_center(label@, KICKOFF_WIDTH as nat);
    push_str(out, "\n");
    proof {
        lemma_append_more(before, lines, "\n"@);
        lines = lines + "\n"@;
    }
    push_padded_left(out, &home, HOME_WIDTH);
    proof {
        let piece = pad_left(home@, HOME_WIDTH as nat);
        lemma_append_more(before, lines, piece);
        lines = lines + piece;
    }
    push_str(out, " - ");
    proof {
        lemma_append_more(before, lines, " - "@);
        lines = lines + " - "@;
    }
    push_padded_right(out, &away, AWAY_WIDTH);
    proof {
        let piece = pad_right(away@, AWAY_WIDTH as nat);
        lemma_append_more(before, lines, piece);
        lines = lines + piece;
    }
    push_str(out, "\n\n");
    proof {
        lemma_append_more(before, lines, "\n\n"@);
        lines = lines + "\n\n"@;
    }
}

/// The views of the labels in `labels`.
pub open spec fn label_views(labels: Seq<Vec<char>>) -> Seq<Seq<char>> {
    Seq::new(labels.len(), |i: int| labels[i]@)
}

/// The fixtures of a gameweek with the kickoffs written as `labels` say,
/// one label for each fixture, in order.
pub fn fixtures_embed_with(gameweek: &GameweekFixtures, labels: &Vec<Vec<char>>) -> (embed:
    FixturesEmbed)
    requires
        labels@.len() == gameweek.fixtures@.len(),
    ensures
        is_fixtures_embed(embed, *gameweek, label_views(labels@)),
{
    let ghost fixtures = gameweek.fixtures@;
    let ghost views = label_views(labels@);
    let mut body: Vec<char> = Vec::new();
    body.push('`');
    body.push('`');
    body.push('`');
    assert(body@ =~= fence());
    let mut i: usize = 0;
    while i < gameweek.fixtures.len()
        invariant
            i <= gameweek.fixtures.len(),
            labels@.len() == gameweek.fixtures@.len(),
            fixtures == gameweek.fixtures@,
            views == label_views(labels@),
            body@ == fence() + fixtures_text(fixtures.take(i as int), views.take(i as int)),
        decreases gameweek.fixtures.len() - i,
    {
        proof {
            assert(fixtures.take(i + 1).drop_last() =~= fixtures.take(i as int));
            assert(views.take(i + 1).drop_last() =~= views.take(i as int));
            assert(views.take(i + 1).last() == labels@[i as int]@);
            lemma_append_more(
                fence(),
                fixtures_text(fixtures.take(i as int), views.take(i as int)),
                fixture_text(fixtures[i as int], labels@[i as int]@),
            );
        }
        push_fixture(&mut body, &gameweek.fixtures[i], &labels[i]);
        i += 1;
    }
    proof {
        assert(fixtures.take(fixtures.len() as int) =~= fixtures);
        assert(views.take(fixtures.len() as int) =~= views);
    }
    body.push('`');
    body.push('`');
    body.push('`');
    assert(body@ =~= fence() + fixtures_text(fixtures, views) + fence());
    let mut title: Vec<char> = Vec::new();
    push_str(&mut title, "Gameweek ");
    push_all(&mut title, &int_chars(gameweek.gameweek as i128));
    assert(title@ =~= gameweek_title(gameweek.gameweek as int));
    FixturesEmbed { title: string_of(&title), description: string_of(&body), color: EMBED_COLOR }
}

/// What is said of a kickoff that no calendar shows.
pub open spec fn no_kickoff_text() -> Seq<char> {
    "Kickoff time out of range"@
}

/// Whether every kickoff of `fixtures` lies between the Unix epoch and the
/// end of the year 9999.
pub open spec fn kickoffs_are_common(fixtures: Seq<Fixture>) -> bool {
    forall|i: int|
        0 <= i < fixtures.len() ==> 0 <= (#[trigger] fixtures[i]).kickoff_time
            <= LAST_COMMON_SECOND
}

/// The fixtures of a gameweek, each with its kickoff as day, month, hour
/// and minute in UTC. Kickoffs from the Unix epoch to the end of the year
/// 9999 are always shown; a kickoff that the calendar cannot hold makes the
/// whole a parse failure.
pub fn build_fixtures_embed(gameweek: &GameweekFixtures) -> (r: Result<FixturesEmbed, FplBotError>)
    ensures
        kickoffs_are_common(gameweek.fixtures@) ==> r is Ok,
        match r {
            Ok(embed) => is_fixtures_embed(embed, *gameweek, kickoff_labels(gameweek.fixtures@)),
            Err(error) => error matches FplBotError::Parse(detail) && detail@ == no_kickoff_text(),
        },
{
    let mut labels: Vec<Vec<char>> = Vec::new();
    let mut i: usize = 0;
    while i < gameweek.fixtures.len()
        invariant
            i <= gameweek.fixtures.len(),
            labels@.len() == i,
            forall|k: int|
                0 <= k < i ==> (#[trigger] labels@[k])@ == kickoff_label(
                    gameweek.fixtures@[k].kickoff_time as int,
                ),
        decreases gameweek.fixtures.len() - i,
    {
        match format_kickoff(gameweek.fixtures[i].kickoff_time) {
            Some(label) => {
                labels.push(chars_of(label.as_str()));
            },
            None => {
                return Err(FplBotError::Parse(String::from_str("Kickoff time out of range")));
            },
        }
        i += 1;
    }
    assert(label_views(labels@) =~= kickoff_labels(gameweek.fixtures@));
    Ok(fixtures_embed_with(gameweek, &labels))
}

/// What is said where no gameweek was given.
pub open spec fn no_gameweek_text() -> Seq<char> {
    "Please provide a valid gameweek"@
}

/// The gameweek that a fixtures command names: the number in its first
/// option. A command without one is refused as input.
pub fn extract_gameweek(options: &Vec<ResolvedOption>) -> (r: Result<i32, FplBotError>)
    ensures
        match first_option_number(options@) {
            Some(id) => r == Ok::<i32, FplBotError>(id),
            None => r matches Err(FplBotError::Input(detail)) && detail@ == no_gameweek_text(),
        },
{
    first_number(options, "Please provide a valid gameweek")
}

} // verus!
