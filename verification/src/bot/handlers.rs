//! The view controller: what to load for an interaction, and what to show
//! once it is there.
//!
//! The controller keeps nothing between two interactions. A view's state is
//! the footer of the message it stands in; a button brings that footer back
//! together with its own token, and from the two the controller works out
//! the page to show and the remote page to load for it. Loading is done by
//! whoever calls: the controller says what to load, and is handed what came.

use crate::bot::commands::standings::{
    are_buttons_of, buttons_for, is_view_of, known_rows, known_rows_of, page_total, page_total_of,
    render, NavigationButtons, RenderedView,
};
use crate::bot::footer::{lemma_footer_reads_back, parse_footer, read_footer, FooterState};
use crate::bot::token::{
    has_page_field, is_standings_token, lemma_token_reads_back, parse_token, read_token,
    NavAction,
};
use crate::fpl::models::league::LeagueStandings;
use crate::paging::{
    clamp_page, clamped_page, nav_of, nav_state, remote_page_for, remote_page_of, NavState,
    PageSizes,
};
use crate::text::{chars_of, find_from, matches_at};
use crate::utils::error::{
    command_notice_of, command_notice_text, notice_of, notice_text, FplBotError,
};
use vstd::prelude::*;

verus! {

/// What to load: a remote page of a league's standings, for a page of the
/// view.
#[derive(Clone, Copy, Debug, PartialEq, Eq, Structural)]
pub struct FetchPlan {
    /// The league to load.
    pub league_id: i32,
    /// The page of the view that was asked for, counted from zero.
    pub ui_page: u32,
    /// The remote page to load, counted from one.
    pub remote_page: u64,
}

/// What to show once a remote page has arrived.
#[derive(Debug, Clone)]
pub struct Presentation {
    /// The page shown, counted from zero: the page asked for, or the last
    /// page with a row where the page asked for lies behind it.
    pub ui_page: u32,
    /// Title, table and footer.
    pub view: RenderedView,
    /// Which ways are open from here.
    pub actions: NavState,
    /// The buttons that go with it.
    pub buttons: NavigationButtons,
}

/// What to tell the requester of a failure.
#[derive(Debug, Clone)]
pub struct ErrorNotice {
    /// The words to show.
    pub content: String,
    /// Whether only the requester sees them, for a while.
    pub ephemeral: bool,
    /// Whether the notice takes the place of the view it is about. No
    /// notice does: a view that was shown stays good.
    pub replaces_view: bool,
}

/// What to do about a pressed button.
#[derive(Debug, Clone)]
pub enum ComponentDecision {
    /// Load what the plan asks for, and show it in place of the view.
    Load(FetchPlan),
    /// Tell the requester, beside the view.
    Tell(ErrorNotice),
    /// Do nothing and answer nothing.
    Ignore,
}

/// The page that an action leads to from page `ui_page`: one back, but not
/// before the first; one on, wherever that is; or the same.
pub open spec fn target_page(action: NavAction, ui_page: int) -> int {
    match action {
        NavAction::Prev => if ui_page > 0 {
            ui_page - 1
        } else {
            0
        },
        NavAction::Next => ui_page + 1,
        NavAction::Refresh => ui_page,
    }
}

/// The plan for page `ui_page` of league `league_id`.
pub open spec fn plan_of(league_id: i32, ui_page: int, sizes: PageSizes) -> FetchPlan {
    FetchPlan {
        league_id,
        ui_page: ui_page as u32,
        remote_page: remote_page_of(ui_page, sizes.ui_rows(), sizes.remote_rows()) as u64,
    }
}

/// What is said of a footer that does not read as one.
pub open spec fn no_footer_text() -> Seq<char> {
    "Could not determine league ID"@
}

/// What is said of a page that cannot be counted.
pub open spec fn no_page_text() -> Seq<char> {
    "No such page"@
}

/// What is said of a button that is none of a standings view.
pub open spec fn unknown_button_text() -> Seq<char> {
    "Unknown button"@
}

/// A first request for a league: its first page, from the first remote
/// page.
pub fn initial_request(league_id: i32) -> (plan: FetchPlan)
    ensures
        plan == (FetchPlan { league_id, ui_page: 0, remote_page: 1 }),
{
    FetchPlan { league_id, ui_page: 0, remote_page: 1 }
}

/// The first plan is the plan for page zero, whatever the page sizes.
pub proof fn lemma_initial_plan(league_id: i32, sizes: PageSizes)
    requires
        sizes.ui_rows() >= 0,
        sizes.remote_rows() > 0,
    ensures
        plan_of(league_id, 0, sizes) == (FetchPlan { league_id, ui_page: 0, remote_page: 1 }),
{
    assert(0 * sizes.ui_rows() == 0) by (nonlinear_arith);
    vstd::arithmetic::div_mod::lemma_div_of0(sizes.remote_rows());
}

/// The plan for `action` on the view whose footer is `footer`. The page is
/// the target of the action from the footer's page, and the remote page is
/// loaded anew even where it is the one loaded before: points change. A
/// footer that does not read as one is a parse failure; the way forward
/// from the last page that can be counted is refused as input.
pub fn navigate(action: NavAction, footer: &str, sizes: &PageSizes) -> (r: Result<
    FetchPlan,
    FplBotError,
>)
    ensures
        match parse_footer(footer@) {
            None => r matches Err(FplBotError::Parse(detail)) && detail@ == no_footer_text(),
            Some(state) => if target_page(action, state.ui_page as int) <= u32::MAX {
                r == Ok::<FetchPlan, FplBotError>(
                    plan_of(state.league_id, target_page(action, state.ui_page as int), *sizes),
                )
            } else {
                r matches Err(FplBotError::Input(detail)) && detail@ == no_page_text()
            },
        },
{
    let state = match read_footer(footer) {
        Some(state) => state,
        None => {
            return Err(FplBotError::Parse(String::from_str("Could not determine league ID")));
        },
    };
    let page: u32 = match action {
        NavAction::Prev => if state.ui_page > 0 {
            state.ui_page - 1
        } else {
            0
        },
        NavAction::Next => {
            if state.ui_page == u32::MAX {
                return Err(FplBotError::Input(String::from_str("No such page")));
            }
            state.ui_page + 1
        },
        NavAction::Refresh => state.ui_page,
    };
    Ok(
        FetchPlan {
            league_id: state.league_id,
            ui_page: page,
            remote_page: remote_page_for(page, sizes.ui(), sizes.remote()),
        },
    )
}

/// The plan for a pressed button: `custom_id` is the button's token and
/// `footer` the footer of the view it stands under, if the view has one.
/// The action is the token's, whether or not the token goes on behind its
/// page; the page is the footer's. A token that does not read as one is
/// refused as input, a missing footer is a parse failure, and the rest is
/// as `navigate` says.
pub fn handle_standings_interaction(custom_id: &str, footer: Option<&str>, sizes: &PageSizes) -> (r:
    Result<FetchPlan, FplBotError>)
    ensures
        match (parse_token(custom_id@), footer) {
            (None, _) => r matches Err(FplBotError::Input(detail)) && detail@
                == unknown_button_text(),
            (Some(_), None) => r matches Err(FplBotError::Parse(detail)) && detail@
                == no_footer_text(),
            (Some((action, _)), Some(text)) => match parse_footer(text@) {
                None => r matches Err(FplBotError::Parse(detail)) && detail@ == no_footer_text(),
                Some(state) => if target_page(action, state.ui_page as int) <= u32::MAX {
                    r == Ok::<FetchPlan, FplBotError>(
                        plan_of(
                            state.league_id,
                            target_page(action, state.ui_page as int),
                            *sizes,
                        ),
                    )
                } else {
                    r matches Err(FplBotError::Input(detail)) && detail@ == no_page_text()
                },
            },
        },
{
    let action = match read_token(custom_id) {
        Some((action, _)) => action,
        None => {
            return Err(FplBotError::Input(String::from_str("Unknown button")));
        },
    };
    match footer {
        Some(text) => navigate(action, text, sizes),
        None => Err(FplBotError::Parse(String::from_str("Could not determine league ID"))),
    }
}

/// Whether `notice` tells the requester `content`, for a while and beside
/// the view.
pub open spec fn is_passing_notice(notice: ErrorNotice, content: Seq<char>) -> bool {
    notice.content@ == content && notice.ephemeral && !notice.replaces_view
}

/// What to do about a pressed button, whatever view it belongs to. A
/// button whose token does not begin as those of a standings view is
/// answered with the words `Unknown button`. A standings token that ends
/// with the word of its action, so that it has no field for a page, is
/// not answered at all. Any other token is handled as
/// `handle_standings_interaction` says: its plan is to be loaded, and its
/// failure is told as `fetch_failed` tells it.
pub fn handle_component_interaction(custom_id: &str, footer: Option<&str>, sizes: &PageSizes) -> (decision:
    ComponentDecision)
    ensures
        if !is_standings_token(custom_id@) {
            decision matches ComponentDecision::Tell(notice) && is_passing_notice(
                notice,
                unknown_button_text(),
            )
        } else if !has_page_field(custom_id@) {
            decision is Ignore
        } else {
            match (parse_token(custom_id@), footer) {
                (None, _) => decision matches ComponentDecision::Tell(notice) && is_passing_notice(
                    notice,
                    "Error: "@ + unknown_button_text(),
                ),
                (Some(_), None) => decision matches ComponentDecision::Tell(notice)
                    && is_passing_notice(notice, "Error: "@ + no_footer_text()),
                (Some((action, _)), Some(text)) => match parse_footer(text@) {
                    None => decision matches ComponentDecision::Tell(notice) && is_passing_notice(
                        notice,
                        "Error: "@ + no_footer_text(),
                    ),
                    Some(state) => if target_page(action, state.ui_page as int) <= u32::MAX {
                        decision matches ComponentDecision::Load(plan) && plan == plan_of(
                            state.league_id,
                            target_page(action, state.ui_page as int),
                            *sizes,
                        )
                    } else {
                        decision matches ComponentDecision::Tell(notice) && is_passing_notice(
                            notice,
                            "Error: "@ + no_page_text(),
                        )
                    },
                },
            }
        },
{
    let token = chars_of(custom_id);
    let mark = chars_of("standings_");
    if !matches_at(&token, 0, &mark) {
        return ComponentDecision::Tell(
            ErrorNotice {
                content: String::from_str("Unknown button"),
                ephemeral: true,
                replaces_view: false,
            },
        );
    }
    if find_from(&token, mark.len(), '_') >= token.len() {
        return ComponentDecision::Ignore;
    }
    match handle_standings_interaction(custom_id, footer, sizes) {
        Ok(plan) => ComponentDecision::Load(plan),
        Err(error) => ComponentDecision::Tell(fetch_failed(&error)),
    }
}

/// Whether `shown` is what to show for page `requested` once the remote
/// page loaded for it has arrived as `standings`: the page is held back to
/// the last page that the rows now known reach, and view, open ways and
/// buttons are those of that page.
pub open spec fn is_presentation_of(
    shown: Presentation,
    requested: int,
    standings: LeagueStandings,
    sizes: PageSizes,
) -> bool {
    let rows = standings.standings.managers@;
    let has_next = standings.standings.has_next;
    let total = known_rows_of(requested, rows.len() as int, sizes);
    let page = clamped_page(requested, total, sizes.ui_rows());
    let actions = nav_of(page, sizes.ui_rows(), total, has_next);
    &&& shown.ui_page == page
    &&& is_view_of(
        shown.view,
        rows,
        standings.league_info,
        page,
        page_total_of(has_next, total, sizes),
        sizes,
    )
    &&& shown.actions == actions
    &&& are_buttons_of(shown.buttons, page, actions)
}

/// The footer of what is shown reads back as the league and the page that
/// are shown, and the tokens of its buttons as their actions on that page:
/// nothing else has to be kept to go on from a view.
pub proof fn lemma_shown_view_reads_back(
    shown: Presentation,
    requested: int,
    standings: LeagueStandings,
    sizes: PageSizes,
)
    requires
        is_presentation_of(shown, requested, standings, sizes),
    ensures
        parse_footer(shown.view.footer@) == Some(
            FooterState { league_id: standings.league_info.id, ui_page: shown.ui_page },
        ),
        parse_token(shown.buttons.prev.custom_id@) == Some((NavAction::Prev, shown.ui_page)),
        parse_token(shown.buttons.next.custom_id@) == Some((NavAction::Next, shown.ui_page)),
        parse_token(shown.buttons.refresh.custom_id@) == Some((NavAction::Refresh, shown.ui_page)),
{
    let rows = standings.standings.managers@;
    let total = known_rows_of(requested, rows.len() as int, sizes);
    let page = shown.ui_page as int;
    lemma_footer_reads_back(
        standings.league_info.id as int,
        page,
        page_total_of(standings.standings.has_next, total, sizes),
    );
    lemma_token_reads_back(NavAction::Prev, page);
    lemma_token_reads_back(NavAction::Next, page);
    lemma_token_reads_back(NavAction::Refresh, page);
}

/// What to show for page `requested` once the remote page loaded for it
/// has arrived.
pub fn present(requested: u32, standings: &LeagueStandings, sizes: &PageSizes) -> (shown:
    Presentation)
    ensures
        is_presentation_of(shown, requested as int, *standings, *sizes),
        shown.ui_page <= requested,
{
    let rows = &standings.standings.managers;
    let has_next = standings.standings.has_next;
    let total = known_rows(requested, rows.len(), sizes);
    let page = clamp_page(requested, total, sizes.ui());
    let actions = nav_state(page, sizes.ui(), total, has_next);
    let view = render(rows, &standings.league_info, page, page_total(has_next, total, sizes), sizes);
    Presentation { ui_page: page, view, actions, buttons: buttons_for(page, actions) }
}

/// What to tell the requester when loading failed, or anything else on the
/// way to a view: a passing notice. The view shown before is not replaced.
pub fn fetch_failed(error: &FplBotError) -> (notice: ErrorNotice)
    ensures
        notice.content@ == notice_text(*error),
        notice.ephemeral,
        !notice.replaces_view,
{
    ErrorNotice { content: notice_of(error), ephemeral: true, replaces_view: false }
}

/// What to answer to a command that failed: `Error: ` and the words of
/// the failure, for all to see, as there is no view yet that they could
/// stand beside.
pub fn command_failed(error: &FplBotError) -> (notice: ErrorNotice)
    ensures
        notice.content@ == command_notice_text(*error),
        !notice.ephemeral,
        !notice.replaces_view,
{
    ErrorNotice { content: command_notice_of(error), ephemeral: false, replaces_view: false }
}

} // verus!
