//! Fantasy-league data for a chat bot, with the rules stated as contracts
//! and proved.
//!
//! The heart of the crate is the paginated standings view. A league's
//! standings come from a remote source in pages of fifty rows; the bot
//! shows them in pages of twenty-five, as a table of fixed width with
//! buttons to go back, on, or to load again. Between two presses of a
//! button the bot keeps nothing: the footer of the view says which league
//! and page it shows, and is read back on the next press.
//!
//! - [`paging`] relates pages of the view to pages of the remote source and
//!   says which ways are open from a page.
//! - [`bot::commands::standings`] lays out the table, the title and the
//!   buttons; [`bot::footer`] and [`bot::token`] write and read the state
//!   that travels with a view.
//! - [`bot::handlers`] is the view controller: from an interaction to what
//!   is to be loaded, and from what was loaded to what is to be shown.
//! - [`bot::commands`] holds the other commands, [`fpl`] the shapes of the
//!   remote source's answers and the questions it is asked, [`database`]
//!   the records kept, and [`utils`] failures and command options.
//! - [`text`] and [`decimal`] are the groundwork: text as code points, and
//!   numbers as text.
//!
//! Nothing here reaches out: asking the remote source, the database and the
//! chat platform is left to the caller, who hands over plain values and
//! gets plain values back.

pub mod bot;
pub mod database;
pub mod decimal;
pub mod fpl;
pub mod paging;
pub mod text;
pub mod utils;
