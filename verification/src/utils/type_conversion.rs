//! Command options as the chat platform hands them over, and the numbers
//! read from them.

use crate::utils::error::FplBotError;
use vstd::prelude::*;

verus! {

/// The value of a command option.
#[derive(Debug, Clone)]
pub enum ResolvedValue {
    /// A whole number.
    Integer(i64),
    /// A user of the chat platform, by identifier and name.
    User(u64, String),
    /// A value of any other kind.
    Other,
}

/// A command option: its name and its value.
#[derive(Debug, Clone)]
pub struct ResolvedOption {
    /// The option's name
    pub name: String,
    /// The option's value
    pub value: ResolvedValue,
}

/// Whether `id` can be the number of a league, a manager or a gameweek:
/// these are numbers of 32 bits.
pub open spec fn fits_id(id: int) -> bool {
    i32::MIN <= id <= i32::MAX
}

/// The number that an option holds, where it holds one that fits.
pub open spec fn option_number(option: ResolvedOption) -> Option<i32> {
    match option.value {
        ResolvedValue::Integer(id) => if fits_id(id as int) {
            Some(id as i32)
        } else {
            None
        },
        _ => None,
    }
}

/// What is said of an option that holds no number.
pub open spec fn not_an_integer_text() -> Seq<char> {
    "Option is not an integer"@
}

/// The number that `option` holds. An option of another kind, or a number
/// beyond 32 bits, is refused as input.
pub fn r_option_to_i32(option: &ResolvedOption) -> (r: Result<i32, FplBotError>)
    ensures
        match option_number(*option) {
            Some(id) => r == Ok::<i32, FplBotError>(id),
            None => r matches Err(FplBotError::Input(detail)) && detail@ == not_an_integer_text(),
        },
{
    match &option.value {
        ResolvedValue::Integer(id) => {
            if *id >= -2147483648 && *id <= 2147483647 {
                return Ok(*id as i32);
            }
        },
        _ => {},
    }
    Err(FplBotError::Input(String::from_str("Option is not an integer")))
}

/// The number that the first of `options` holds, or as failure the words
/// `otherwise`, where there is no option or it holds no number that fits.
pub fn first_number(options: &Vec<ResolvedOption>, otherwise: &str) -> (r: Result<
    i32,
    FplBotError,
>)
    ensures
        match first_option_number(options@) {
            Some(id) => r == Ok::<i32, FplBotError>(id),
            None => r matches Err(FplBotError::Input(detail)) && detail@ == otherwise@,
        },
{
    if options.len() > 0 {
        match r_option_to_i32(&options[0]) {
            Ok(id) => {
                return Ok(id);
            },
            Err(_) => {},
        }
    }
    Err(FplBotError::Input(String::from_str(otherwise)))
}

/// The number that the first of `options` holds, where there is a first
/// and it holds one that fits.
pub open spec fn first_option_number(options: Seq<ResolvedOption>) -> Option<i32> {
    if options.len() > 0 {
        option_number(options[0])
    } else {
        None
    }
}

} // verus!
