//! Instants on the UTC time line, the date boundary of a recipe, and the
//! rendering of an instant through a date-format template.

use vstd::prelude::*;
use vstd::string::*;
use crate::errors::{FileError, RecipeError};
use crate::settings::{Recipe, RecipeModel};

verus! {

/// An instant: whole seconds since 1970-01-01 00:00:00 UTC, and the
/// nanoseconds into that second.
#[derive(Clone, Copy, Debug, PartialEq, Eq, Structural)]
pub struct Timestamp {
    pub secs: i64,
    pub nanos: u32,
}

impl View for Timestamp {
    type V = (int, int);

    open spec fn view(&self) -> (int, int) {
        (self.secs as int, self.nanos as int)
    }
}

/// `a` is not earlier than `b`: seconds decide, then nanoseconds.
pub open spec fn at_or_after(a: (int, int), b: (int, int)) -> bool {
    a.0 > b.0 || (a.0 == b.0 && a.1 >= b.1)
}

impl Timestamp {
    /// Whether this instant is `other` or a later one.
    pub fn is_at_or_after(&self, other: &Timestamp) -> (r: bool)
        ensures
            r == at_or_after(self@, other@),
    {
        self.secs > other.secs || (self.secs == other.secs && self.nanos >= other.nanos)
    }
}

/// The outside parser's error, carried through unread.
#[verifier::external_type_specification]
#[verifier::external_body]
pub struct ExParseError(chrono::ParseError);

/// The instant that chrono reads out of `text` under the pattern `pattern`,
/// as seconds and nanoseconds, where it reads one.
pub uninterp spec fn parsed_instant(text: Seq<char>, pattern: Seq<char>) -> Option<(int, int)>;

/// The text that chrono writes for the UTC instant of `secs` seconds and
/// `nanos` nanoseconds under the pattern `pattern`; none where the instant is
/// outside chrono's range or the pattern is malformed.
pub uninterp spec fn rendered(secs: int, nanos: int, pattern: Seq<char>) -> Option<Seq<char>>;

/// Calls chrono's `DateTime::parse_from_str` and takes the result's
/// `timestamp` and `timestamp_subsec_nanos`. Trusted: the outcome depends on
/// the two texts alone, and contracts name it `parsed_instant`.
#[verifier::external_body]
pub(crate) fn parse_instant(text: &str, pattern: &str) -> (r: Result<Timestamp, chrono::ParseError>)
    ensures
        match r {
            Ok(t) => parsed_instant(text@, pattern@) == Some(t@),
            Err(_) => parsed_instant(text@, pattern@).is_none(),
        },
{
    match chrono::DateTime::parse_from_str(text, pattern) {
        Ok(date) => Ok(Timestamp { secs: date.timestamp(), nanos: date.timestamp_subsec_nanos() }),
        Err(e) => Err(e),
    }
}

/// Calls chrono's `DateTime::format` on the UTC instant that
/// `DateTime::from_timestamp` makes of `at`, and writes the outcome into a
/// string. Trusted: the text depends on the instant and the pattern alone,
/// and contracts name it `rendered`; an instant out of range or a malformed
/// pattern gives `None`.
#[verifier::external_body]
pub(crate) fn render_instant(at: &Timestamp, pattern: &str) -> (r: Option<String>)
    ensures
        match r {
            Some(text) => rendered(at@.0, at@.1, pattern@) == Some(text@),
            None => rendered(at@.0, at@.1, pattern@).is_none(),
        },
{
    let date = chrono::DateTime::from_timestamp(at.secs, at.nanos)?;
    let mut text = String::new();
    match date.format(pattern).write_to(&mut text) {
        Ok(()) => Some(text),
        Err(_) => None,
    }
}

/// The instant a recipe filters against: midnight UTC of its last-run date,
/// or the start of 1970 where it has never run. None where the stored date
/// cannot be read as one.
pub open spec fn date_boundary(recipe: RecipeModel) -> Option<(int, int)> {
    match recipe.last_run {
        None => Some((0int, 0int)),
        Some(day) => parsed_instant(day + " 00:00:00 +0000"@, "%Y-%m-%d %H:%M:%S %z"@),
    }
}

/// Resolves the date boundary of `recipe`.
pub fn get_date_boundary(recipe: &Recipe) -> (r: Result<Timestamp, RecipeError>)
    ensures
        match r {
            Ok(t) => date_boundary(recipe@) == Some(t@),
            Err(e) => e == RecipeError::InvalidLastRun && date_boundary(recipe@).is_none(),
        },
{
    match &recipe.last_run {
        None => Ok(Timestamp { secs: 0, nanos: 0 }),
        Some(day) => {
            let text = day.clone().concat(" 00:00:00 +0000");
            match parse_instant(text.as_str(), "%Y-%m-%d %H:%M:%S %z") {
                Ok(t) => Ok(t),
                Err(_) => Err(RecipeError::InvalidLastRun),
            }
        },
    }
}

/// The folder name that a template gives for an instant: the rendered
/// instant, or the empty name where there is no template.
pub open spec fn folder_name(date: (int, int), format: Option<Seq<char>>) -> Option<Seq<char>> {
    match format {
        Some(pattern) => rendered(date.0, date.1, pattern),
        None => Some(Seq::empty()),
    }
}

/// Renders `date` through `format` into a folder name. Fails with the
/// template where it cannot be rendered.
pub fn date_to_folder_name(date: &Timestamp, format: &Option<String>) -> (r: Result<
    String,
    FileError,
>)
    ensures
        match r {
            Ok(name) => folder_name(date@, crate::settings::optional_text(*format)) == Some(name@),
            Err(e) => format.is_some() && e == FileError::Template(format.unwrap())
                && folder_name(date@, crate::settings::optional_text(*format)).is_none(),
        },
{
    match format {
        Some(pattern) => match render_instant(date, pattern.as_str()) {
            Some(name) => Ok(name),
            None => Err(FileError::Template(pattern.clone())),
        },
        None => Ok(String::new()),
    }
}

} // verus!
