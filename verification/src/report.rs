//! What is shown to the user: a recipe's description, durations, and the
//! text of recipe-scoped errors.

use vstd::prelude::*;
use vstd::string::*;
use crate::errors::RecipeError;
use crate::plan::Operation;
use crate::stats::FileOrganizerStats;
use crate::settings::{optional_texts, DateComparator, Recipe, RecipeModel};
use crate::text::{append_decimal, append_natural, decimal, join, joined};

verus! {

/// A duration of `seconds` seconds in words: seconds alone under a minute,
/// then minutes, hours and days as they are reached, each part followed by
/// its unit.
pub open spec fn duration_text(seconds: int) -> Seq<char> {
    if seconds < 60 {
        decimal(seconds) + "s"@
    } else if seconds < 3600 {
        decimal(seconds / 60) + "m "@ + decimal(seconds % 60) + "s"@
    } else if seconds < 86400 {
        decimal(seconds / 3600) + "h "@ + decimal((seconds % 3600) / 60) + "m "@ + decimal(
            seconds % 60,
        ) + "s"@
    } else {
        decimal(seconds / 86400) + "d "@ + decimal((seconds % 86400) / 3600) + "h "@ + decimal(
            (seconds % 3600) / 60,
        ) + "m "@ + decimal(seconds % 60) + "s"@
    }
}

/// Writes a duration of `seconds` seconds in words.
pub fn seconds_to_string(seconds: i64) -> (r: String)
    ensures
        r@ == duration_text(seconds as int),
{
    let mut out = String::new();
    if seconds < 60 {
        append_decimal(&mut out, seconds);
        out.append("s");
        assert(out@ =~= duration_text(seconds as int));
        return out;
    }
    if seconds >= 86400 {
        append_decimal(&mut out, seconds / 86400);
        out.append("d ");
    }
    if seconds >= 3600 {
        append_decimal(
            &mut out,
            if seconds >= 86400 {
                (seconds % 86400) / 3600
            } else {
                seconds / 3600
            },
        );
        out.append("h ");
    }
    append_decimal(
        &mut out,
        if seconds >= 3600 {
            (seconds % 3600) / 60
        } else {
            seconds / 60
        },
    );
    out.append("m ");
    append_decimal(&mut out, seconds % 60);
    out.append("s");
    assert(out@ =~= duration_text(seconds as int));
    out
}

/// The name of a comparator.
pub open spec fn comparator_label(comparator: DateComparator) -> Seq<char> {
    match comparator {
        DateComparator::CreationDate => "CreationDate"@,
        DateComparator::ModificationDate => "ModificationDate"@,
    }
}

impl DateComparator {
    /// The name of this comparator.
    pub fn label(&self) -> (r: &'static str)
        ensures
            r@ == comparator_label(*self),
    {
        match self {
            DateComparator::CreationDate => "CreationDate",
            DateComparator::ModificationDate => "ModificationDate",
        }
    }
}

/// The notice given for a file that was handled by an operation.
pub open spec fn operation_notice(operation: Operation) -> Seq<char> {
    match operation {
        Operation::Move => "File moved"@,
        Operation::Copy => "File copied"@,
    }
}

impl Operation {
    /// The notice given for a file that this operation handled.
    pub fn notice(&self) -> (r: &'static str)
        ensures
            r@ == operation_notice(*self),
    {
        match self {
            Operation::Move => "File moved",
            Operation::Copy => "File copied",
        }
    }
}

/// One line of a recipe's description.
#[derive(Clone, Debug, PartialEq, Eq)]
pub struct InfoLine {
    pub label: String,
    pub value: String,
}

impl View for InfoLine {
    type V = (Seq<char>, Seq<char>);

    open spec fn view(&self) -> (Seq<char>, Seq<char>) {
        (self.label@, self.value@)
    }
}

/// The lines of a list, as pairs of label and value.
pub open spec fn line_pairs(lines: Seq<InfoLine>) -> Seq<(Seq<char>, Seq<char>)> {
    Seq::new(lines.len(), |i: int| lines[i]@)
}

/// A list written with commas, or `absent` where there is no list.
pub open spec fn listed(items: Option<Seq<Seq<char>>>, absent: Seq<char>) -> Seq<char> {
    match items {
        Some(list) => joined(list, ", "@),
        None => absent,
    }
}

/// The description of a recipe: its folders, its last run or `Never`, its
/// mode, its extensions and its subfolder templates written with commas, and
/// the comparator in force.
pub open spec fn description(recipe: RecipeModel) -> Seq<(Seq<char>, Seq<char>)> {
    seq![
        ("Source folder"@, recipe.source_folder),
        ("Target folder"@, recipe.destination_folder),
        (
            "Last run"@,
            match recipe.last_run {
                Some(day) => day,
                None => "Never"@,
            },
        ),
        (
            "Mode"@,
            if recipe.move_files {
                "Move"@
            } else {
                "Copy"@
            },
        ),
        ("Allowed extensions"@, listed(recipe.allowed_extensions, "All"@)),
        ("Subfolders"@, listed(recipe.subfolders, "None"@)),
        ("Date comparator"@, comparator_label(recipe.comparator())),
    ]
}

fn line(label: &str, value: String) -> (r: InfoLine)
    ensures
        r@ == (label@, value@),
{
    InfoLine { label: String::from_str(label), value }
}

fn list_text(items: &Option<Vec<String>>, absent: &str) -> (r: String)
    ensures
        r@ == listed(optional_texts(*items), absent@),
{
    match items {
        Some(list) => join(list, ", "),
        None => String::from_str(absent),
    }
}

/// Describes `recipe`, line by line.
pub fn recipe_info(recipe: &Recipe) -> (r: Vec<InfoLine>)
    ensures
        line_pairs(r@) == description(recipe@),
{
    let mut lines: Vec<InfoLine> = Vec::new();
    lines.push(line("Source folder", recipe.source_folder.clone()));
    lines.push(line("Target folder", recipe.destination_folder.clone()));
    lines.push(
        line(
            "Last run",
            match &recipe.last_run {
                Some(day) => day.clone(),
                None => String::from_str("Never"),
            },
        ),
    );
    lines.push(
        line(
            "Mode",
            String::from_str(
                if recipe.move_files {
                    "Move"
                } else {
                    "Copy"
                },
            ),
        ),
    );
    lines.push(line("Allowed extensions", list_text(&recipe.allowed_extensions, "All")));
    lines.push(line("Subfolders", list_text(&recipe.subfolders, "None")));
    lines.push(line("Date comparator", String::from_str(recipe.comparator().label())));
    assert(line_pairs(lines@) =~= description(recipe@));
    lines
}

/// Milliseconds in whole seconds, the fraction dropped.
pub open spec fn whole_seconds(millis: int) -> int {
    if millis >= 0 {
        millis / 1000
    } else {
        -((-millis) / 1000)
    }
}

/// The report of a recipe's statistics: the three counts, and the time taken
/// in words.
pub open spec fn stats_report(stats: FileOrganizerStats) -> Seq<(Seq<char>, Seq<char>)> {
    seq![
        ("Files matched"@, decimal(stats.files_matched as int)),
        ("Files processed"@, decimal(stats.files_processed as int)),
        ("Files failed"@, decimal(stats.files_failed as int)),
        ("Elapsed time"@, duration_text(whole_seconds(stats.elapsed_time as int))),
    ]
}

fn count_text(count: usize) -> (r: String)
    ensures
        r@ == decimal(count as int),
{
    let mut out = String::new();
    append_natural(&mut out, count as u64);
    assert(out@ =~= decimal(count as int));
    out
}

impl FileOrganizerStats {
    /// The time taken, in whole seconds.
    pub fn elapsed_seconds(&self) -> (r: i64)
        ensures
            r == whole_seconds(self.elapsed_time as int),
    {
        if self.elapsed_time >= 0 {
            self.elapsed_time / 1000
        } else {
            let shifted: i64 = -(self.elapsed_time + 1);
            let seconds: i64 = if shifted % 1000 == 999 {
                shifted / 1000 + 1
            } else {
                shifted / 1000
            };
            -seconds
        }
    }

    /// The statistics, line by line.
    pub fn report(&self) -> (r: Vec<InfoLine>)
        ensures
            line_pairs(r@) == stats_report(*self),
    {
        let mut lines: Vec<InfoLine> = Vec::new();
        lines.push(line("Files matched", count_text(self.files_matched)));
        lines.push(line("Files processed", count_text(self.files_processed)));
        lines.push(line("Files failed", count_text(self.files_failed)));
        lines.push(line("Elapsed time", seconds_to_string(self.elapsed_seconds())));
        assert(line_pairs(lines@) =~= stats_report(*self));
        lines
    }
}

/// The text of a recipe-scoped error of `recipe`.
pub open spec fn recipe_error_text(error: RecipeError, recipe: RecipeModel) -> Seq<char> {
    match error {
        RecipeError::SourceNotDirectory => recipe.name + " - Source folder not a directory: "@
            + recipe.source_folder,
        RecipeError::TargetNotDirectory => recipe.name + " - Target folder not a directory: "@
            + recipe.destination_folder,
        RecipeError::InvalidLastRun => recipe.name + " - Last run is not a date: "@ + match recipe.last_run {
            Some(day) => day,
            None => Seq::empty(),
        },
    }
}

impl RecipeError {
    /// The message shown for this error of `recipe`.
    pub fn message(&self, recipe: &Recipe) -> (r: String)
        ensures
            r@ == recipe_error_text(*self, recipe@),
    {
        let out = recipe.name.clone();
        match self {
            RecipeError::SourceNotDirectory => out.concat(" - Source folder not a directory: ").concat(
                recipe.source_folder.as_str(),
            ),
            RecipeError::TargetNotDirectory => out.concat(" - Target folder not a directory: ").concat(
                recipe.destination_folder.as_str(),
            ),
            RecipeError::InvalidLastRun => {
                let out = out.concat(" - Last run is not a date: ");
                match &recipe.last_run {
                    Some(day) => out.concat(day.as_str()),
                    None => {
                        assert(out@ + Seq::<char>::empty() =~= out@);
                        out
                    },
                }
            },
        }
    }
}

} // verus!
