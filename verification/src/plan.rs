//! The plan for one file: whether it is transferred, where to, and how.

use vstd::prelude::*;
use vstd::string::*;
use crate::destination::{build_dest_folder, destination_of, first_unrenderable, names_template, Destination, DestinationModel};
use crate::errors::FileError;
use crate::instant::Timestamp;
use crate::qualifier::{file_qualifies, qualifies, DirEntryInfo, EntryModel};
use crate::settings::{DateComparator, Recipe, RecipeModel};

verus! {

/// How a selected file reaches its destination.
#[derive(Clone, Copy, Debug, PartialEq, Eq, Structural)]
pub enum Operation {
    Move,
    Copy,
}

/// The operation a recipe asks for.
pub open spec fn operation_of(recipe: RecipeModel) -> Operation {
    if recipe.move_files {
        Operation::Move
    } else {
        Operation::Copy
    }
}

impl Operation {
    /// The error of a file that this operation could not handle, with its
    /// cause.
    pub fn failure(&self, cause: String) -> (e: FileError)
        ensures
            e == (match *self {
                Operation::Move => FileError::Move(cause),
                Operation::Copy => FileError::Copy(cause),
            }),
    {
        match self {
            Operation::Move => FileError::Move(cause),
            Operation::Copy => FileError::Copy(cause),
        }
    }
}

/// The error of a file whose reference timestamp could not be read, with its
/// cause: it names the timestamp that the recipe compares.
pub fn timestamp_failure(recipe: &Recipe, cause: String) -> (e: FileError)
    ensures
        e == (match recipe@.comparator() {
            DateComparator::CreationDate => FileError::CreationDate(cause),
            DateComparator::ModificationDate => FileError::ModificationDate(cause),
        }),
{
    match recipe.comparator() {
        DateComparator::CreationDate => FileError::CreationDate(cause),
        DateComparator::ModificationDate => FileError::ModificationDate(cause),
    }
}

/// What is to be done with a selected file.
#[derive(Clone, Debug, PartialEq, Eq)]
pub struct Transfer {
    /// The directory the file goes to.
    pub destination: Destination,
    /// The name of the file, the same at both ends.
    pub file_name: String,
    pub operation: Operation,
    /// Whether the filesystem is to be touched: false in a dry run, where the
    /// transfer is only reported.
    pub perform: bool,
}

/// The decision on one directory entry.
#[derive(Clone, Debug, PartialEq, Eq)]
pub enum FileStep {
    /// The entry does not qualify: nothing is done.
    Skip,
    /// The entry qualifies.
    Transfer(Transfer),
}

/// Whether a decision touches the filesystem.
pub open spec fn touches_filesystem(step: FileStep) -> bool {
    match step {
        FileStep::Skip => false,
        FileStep::Transfer(t) => t.perform,
    }
}

/// Decides what to do with `entry`, whose reference timestamp is `date`.
///
/// An entry that does not qualify is skipped. One that qualifies is
/// transferred, under its own name, to the destination built from `date`, by
/// the recipe's operation; the filesystem is touched unless `dry_run`. Where
/// the entry qualifies but a template cannot be rendered, the first such
/// template is reported.
pub fn plan_for_file(
    entry: &DirEntryInfo,
    recipe: &Recipe,
    date: &Timestamp,
    boundary: &Timestamp,
    dry_run: bool,
) -> (r: Result<FileStep, FileError>)
    ensures
        is_plan_for(r, entry@, recipe@, date@, boundary@, dry_run),
{
    if !file_qualifies(entry, recipe, date, boundary) {
        return Ok(FileStep::Skip);
    }
    match build_dest_folder(recipe, date) {
        Ok(destination) => {
            let operation = if recipe.move_files {
                Operation::Move
            } else {
                Operation::Copy
            };
            Ok(
                FileStep::Transfer(
                    Transfer {
                        destination,
                        file_name: entry.file_name.clone(),
                        operation,
                        perform: !dry_run,
                    },
                ),
            )
        },
        Err(e) => Err(e),
    }
}

/// An entry of a directory snapshot, with its reference timestamp.
pub struct DatedEntry {
    pub entry: EntryModel,
    pub date: (int, int),
}

/// The entries of a snapshot that a recipe selects, each with its
/// destination.
pub open spec fn selection(
    snapshot: Seq<DatedEntry>,
    recipe: RecipeModel,
    boundary: (int, int),
) -> Set<(DatedEntry, Option<DestinationModel>)> {
    Set::new(
        |pair: (DatedEntry, Option<DestinationModel>)|
            snapshot.contains(pair.0) && qualifies(pair.0.entry, recipe, pair.0.date, boundary)
                && pair.1 == destination_of(recipe, pair.0.date),
    )
}

/// The order in which the entries of a directory are handled changes neither
/// which of them are selected nor where each of them goes: two orders of one
/// snapshot give the same selection.
pub proof fn lemma_selection_ignores_order(
    first: Seq<DatedEntry>,
    second: Seq<DatedEntry>,
    recipe: RecipeModel,
    boundary: (int, int),
)
    requires
        first.to_multiset() == second.to_multiset(),
    ensures
        selection(first, recipe, boundary) == selection(second, recipe, boundary),
{
    assert forall|e: DatedEntry| first.contains(e) == second.contains(e) by {
        vstd::seq_lib::to_multiset_contains(first, e);
        vstd::seq_lib::to_multiset_contains(second, e);
    }
    assert(selection(first, recipe, boundary) =~= selection(second, recipe, boundary));
}

/// What is decided for an entry, as a mathematical value: nothing for one
/// that does not qualify; else its destination, or none where a template
/// cannot be rendered.
pub open spec fn decision(
    entry: EntryModel,
    recipe: RecipeModel,
    date: (int, int),
    boundary: (int, int),
) -> Option<Option<DestinationModel>> {
    if qualifies(entry, recipe, date, boundary) {
        Some(destination_of(recipe, date))
    } else {
        None
    }
}

/// What a plan decides, whether or not it is carried out.
pub open spec fn decided(plan: Result<FileStep, FileError>) -> Option<
    Option<DestinationModel>,
> {
    match plan {
        Ok(FileStep::Skip) => None,
        Ok(FileStep::Transfer(t)) => Some(Some(t.destination@)),
        Err(_) => Some(None),
    }
}

/// Whether a plan counts as a match once it is reported.
pub open spec fn is_match(plan: Result<FileStep, FileError>) -> bool {
    plan matches Ok(FileStep::Transfer(_))
}

/// A plan that touches nothing: it skips, fails, or only reports.
pub open spec fn leaves_filesystem(plan: Result<FileStep, FileError>) -> bool {
    match plan {
        Ok(step) => !touches_filesystem(step),
        Err(_) => true,
    }
}

/// `plan` is what `plan_for_file` may return for these arguments.
pub open spec fn is_plan_for(
    plan: Result<FileStep, FileError>,
    entry: EntryModel,
    recipe: RecipeModel,
    date: (int, int),
    boundary: (int, int),
    dry_run: bool,
) -> bool {
    match plan {
        Ok(FileStep::Skip) => !qualifies(entry, recipe, date, boundary),
        Ok(FileStep::Transfer(t)) => {
            &&& qualifies(entry, recipe, date, boundary)
            &&& destination_of(recipe, date) == Some(t.destination@)
            &&& t.file_name@ == entry.file_name
            &&& t.operation == operation_of(recipe)
            &&& t.perform == !dry_run
        },
        Err(e) => {
            &&& qualifies(entry, recipe, date, boundary)
            &&& destination_of(recipe, date).is_none()
            &&& exists|k: int|
                #![trigger recipe.templates()[k]]
                first_unrenderable(recipe.templates(), date, k) && names_template(
                    e,
                    recipe.templates()[k],
                )
        },
    }
}

/// A dry run touches nothing and still decides what a real run decides: for
/// one entry, the plan of a dry run leaves the filesystem alone, and it is a
/// match, with the same destination, exactly when the plan of a real run is.
pub proof fn lemma_dry_run_decides_alike(
    dry: Result<FileStep, FileError>,
    wet: Result<FileStep, FileError>,
    entry: EntryModel,
    recipe: RecipeModel,
    date: (int, int),
    boundary: (int, int),
)
    requires
        is_plan_for(dry, entry, recipe, date, boundary, true),
        is_plan_for(wet, entry, recipe, date, boundary, false),
    ensures
        leaves_filesystem(dry),
        is_match(dry) == is_match(wet),
        decided(dry) == decided(wet),
        decided(dry) == decision(entry, recipe, date, boundary),
{
}

} // verus!
