//! The engine: the recipe set of one process run, normalised when it is
//! made and stamped when a pass over it ends.

use vstd::prelude::*;
use vstd::string::*;
use crate::instant::{render_instant, rendered, Timestamp};
use crate::pass::{is_completed, RecipeState};
use crate::settings::{recipe_models, texts, RecipeModel, Settings};
use crate::text::{lowercase_of, to_lowercase};

verus! {

/// A recipe with every allowed extension in lowercase.
pub open spec fn normalized(recipe: RecipeModel) -> RecipeModel {
    RecipeModel {
        allowed_extensions: match recipe.allowed_extensions {
            Some(list) => Some(Seq::new(list.len(), |j: int| lowercase_of(list[j]))),
            None => None,
        },
        ..recipe
    }
}

/// A recipe whose last run is `day`.
pub open spec fn stamped(recipe: RecipeModel, day: Seq<char>) -> RecipeModel {
    RecipeModel { last_run: Some(day), ..recipe }
}

fn lowercase_all(list: &Vec<String>) -> (r: Vec<String>)
    ensures
        texts(r@) == Seq::new(list@.len(), |j: int| lowercase_of(texts(list@)[j])),
{
    let mut lowered: Vec<String> = Vec::new();
    let mut i: usize = 0;
    while i < list.len()
        invariant
            i <= list.len(),
            lowered@.len() == i,
            forall|j: int| 0 <= j < i ==> (#[trigger] lowered@[j])@ == lowercase_of(list@[j]@),
        decreases list.len() - i,
    {
        lowered.push(to_lowercase(list[i].as_str()));
        i += 1;
    }
    assert(texts(lowered@) =~= Seq::new(list@.len(), |j: int| lowercase_of(texts(list@)[j])));
    lowered
}

/// The engine's state for one process run.
#[derive(Debug)]
pub struct FileOrganizer {
    settings: Settings,
    is_dry_run: bool,
    is_iterative: bool,
}

/// The engine as a mathematical value.
pub struct OrganizerModel {
    pub recipes: Seq<RecipeModel>,
    pub path: Seq<char>,
    pub is_dry_run: bool,
    pub is_iterative: bool,
}

/// How a pass over all recipes ends.
#[derive(Clone, Copy, Debug, PartialEq, Eq, Structural)]
pub enum PassEnd {
    /// A dry run: no watermark moved, nothing to persist.
    DryRun,
    /// The completed recipes carry the pass's date and are to be persisted.
    Stamped,
    /// The pass's date could not be rendered: no watermark moved.
    DateUnavailable,
}

impl View for FileOrganizer {
    type V = OrganizerModel;

    closed spec fn view(&self) -> OrganizerModel {
        OrganizerModel {
            recipes: recipe_models(self.settings.recipes@),
            path: self.settings.path@,
            is_dry_run: self.is_dry_run,
            is_iterative: self.is_iterative,
        }
    }
}

impl FileOrganizer {
    /// An engine over `settings`, with every allowed extension of every
    /// recipe put in lowercase.
    pub fn new(settings: Settings, is_dry_run: bool, is_iterative: bool) -> (r: FileOrganizer)
        ensures
            r@.is_dry_run == is_dry_run,
            r@.is_iterative == is_iterative,
            r@.path == settings.path@,
            r@.recipes.len() == settings.recipes@.len(),
            forall|i: int|
                0 <= i < settings.recipes@.len() ==> #[trigger] r@.recipes[i] == normalized(
                    settings.recipes@[i]@,
                ),
    {
        let ghost before = settings.recipes@;
        let ghost path_before = settings.path@;
        let mut settings = settings;
        let mut i: usize = 0;
        while i < settings.recipes.len()
            invariant
                i <= settings.recipes@.len(),
                settings.recipes@.len() == before.len(),
                settings.path@ == path_before,
                forall|j: int| 0 <= j < i ==> (#[trigger] settings.recipes@[j])@ == normalized(before[j]@),
                forall|j: int| i <= j < before.len() ==> #[trigger] settings.recipes@[j] == before[j],
            decreases settings.recipes@.len() - i,
        {
            let lowered = match &settings.recipes[i].allowed_extensions {
                Some(list) => Some(lowercase_all(list)),
                None => None,
            };
            settings.recipes[i].allowed_extensions = lowered;
            assert(settings.recipes@[i as int]@.allowed_extensions =~= normalized(
                before[i as int]@,
            ).allowed_extensions);
            i += 1;
        }
        FileOrganizer { settings, is_dry_run, is_iterative }
    }

    /// The recipe set, as it stands.
    pub fn settings(&self) -> (r: &Settings)
        ensures
            recipe_models(r.recipes@) == self@.recipes,
            r.path@ == self@.path,
    {
        &self.settings
    }

    /// Whether this is a dry run: decisions are reported, the filesystem and
    /// the watermarks stay as they are.
    pub fn is_dry_run(&self) -> (r: bool)
        ensures
            r == self@.is_dry_run,
    {
        self.is_dry_run
    }

    /// Whether the entries of a directory are handled one after another, in
    /// the order of their paths, and not by a pool of workers.
    pub fn is_iterative(&self) -> (r: bool)
        ensures
            r == self@.is_iterative,
    {
        self.is_iterative
    }

    /// Gives each recipe whose state in `completed` (by its position) is
    /// `Done` the date `day` for its last run. The other recipes, and every
    /// other field, stay as they were.
    pub fn stamp_completed(&mut self, completed: &Vec<RecipeState>, day: &String)
        ensures
            final(self)@.is_dry_run == old(self)@.is_dry_run,
            final(self)@.is_iterative == old(self)@.is_iterative,
            final(self)@.path == old(self)@.path,
            final(self)@.recipes.len() == old(self)@.recipes.len(),
            forall|i: int|
                0 <= i < old(self)@.recipes.len() ==> #[trigger] final(self)@.recipes[i]
                    == (if is_completed(completed@, i) {
                    stamped(old(self)@.recipes[i], day@)
                } else {
                    old(self)@.recipes[i]
                }),
    {
        let ghost before = self.settings.recipes@;
        let mut i: usize = 0;
        while i < self.settings.recipes.len()
            invariant
                i <= before.len(),
                self.settings.recipes@.len() == before.len(),
                self.settings.path == old(self).settings.path,
                self.is_dry_run == old(self).is_dry_run,
                self.is_iterative == old(self).is_iterative,
                forall|j: int|
                    0 <= j < i ==> (#[trigger] self.settings.recipes@[j])@ == (if is_completed(
                        completed@,
                        j,
                    ) {
                        stamped(before[j]@, day@)
                    } else {
                        before[j]@
                    }),
                forall|j: int|
                    i <= j < before.len() ==> #[trigger] self.settings.recipes@[j] == before[j],
            decreases before.len() - i,
        {
            if i < completed.len() && completed[i] == RecipeState::Done {
                self.settings.recipes[i].last_run = Some(day.clone());
            }
            i += 1;
        }
    }

    /// Ends a pass over all recipes at the instant `now`.
    ///
    /// In a dry run nothing changes. Otherwise each recipe whose state in
    /// `completed` (by its position; a position beyond the list counts as
    /// not started) is `Done` gets the UTC date of `now`, as `YYYY-MM-DD`,
    /// for its last run; the other recipes, and every other field, stay as
    /// they were. Where that date
    /// cannot be rendered nothing changes either.
    pub fn finish_pass(&mut self, completed: &Vec<RecipeState>, now: &Timestamp) -> (r: PassEnd)
        ensures
            r == pass_end(old(self)@, now@),
            final(self)@.is_dry_run == old(self)@.is_dry_run,
            final(self)@.is_iterative == old(self)@.is_iterative,
            final(self)@.path == old(self)@.path,
            final(self)@.recipes.len() == old(self)@.recipes.len(),
            forall|i: int|
                0 <= i < old(self)@.recipes.len() ==> #[trigger] final(self)@.recipes[i] == (if r
                    == PassEnd::Stamped && is_completed(completed@, i) {
                    stamped(old(self)@.recipes[i], pass_date(now@).unwrap())
                } else {
                    old(self)@.recipes[i]
                }),
    {
        if self.is_dry_run {
            return PassEnd::DryRun;
        }
        let day = match render_instant(now, "%Y-%m-%d") {
            Some(day) => day,
            None => {
                return PassEnd::DateUnavailable;
            },
        };
        self.stamp_completed(completed, &day);
        PassEnd::Stamped
    }
}

/// The date a pass at the instant `now` stamps: the UTC day of `now`, as
/// `YYYY-MM-DD`.
pub open spec fn pass_date(now: (int, int)) -> Option<Seq<char>> {
    rendered(now.0, now.1, "%Y-%m-%d"@)
}

/// How a pass of the engine `engine` ends at the instant `now`.
pub open spec fn pass_end(engine: OrganizerModel, now: (int, int)) -> PassEnd {
    if engine.is_dry_run {
        PassEnd::DryRun
    } else if pass_date(now).is_some() {
        PassEnd::Stamped
    } else {
        PassEnd::DateUnavailable
    }
}

} // verus!
