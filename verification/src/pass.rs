//! One pass over the recipe set: how each recipe is validated and how far
//! it has come.

use vstd::prelude::*;
use crate::errors::RecipeError;
use crate::instant::{date_boundary, get_date_boundary, Timestamp};
use crate::settings::{Recipe, RecipeModel};

verus! {

/// What the validation of a recipe comes to: the first of a source folder
/// that is no directory, a destination folder that is no directory and a
/// last-run date that cannot be read; else the date boundary.
pub open spec fn validation(
    recipe: RecipeModel,
    source_is_dir: bool,
    destination_is_dir: bool,
) -> Result<(int, int), RecipeError> {
    if !source_is_dir {
        Err(RecipeError::SourceNotDirectory)
    } else if !destination_is_dir {
        Err(RecipeError::TargetNotDirectory)
    } else {
        match date_boundary(recipe) {
            Some(boundary) => Ok(boundary),
            None => Err(RecipeError::InvalidLastRun),
        }
    }
}

/// Validates `recipe` before its entries are scanned, given whether each of
/// its two folders is an existing directory, and resolves its date boundary.
pub fn prepare_recipe(recipe: &Recipe, source_is_dir: bool, destination_is_dir: bool) -> (r: Result<
    Timestamp,
    RecipeError,
>)
    ensures
        match r {
            Ok(t) => validation(recipe@, source_is_dir, destination_is_dir) matches Ok(b) && b
                == t@,
            Err(e) => validation(recipe@, source_is_dir, destination_is_dir) matches Err(f) && f
                == e,
        },
{
    if !source_is_dir {
        return Err(RecipeError::SourceNotDirectory);
    }
    if !destination_is_dir {
        return Err(RecipeError::TargetNotDirectory);
    }
    get_date_boundary(recipe)
}

/// Where a recipe stands within a pass.
#[derive(Clone, Copy, Debug, PartialEq, Eq, Structural)]
pub enum RecipeState {
    /// Not started.
    Pending,
    /// Its folders and its last-run date are being checked.
    Validating,
    /// Its source folder is being scanned.
    Scanning,
    /// Every entry was attempted.
    Done,
    /// Validation failed; the recipe was not scanned.
    Failed,
}

/// What happens to a recipe within a pass.
#[derive(Clone, Copy, Debug, PartialEq, Eq, Structural)]
pub enum RecipeEvent {
    /// The engine takes the recipe up.
    Start,
    /// Validation succeeded.
    Valid,
    /// Validation failed.
    Invalid,
    /// The last entry was attempted.
    ScanFinished,
}

/// The state that follows `state` on `event`; none where the event has no
/// place in that state.
pub open spec fn next_state(state: RecipeState, event: RecipeEvent) -> Option<RecipeState> {
    match (state, event) {
        (RecipeState::Pending, RecipeEvent::Start) => Some(RecipeState::Validating),
        (RecipeState::Validating, RecipeEvent::Valid) => Some(RecipeState::Scanning),
        (RecipeState::Validating, RecipeEvent::Invalid) => Some(RecipeState::Failed),
        (RecipeState::Scanning, RecipeEvent::ScanFinished) => Some(RecipeState::Done),
        _ => None,
    }
}

impl RecipeState {
    /// Moves on `event`, where the event has a place in this state.
    pub fn advance(self, event: RecipeEvent) -> (r: Option<RecipeState>)
        ensures
            r == next_state(self, event),
    {
        match self {
            RecipeState::Pending => match event {
                RecipeEvent::Start => Some(RecipeState::Validating),
                _ => None,
            },
            RecipeState::Validating => match event {
                RecipeEvent::Valid => Some(RecipeState::Scanning),
                RecipeEvent::Invalid => Some(RecipeState::Failed),
                _ => None,
            },
            RecipeState::Scanning => match event {
                RecipeEvent::ScanFinished => Some(RecipeState::Done),
                _ => None,
            },
            _ => None,
        }
    }
}

impl RecipeEvent {
    /// The event that a validation with this outcome is.
    pub fn validation<T>(outcome: &Result<T, RecipeError>) -> (r: RecipeEvent)
        ensures
            r == (if outcome.is_ok() {
                RecipeEvent::Valid
            } else {
                RecipeEvent::Invalid
            }),
    {
        match outcome {
            Ok(_) => RecipeEvent::Valid,
            Err(_) => RecipeEvent::Invalid,
        }
    }
}

/// A recipe that is done or has failed stays so: nothing is retried.
pub proof fn lemma_no_retries(state: RecipeState, event: RecipeEvent)
    requires
        state == RecipeState::Done || state == RecipeState::Failed,
    ensures
        next_state(state, event).is_none(),
{
}

/// Where each recipe of the set stands within one pass, in declared order.
#[derive(Clone, Debug, PartialEq, Eq)]
pub struct Pass {
    pub states: Vec<RecipeState>,
}

/// The first position of `states` that is still pending, if there is one.
pub open spec fn first_pending(states: Seq<RecipeState>, i: int) -> bool {
    &&& 0 <= i < states.len()
    &&& states[i] == RecipeState::Pending
    &&& forall|j: int| 0 <= j < i ==> #[trigger] states[j] != RecipeState::Pending
}

/// No recipe is pending any more.
pub open spec fn none_pending(states: Seq<RecipeState>) -> bool {
    forall|j: int| 0 <= j < states.len() ==> #[trigger] states[j] != RecipeState::Pending
}

impl Pass {
    /// A pass over `count` recipes, none of them started.
    pub fn new(count: usize) -> (r: Pass)
        ensures
            r.states@.len() == count,
            forall|i: int| 0 <= i < count ==> #[trigger] r.states@[i] == RecipeState::Pending,
    {
        let mut states: Vec<RecipeState> = Vec::new();
        let mut i: usize = 0;
        while i < count
            invariant
                i <= count,
                states@.len() == i,
                forall|j: int| 0 <= j < i ==> #[trigger] states@[j] == RecipeState::Pending,
            decreases count - i,
        {
            states.push(RecipeState::Pending);
            i += 1;
        }
        Pass { states }
    }

    /// The recipe to take up next: the first in declared order that has not
    /// been started. None once every recipe has been taken up, whatever
    /// became of the ones before it.
    pub fn next_pending(&self) -> (r: Option<usize>)
        ensures
            match r {
                Some(i) => first_pending(self.states@, i as int),
                None => none_pending(self.states@),
            },
    {
        let mut i: usize = 0;
        while i < self.states.len()
            invariant
                i <= self.states@.len(),
                forall|j: int| 0 <= j < i ==> #[trigger] self.states@[j] != RecipeState::Pending,
            decreases self.states@.len() - i,
        {
            if self.states[i] == RecipeState::Pending {
                return Some(i);
            }
            i += 1;
        }
        None
    }

    /// Applies `event` to recipe number `recipe`. Where there is no such
    /// recipe, or the event has no place in its state, nothing changes and
    /// the result is false.
    pub fn record(&mut self, recipe: usize, event: RecipeEvent) -> (r: bool)
        ensures
            r == (recipe < old(self).states@.len() && next_state(
                old(self).states@[recipe as int],
                event,
            ).is_some()),
            final(self).states@ == (if r {
                old(self).states@.update(
                    recipe as int,
                    next_state(old(self).states@[recipe as int], event).unwrap(),
                )
            } else {
                old(self).states@
            }),
    {
        if recipe >= self.states.len() {
            return false;
        }
        match self.states[recipe].advance(event) {
            Some(next) => {
                self.states.set(recipe, next);
                true
            },
            None => false,
        }
    }
}

/// A recipe that fails validation holds up no other: the recipes after it
/// that were pending are pending still, and so are taken up in their turn.
pub proof fn lemma_failure_holds_up_no_recipe(states: Seq<RecipeState>, failed: int, later: int)
    requires
        0 <= failed < states.len(),
        0 <= later < states.len(),
        later != failed,
        states[failed] == RecipeState::Validating,
        states[later] == RecipeState::Pending,
    ensures
        next_state(states[failed], RecipeEvent::Invalid) == Some(RecipeState::Failed),
        states.update(failed, RecipeState::Failed)[later] == RecipeState::Pending,
        !none_pending(states.update(failed, RecipeState::Failed)),
{
    assert(states.update(failed, RecipeState::Failed)[later] == RecipeState::Pending);
}

/// Whether recipe number `i` completed its run: only such a recipe has its
/// watermark moved.
pub open spec fn is_completed(states: Seq<RecipeState>, i: int) -> bool {
    0 <= i < states.len() && states[i] == RecipeState::Done
}

} // verus!
