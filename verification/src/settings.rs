//! Recipes and the recipe set, with their mathematical models.

use vstd::prelude::*;

verus! {

/// Which filesystem timestamp of a file a recipe looks at.
#[derive(Clone, Copy, Debug, PartialEq, Eq, Structural)]
pub enum DateComparator {
    CreationDate,
    ModificationDate,
}

impl Default for DateComparator {
    fn default() -> (r: Self)
        ensures
            r == DateComparator::ModificationDate,
    {
        DateComparator::ModificationDate
    }
}

/// One classification rule.
#[derive(Clone, Debug, PartialEq, Eq)]
pub struct Recipe {
    pub name: String,
    pub source_folder: String,
    pub destination_folder: String,
    pub date_comparator: Option<DateComparator>,
    pub subfolders: Option<Vec<String>>,
    pub allowed_extensions: Option<Vec<String>>,
    pub move_files: bool,
    pub last_run: Option<String>,
}

/// The ordered recipes and the place they are persisted at.
#[derive(Clone, Debug, PartialEq, Eq)]
pub struct Settings {
    pub recipes: Vec<Recipe>,
    pub path: String,
}

/// What a recipe is, as a mathematical value.
pub struct RecipeModel {
    pub name: Seq<char>,
    pub source_folder: Seq<char>,
    pub destination_folder: Seq<char>,
    pub date_comparator: Option<DateComparator>,
    pub subfolders: Option<Seq<Seq<char>>>,
    pub allowed_extensions: Option<Seq<Seq<char>>>,
    pub move_files: bool,
    pub last_run: Option<Seq<char>>,
}

impl RecipeModel {
    /// The comparator in force: the one named, or the modification date
    /// where none is.
    pub open spec fn comparator(self) -> DateComparator {
        match self.date_comparator {
            Some(c) => c,
            None => DateComparator::ModificationDate,
        }
    }

    /// The subfolder templates in order; an absent list counts as empty.
    pub open spec fn templates(self) -> Seq<Seq<char>> {
        match self.subfolders {
            Some(list) => list,
            None => Seq::empty(),
        }
    }
}

/// The texts of a list of strings, in order.
pub open spec fn texts(items: Seq<String>) -> Seq<Seq<char>> {
    Seq::new(items.len(), |i: int| items[i]@)
}

/// The texts of a list that may be absent.
pub open spec fn optional_texts(items: Option<Vec<String>>) -> Option<Seq<Seq<char>>> {
    match items {
        Some(list) => Some(texts(list@)),
        None => None,
    }
}

/// The text of a string that may be absent.
pub open spec fn optional_text(item: Option<String>) -> Option<Seq<char>> {
    match item {
        Some(s) => Some(s@),
        None => None,
    }
}

impl View for Recipe {
    type V = RecipeModel;

    open spec fn view(&self) -> RecipeModel {
        RecipeModel {
            name: self.name@,
            source_folder: self.source_folder@,
            destination_folder: self.destination_folder@,
            date_comparator: self.date_comparator,
            subfolders: optional_texts(self.subfolders),
            allowed_extensions: optional_texts(self.allowed_extensions),
            move_files: self.move_files,
            last_run: optional_text(self.last_run),
        }
    }
}

/// The models of a list of recipes, in order.
pub open spec fn recipe_models(recipes: Seq<Recipe>) -> Seq<RecipeModel> {
    Seq::new(recipes.len(), |i: int| recipes[i]@)
}

impl Default for Recipe {
    /// A copying recipe with empty texts and nothing optional set.
    fn default() -> (r: Self)
        ensures
            r.name@ == Seq::<char>::empty(),
            r.source_folder@ == Seq::<char>::empty(),
            r.destination_folder@ == Seq::<char>::empty(),
            r.date_comparator.is_none(),
            r.subfolders.is_none(),
            r.allowed_extensions.is_none(),
            !r.move_files,
            r.last_run.is_none(),
    {
        Recipe {
            name: String::new(),
            source_folder: String::new(),
            destination_folder: String::new(),
            date_comparator: None,
            subfolders: None,
            allowed_extensions: None,
            move_files: false,
            last_run: None,
        }
    }
}

impl Default for Settings {
    /// No recipes, and an empty path.
    fn default() -> (r: Self)
        ensures
            r.recipes@.len() == 0,
            r.path@ == Seq::<char>::empty(),
    {
        Settings { recipes: Vec::new(), path: String::new() }
    }
}

impl Recipe {
    /// The timestamp this recipe compares: the one it names, or the
    /// modification date where it names none.
    pub fn comparator(&self) -> (r: DateComparator)
        ensures
            r == self@.comparator(),
    {
        match self.date_comparator {
            Some(c) => c,
            None => DateComparator::ModificationDate,
        }
    }
}

impl Settings {
    /// A recipe set read from `path`.
    pub fn new(recipes: Vec<Recipe>, path: String) -> (r: Settings)
        ensures
            r.recipes == recipes,
            r.path == path,
    {
        Settings { recipes, path }
    }
}

} // verus!
