//! The file qualifier: which directory entries a recipe selects.

use vstd::prelude::*;
use vstd::string::*;
use crate::instant::{at_or_after, Timestamp};
use crate::settings::{optional_texts, texts, Recipe, RecipeModel};
use crate::text::{extension_of, file_extension, hidden, is_hidden, lowercase_of, to_lowercase};

verus! {

/// What the qualifier reads of one directory entry.
#[derive(Clone, Debug, PartialEq, Eq)]
pub struct DirEntryInfo {
    /// The entry's name inside its directory.
    pub file_name: String,
    /// Whether the entry is a regular file.
    pub is_file: bool,
}

/// A directory entry as a mathematical value.
pub struct EntryModel {
    pub file_name: Seq<char>,
    pub is_file: bool,
}

impl View for DirEntryInfo {
    type V = EntryModel;

    open spec fn view(&self) -> EntryModel {
        EntryModel { file_name: self.file_name@, is_file: self.is_file }
    }
}

/// The extension rule. An absent list admits no file; an empty list admits
/// every file; any other list admits the files whose extension, in lowercase,
/// is one of its items.
pub open spec fn extension_allowed(name: Seq<char>, allowed: Option<Seq<Seq<char>>>) -> bool {
    match allowed {
        None => false,
        Some(list) => list.len() == 0 || match extension_of(name) {
            Some(extension) => list.contains(lowercase_of(extension)),
            None => false,
        },
    }
}

/// The rules that need no timestamp: a regular file, not hidden, with an
/// admitted extension.
pub open spec fn name_qualifies(entry: EntryModel, recipe: RecipeModel) -> bool {
    entry.is_file && !hidden(entry.file_name) && extension_allowed(
        entry.file_name,
        recipe.allowed_extensions,
    )
}

/// All the rules: those on the name, and a reference timestamp that is the
/// boundary or later.
pub open spec fn qualifies(
    entry: EntryModel,
    recipe: RecipeModel,
    date: (int, int),
    boundary: (int, int),
) -> bool {
    name_qualifies(entry, recipe) && at_or_after(date, boundary)
}

/// Whether `wanted` is one of the items of `list`.
pub fn lists_text(list: &Vec<String>, wanted: &String) -> (r: bool)
    ensures
        r == texts(list@).contains(wanted@),
{
    let mut i: usize = 0;
    while i < list.len()
        invariant
            i <= list.len(),
            forall|j: int| 0 <= j < i ==> #[trigger] texts(list@)[j] != wanted@,
        decreases list.len() - i,
    {
        if list[i] == *wanted {
            assert(texts(list@)[i as int] == wanted@);
            return true;
        }
        i += 1;
    }
    false
}

/// Whether the extension rule admits the file called `file_name`.
pub fn is_extension_allowed(file_name: &str, allowed_extensions: &Option<Vec<String>>) -> (r: bool)
    ensures
        r == extension_allowed(file_name@, optional_texts(*allowed_extensions)),
{
    match allowed_extensions {
        None => false,
        Some(list) => {
            if list.len() == 0 {
                return true;
            }
            match file_extension(file_name) {
                Some(extension) => {
                    let lowered = to_lowercase(extension.as_str());
                    lists_text(list, &lowered)
                },
                None => false,
            }
        },
    }
}

/// Whether `entry` passes the rules that need no timestamp. Only for such an
/// entry is a reference timestamp worth reading.
pub fn passes_name_rules(entry: &DirEntryInfo, recipe: &Recipe) -> (r: bool)
    ensures
        r == name_qualifies(entry@, recipe@),
{
    entry.is_file && !is_hidden(entry.file_name.as_str()) && is_extension_allowed(
        entry.file_name.as_str(),
        &recipe.allowed_extensions,
    )
}

/// Whether `entry`, with the reference timestamp `date`, qualifies for
/// `recipe` against `boundary`.
pub fn file_qualifies(
    entry: &DirEntryInfo,
    recipe: &Recipe,
    date: &Timestamp,
    boundary: &Timestamp,
) -> (r: bool)
    ensures
        r == qualifies(entry@, recipe@, date@, boundary@),
{
    passes_name_rules(entry, recipe) && date.is_at_or_after(boundary)
}

/// A recipe without a list of extensions selects no entry, whatever the
/// entry, its timestamp and the boundary.
pub proof fn lemma_absent_extensions_select_nothing(
    entry: EntryModel,
    recipe: RecipeModel,
    date: (int, int),
    boundary: (int, int),
)
    requires
        recipe.allowed_extensions.is_none(),
    ensures
        !qualifies(entry, recipe, date, boundary),
{
}

/// A recipe with an empty list of extensions selects every regular file that
/// is not hidden and whose timestamp is the boundary or later, whatever its
/// extension.
pub proof fn lemma_empty_extensions_select_every_visible_file(
    entry: EntryModel,
    recipe: RecipeModel,
    date: (int, int),
    boundary: (int, int),
)
    requires
        recipe.allowed_extensions == Some(Seq::<Seq<char>>::empty()),
        entry.is_file,
        !hidden(entry.file_name),
        at_or_after(date, boundary),
    ensures
        qualifies(entry, recipe, date, boundary),
{
}

/// The boundary is an inclusive lower bound: a file that passes the rules on
/// its name and whose timestamp is exactly the boundary qualifies.
pub proof fn lemma_boundary_is_inclusive(
    entry: EntryModel,
    recipe: RecipeModel,
    boundary: (int, int),
)
    requires
        name_qualifies(entry, recipe),
    ensures
        qualifies(entry, recipe, boundary, boundary),
{
}

/// A file whose timestamp lies before the boundary is never selected: once
/// the boundary has moved past every file, a further run selects none.
pub proof fn lemma_older_files_never_qualify(
    entry: EntryModel,
    recipe: RecipeModel,
    date: (int, int),
    boundary: (int, int),
)
    requires
        !at_or_after(date, boundary),
    ensures
        !qualifies(entry, recipe, date, boundary),
{
}

} // verus!
