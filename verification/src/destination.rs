//! The destination path builder: where a selected file belongs.

use vstd::prelude::*;
use vstd::string::*;
use crate::errors::FileError;
use crate::instant::{date_to_folder_name, rendered, Timestamp};
use crate::settings::{texts, Recipe, RecipeModel};

verus! {

/// A destination directory: a base folder and the path segments below it,
/// outermost first.
#[derive(Clone, Debug, PartialEq, Eq)]
pub struct Destination {
    pub folder: String,
    pub segments: Vec<String>,
}

/// A destination directory as a mathematical value.
pub struct DestinationModel {
    pub folder: Seq<char>,
    pub segments: Seq<Seq<char>>,
}

impl View for Destination {
    type V = DestinationModel;

    open spec fn view(&self) -> DestinationModel {
        DestinationModel { folder: self.folder@, segments: texts(self.segments@) }
    }
}

/// Every one of the first `count` templates can be rendered for `date`.
pub open spec fn renders_first(templates: Seq<Seq<char>>, date: (int, int), count: int) -> bool {
    forall|i: int| 0 <= i < count ==> (#[trigger] rendered(date.0, date.1, templates[i])).is_some()
}

/// The destination of a file with reference timestamp `date`: the recipe's
/// destination folder, and below it one segment per subfolder template, in
/// the templates' order, each the template rendered for `date`. None where a
/// template cannot be rendered.
pub open spec fn destination_of(recipe: RecipeModel, date: (int, int)) -> Option<DestinationModel> {
    if renders_first(recipe.templates(), date, recipe.templates().len() as int) {
        Some(
            DestinationModel {
                folder: recipe.destination_folder,
                segments: Seq::new(
                    recipe.templates().len(),
                    |i: int| rendered(date.0, date.1, recipe.templates()[i]).unwrap(),
                ),
            },
        )
    } else {
        None
    }
}

/// `k` is the first template that cannot be rendered for `date`.
pub open spec fn first_unrenderable(templates: Seq<Seq<char>>, date: (int, int), k: int) -> bool {
    0 <= k < templates.len() && renders_first(templates, date, k) && rendered(
        date.0,
        date.1,
        templates[k],
    ).is_none()
}

/// `error` says that `template` could not be rendered.
pub open spec fn names_template(error: FileError, template: Seq<char>) -> bool {
    match error {
        FileError::Template(t) => t@ == template,
        _ => false,
    }
}

/// Builds the destination directory of a file dated `date`. Fails with the
/// first template that cannot be rendered.
pub fn build_dest_folder(recipe: &Recipe, date: &Timestamp) -> (r: Result<Destination, FileError>)
    ensures
        match r {
            Ok(d) => destination_of(recipe@, date@) == Some(d@),
            Err(e) => destination_of(recipe@, date@).is_none() && exists|k: int|
                #![trigger recipe@.templates()[k]]
                first_unrenderable(recipe@.templates(), date@, k) && names_template(
                    e,
                    recipe@.templates()[k],
                ),
        },
{
    let mut segments: Vec<String> = Vec::new();
    if let Some(subfolders) = &recipe.subfolders {
        let mut i: usize = 0;
        while i < subfolders.len()
            invariant
                i <= subfolders.len(),
                recipe.subfolders == Some(*subfolders),
                recipe@.templates() == texts(subfolders@),
                segments@.len() == i,
                renders_first(recipe@.templates(), date@, i as int),
                forall|j: int|
                    0 <= j < i ==> Some((#[trigger] segments@[j])@) == rendered(
                        date@.0,
                        date@.1,
                        recipe@.templates()[j],
                    ),
            decreases subfolders.len() - i,
        {
            let template = Some(subfolders[i].clone());
            match date_to_folder_name(date, &template) {
                Ok(name) => {
                    segments.push(name);
                },
                Err(e) => {
                    assert(first_unrenderable(recipe@.templates(), date@, i as int));
                    assert(names_template(e, recipe@.templates()[i as int]));
                    assert(!renders_first(
                        recipe@.templates(),
                        date@,
                        recipe@.templates().len() as int,
                    ));
                    return Err(e);
                },
            }
            i += 1;
        }
    }
    let d = Destination { folder: recipe.destination_folder.clone(), segments };
    assert(d@.segments =~= destination_of(recipe@, date@).unwrap().segments);
    Ok(d)
}

} // verus!
