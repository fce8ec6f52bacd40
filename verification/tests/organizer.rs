use file_organizer::destination::Destination;
use file_organizer::errors::{FileError, RecipeError};
use file_organizer::instant::{get_date_boundary, Timestamp};
use file_organizer::organizer::{FileOrganizer, PassEnd};
use file_organizer::pass::{prepare_recipe, Pass, RecipeEvent, RecipeState};
use file_organizer::plan::{plan_for_file, timestamp_failure, FileStep, Operation, Transfer};
use file_organizer::stats::{tally, Outcome};
use file_organizer::qualifier::DirEntryInfo;
use file_organizer::settings::{Recipe, Settings};

fn recipe(name: &str, allowed: Option<Vec<&str>>, subfolders: Option<Vec<&str>>, move_files: bool) -> Recipe {
    Recipe {
        name: name.to_string(),
        source_folder: "/in".to_string(),
        destination_folder: "/out".to_string(),
        date_comparator: None,
        subfolders: subfolders.map(|l| l.into_iter().map(|s| s.to_string()).collect()),
        allowed_extensions: allowed.map(|l| l.into_iter().map(|s| s.to_string()).collect()),
        move_files,
        last_run: None,
    }
}

fn file(name: &str) -> DirEntryInfo {
    DirEntryInfo { file_name: name.to_string(), is_file: true }
}

const MAY_1_2023: Timestamp = Timestamp { secs: 1_682_899_200, nanos: 0 };
const MARCH_15_2024_NOON: Timestamp = Timestamp { secs: 1_710_460_800 + 43_200, nanos: 250 };

fn outcome_of(plan: &Result<FileStep, FileError>) -> Outcome {
    match plan {
        Ok(FileStep::Skip) => Outcome::NotMatched,
        Ok(FileStep::Transfer(_)) => Outcome::Matched,
        Err(e) => Outcome::Failed(e.clone()),
    }
}

#[test]
fn jpg_is_moved_under_its_year_and_png_is_left() {
    let r = recipe("pictures", Some(vec!["jpg"]), Some(vec!["%Y"]), true);
    let boundary = prepare_recipe(&r, true, true).unwrap();
    assert_eq!(boundary, Timestamp { secs: 0, nanos: 0 });

    let a = plan_for_file(&file("a.jpg"), &r, &MAY_1_2023, &boundary, false);
    assert_eq!(
        a,
        Ok(FileStep::Transfer(Transfer {
            destination: Destination { folder: "/out".to_string(), segments: vec!["2023".to_string()] },
            file_name: "a.jpg".to_string(),
            operation: Operation::Move,
            perform: true,
        }))
    );
    let b = plan_for_file(&file("b.png"), &r, &MAY_1_2023, &boundary, false);
    assert_eq!(b, Ok(FileStep::Skip));

    let stats = tally(&vec![outcome_of(&a), outcome_of(&b)], 12);
    assert_eq!(stats.files_matched, 1);
    assert_eq!(stats.files_processed, 2);
    assert_eq!(stats.files_failed, 0);
    assert_eq!(stats.elapsed_time, 12);
}

#[test]
fn copy_recipe_plans_a_copy() {
    let r = recipe("docs", Some(vec![]), None, false);
    let boundary = Timestamp { secs: 0, nanos: 0 };
    match plan_for_file(&file("notes"), &r, &MAY_1_2023, &boundary, false) {
        Ok(FileStep::Transfer(t)) => {
            assert_eq!(t.operation, Operation::Copy);
            assert_eq!(t.file_name, "notes");
            assert_eq!(t.destination.folder, "/out");
            assert!(t.destination.segments.is_empty());
            assert!(t.perform);
        }
        other => panic!("unexpected plan {:?}", other),
    }
}

#[test]
fn dry_run_decides_alike_and_touches_nothing() {
    let r = recipe("pictures", Some(vec!["jpg"]), Some(vec!["%Y", "%m"]), true);
    let boundary = Timestamp { secs: 0, nanos: 0 };
    let names = ["a.jpg", "b.png", ".c.jpg", "d.JPG", "e"];
    let mut dry_outcomes = Vec::new();
    let mut real_outcomes = Vec::new();
    for name in names {
        let dry = plan_for_file(&file(name), &r, &MAY_1_2023, &boundary, true);
        let real = plan_for_file(&file(name), &r, &MAY_1_2023, &boundary, false);
        match (&dry, &real) {
            (Ok(FileStep::Skip), Ok(FileStep::Skip)) => {}
            (Ok(FileStep::Transfer(d)), Ok(FileStep::Transfer(w))) => {
                assert!(!d.perform);
                assert!(w.perform);
                assert_eq!(d.destination, w.destination);
                assert_eq!(d.file_name, w.file_name);
                assert_eq!(d.operation, w.operation);
            }
            other => panic!("plans differ: {:?}", other),
        }
        dry_outcomes.push(outcome_of(&dry));
        real_outcomes.push(outcome_of(&real));
    }
    let dry = tally(&dry_outcomes, 0);
    let real = tally(&real_outcomes, 0);
    assert_eq!(dry.files_matched, 2);
    assert_eq!(dry.files_matched, real.files_matched);
    assert_eq!(dry.files_processed, real.files_processed);
}

#[test]
fn plan_fails_on_a_template_that_cannot_be_rendered() {
    let r = recipe("pictures", Some(vec![]), Some(vec!["%Y", "%Q"]), true);
    let boundary = Timestamp { secs: 0, nanos: 0 };
    assert_eq!(
        plan_for_file(&file("a.jpg"), &r, &MAY_1_2023, &boundary, false),
        Err(FileError::Template("%Q".to_string()))
    );
    assert_eq!(
        plan_for_file(&file(".hidden"), &r, &MAY_1_2023, &boundary, false),
        Ok(FileStep::Skip)
    );
}

#[test]
fn order_of_entries_changes_neither_selection_nor_counts() {
    let r = recipe("pictures", Some(vec!["jpg", "png"]), Some(vec!["%Y"]), false);
    let boundary = Timestamp { secs: 1_000_000_000, nanos: 0 };
    let snapshot = vec![
        (file("a.jpg"), MAY_1_2023),
        (file("b.gif"), MAY_1_2023),
        (file("c.png"), Timestamp { secs: 999_999_999, nanos: 0 }),
        (file("d.PNG"), MARCH_15_2024_NOON),
        (DirEntryInfo { file_name: "e.jpg".to_string(), is_file: false }, MAY_1_2023),
    ];
    let mut reversed = snapshot.clone();
    reversed.reverse();

    let run = |entries: &Vec<(DirEntryInfo, Timestamp)>| {
        let mut selected = Vec::new();
        let mut outcomes = Vec::new();
        for (entry, date) in entries {
            let plan = plan_for_file(entry, &r, date, &boundary, false);
            if let Ok(FileStep::Transfer(t)) = &plan {
                selected.push((t.file_name.clone(), t.destination.segments.clone()));
            }
            outcomes.push(outcome_of(&plan));
        }
        selected.sort();
        (selected, tally(&outcomes, 0))
    };
    let (first, first_stats) = run(&snapshot);
    let (second, second_stats) = run(&reversed);
    assert_eq!(first, second);
    assert_eq!(
        first,
        vec![
            ("a.jpg".to_string(), vec!["2023".to_string()]),
            ("d.PNG".to_string(), vec!["2024".to_string()]),
        ]
    );
    assert_eq!(first_stats, second_stats);
    assert_eq!(first_stats.files_matched, 2);
    assert_eq!(first_stats.files_processed, 5);
}

#[test]
fn tally_counts_every_entry_once() {
    let outcomes = vec![
        Outcome::Matched,
        Outcome::NotMatched,
        Outcome::Failed(FileError::Copy("disk full".to_string())),
        Outcome::Matched,
        Outcome::Failed(FileError::CreationDate("unsupported".to_string())),
        Outcome::Matched,
    ];
    let stats = tally(&outcomes, 1_500);
    assert_eq!(stats.files_processed, 6);
    assert_eq!(stats.files_matched, 3);
    assert_eq!(stats.files_failed, 2);
    assert_eq!(stats.elapsed_time, 1_500);

    let empty = tally(&Vec::new(), 0);
    assert_eq!(empty.files_processed, 0);
    assert_eq!(empty.files_matched, 0);
    assert_eq!(empty.files_failed, 0);
}

#[test]
fn validation_reports_the_first_failure() {
    let mut r = recipe("docs", Some(vec![]), None, false);
    r.last_run = Some("not a date".to_string());
    assert_eq!(prepare_recipe(&r, false, false), Err(RecipeError::SourceNotDirectory));
    assert_eq!(prepare_recipe(&r, false, true), Err(RecipeError::SourceNotDirectory));
    assert_eq!(prepare_recipe(&r, true, false), Err(RecipeError::TargetNotDirectory));
    assert_eq!(prepare_recipe(&r, true, true), Err(RecipeError::InvalidLastRun));
    r.last_run = Some("2024-03-15".to_string());
    assert_eq!(prepare_recipe(&r, true, true), Ok(Timestamp { secs: 1_710_460_800, nanos: 0 }));
}

#[test]
fn new_engine_lowercases_allowed_extensions() {
    let mut a = recipe("a", Some(vec!["JPG", "Png", "gif", "ÄÖ"]), Some(vec!["%Y"]), true);
    a.last_run = Some("2024-01-01".to_string());
    let b = recipe("b", None, None, false);
    let c = recipe("c", Some(vec![]), None, false);
    let engine = FileOrganizer::new(
        Settings::new(vec![a.clone(), b.clone(), c.clone()], "recipes.json".to_string()),
        true,
        false,
    );
    assert!(engine.is_dry_run());
    assert!(!engine.is_iterative());
    let s = engine.settings();
    assert_eq!(s.path, "recipes.json");
    assert_eq!(s.recipes.len(), 3);
    assert_eq!(
        s.recipes[0].allowed_extensions,
        Some(vec!["jpg".to_string(), "png".to_string(), "gif".to_string(), "äö".to_string()])
    );
    let mut expected = a.clone();
    expected.allowed_extensions = s.recipes[0].allowed_extensions.clone();
    assert_eq!(s.recipes[0], expected);
    assert_eq!(s.recipes[1], b);
    assert_eq!(s.recipes[2], c);
}

#[test]
fn finished_pass_stamps_every_completed_recipe() {
    let recipes = vec![
        recipe("a", Some(vec!["jpg"]), None, true),
        recipe("b", None, None, false),
        recipe("c", Some(vec![]), Some(vec!["%Y"]), false),
    ];
    let mut engine = FileOrganizer::new(Settings::new(recipes.clone(), "r.json".to_string()), false, true);
    let done = vec![RecipeState::Done, RecipeState::Done, RecipeState::Done];
    assert_eq!(engine.finish_pass(&done, &MARCH_15_2024_NOON), PassEnd::Stamped);
    assert!(!engine.is_dry_run());
    assert!(engine.is_iterative());
    let s = engine.settings();
    assert_eq!(s.path, "r.json");
    assert_eq!(s.recipes.len(), 3);
    for (after, before) in s.recipes.iter().zip(recipes.iter()) {
        assert_eq!(after.last_run, Some("2024-03-15".to_string()));
        let mut expected = before.clone();
        expected.last_run = after.last_run.clone();
        assert_eq!(*after, expected);
    }
}

#[test]
fn finished_pass_leaves_failed_recipes_unstamped() {
    let mut first = recipe("a", Some(vec![]), None, true);
    first.last_run = Some("2020-02-02".to_string());
    let recipes = vec![first, recipe("b", None, None, false), recipe("c", None, None, false)];
    let mut engine = FileOrganizer::new(Settings::new(recipes, "r.json".to_string()), false, false);
    let states = vec![RecipeState::Failed, RecipeState::Done];
    assert_eq!(engine.finish_pass(&states, &MARCH_15_2024_NOON), PassEnd::Stamped);
    let s = engine.settings();
    assert_eq!(s.recipes[0].last_run, Some("2020-02-02".to_string()));
    assert_eq!(s.recipes[1].last_run, Some("2024-03-15".to_string()));
    assert_eq!(s.recipes[2].last_run, None);
}

#[test]
fn dry_run_pass_moves_no_watermark() {
    let mut first = recipe("a", Some(vec![]), None, true);
    first.last_run = Some("2020-02-02".to_string());
    let recipes = vec![first, recipe("b", None, None, false)];
    let mut engine = FileOrganizer::new(Settings::new(recipes.clone(), "r.json".to_string()), true, false);
    let done = vec![RecipeState::Done, RecipeState::Done];
    assert_eq!(engine.finish_pass(&done, &MARCH_15_2024_NOON), PassEnd::DryRun);
    assert_eq!(engine.settings().recipes, recipes);
}

#[test]
fn pass_at_an_instant_without_a_date_moves_no_watermark() {
    let recipes = vec![recipe("a", Some(vec![]), None, true)];
    let mut engine = FileOrganizer::new(Settings::new(recipes.clone(), "r.json".to_string()), false, false);
    let nowhere = Timestamp { secs: i64::MIN, nanos: 0 };
    assert_eq!(engine.finish_pass(&vec![RecipeState::Done], &nowhere), PassEnd::DateUnavailable);
    assert_eq!(engine.settings().recipes, recipes);
}

#[test]
fn second_pass_selects_no_file_from_before_the_first() {
    let recipes = vec![recipe("a", Some(vec!["jpg"]), Some(vec!["%Y"]), false)];
    let mut engine = FileOrganizer::new(Settings::new(recipes, "r.json".to_string()), false, true);
    let entries = vec![(file("a.jpg"), MAY_1_2023), (file("b.jpg"), Timestamp { secs: 1_710_460_799, nanos: 999_999_999 })];

    let boundary = get_date_boundary(&engine.settings().recipes[0]).unwrap();
    let mut matched = 0;
    for (entry, date) in &entries {
        if let Ok(FileStep::Transfer(_)) = plan_for_file(entry, &engine.settings().recipes[0], date, &boundary, false) {
            matched += 1;
        }
    }
    assert_eq!(matched, 2);
    assert_eq!(engine.finish_pass(&vec![RecipeState::Done], &MARCH_15_2024_NOON), PassEnd::Stamped);

    let boundary = get_date_boundary(&engine.settings().recipes[0]).unwrap();
    assert_eq!(boundary, Timestamp { secs: 1_710_460_800, nanos: 0 });
    for (entry, date) in &entries {
        assert_eq!(
            plan_for_file(entry, &engine.settings().recipes[0], date, &boundary, false),
            Ok(FileStep::Skip)
        );
    }
}

#[test]
fn recipe_states_follow_the_pass() {
    let s = RecipeState::Pending;
    let s = s.advance(RecipeEvent::Start).unwrap();
    assert_eq!(s, RecipeState::Validating);
    assert_eq!(s.advance(RecipeEvent::Invalid), Some(RecipeState::Failed));
    let s = s.advance(RecipeEvent::Valid).unwrap();
    assert_eq!(s, RecipeState::Scanning);
    let s = s.advance(RecipeEvent::ScanFinished).unwrap();
    assert_eq!(s, RecipeState::Done);

    for e in [RecipeEvent::Start, RecipeEvent::Valid, RecipeEvent::Invalid, RecipeEvent::ScanFinished] {
        assert_eq!(RecipeState::Done.advance(e), None);
        assert_eq!(RecipeState::Failed.advance(e), None);
    }
    assert_eq!(RecipeState::Pending.advance(RecipeEvent::Valid), None);
    assert_eq!(RecipeState::Pending.advance(RecipeEvent::ScanFinished), None);
    assert_eq!(RecipeState::Scanning.advance(RecipeEvent::Start), None);
    assert_eq!(RecipeState::Scanning.advance(RecipeEvent::Invalid), None);
    assert_eq!(RecipeState::Validating.advance(RecipeEvent::ScanFinished), None);
}

#[test]
fn validation_outcome_is_an_event() {
    let ok: Result<Timestamp, RecipeError> = Ok(Timestamp { secs: 0, nanos: 0 });
    let bad: Result<Timestamp, RecipeError> = Err(RecipeError::TargetNotDirectory);
    assert_eq!(RecipeEvent::validation(&ok), RecipeEvent::Valid);
    assert_eq!(RecipeEvent::validation(&bad), RecipeEvent::Invalid);
}

#[test]
fn pass_takes_recipes_up_in_declared_order() {
    let mut pass = Pass::new(3);
    assert_eq!(pass.states, vec![RecipeState::Pending; 3]);
    assert_eq!(pass.next_pending(), Some(0));
    assert!(pass.record(0, RecipeEvent::Start));
    assert_eq!(pass.next_pending(), Some(1));
    assert!(pass.record(0, RecipeEvent::Invalid));
    assert_eq!(pass.states[0], RecipeState::Failed);
    assert_eq!(pass.next_pending(), Some(1));
    assert!(pass.record(1, RecipeEvent::Start));
    assert!(pass.record(1, RecipeEvent::Valid));
    assert!(pass.record(1, RecipeEvent::ScanFinished));
    assert_eq!(pass.next_pending(), Some(2));
    assert!(pass.record(2, RecipeEvent::Start));
    assert_eq!(pass.next_pending(), None);
    assert_eq!(
        pass.states,
        vec![RecipeState::Failed, RecipeState::Done, RecipeState::Validating]
    );
    assert_eq!(Pass::new(0).next_pending(), None);
}

#[test]
fn pass_refuses_events_out_of_place() {
    let mut pass = Pass::new(2);
    assert!(!pass.record(2, RecipeEvent::Start));
    assert!(!pass.record(0, RecipeEvent::Valid));
    assert!(!pass.record(0, RecipeEvent::ScanFinished));
    assert_eq!(pass.states, vec![RecipeState::Pending; 2]);
    assert!(pass.record(1, RecipeEvent::Start));
    assert!(!pass.record(1, RecipeEvent::Start));
    assert_eq!(pass.states, vec![RecipeState::Pending, RecipeState::Validating]);
}

#[test]
fn failed_recipe_among_completed_ones_keeps_its_watermark() {
    let recipes = vec![
        recipe("a", Some(vec![]), None, true),
        recipe("b", Some(vec![]), None, true),
        recipe("c", Some(vec![]), None, true),
    ];
    let mut engine = FileOrganizer::new(Settings::new(recipes, "r.json".to_string()), false, false);
    let mut pass = Pass::new(3);
    while let Some(i) = pass.next_pending() {
        assert!(pass.record(i, RecipeEvent::Start));
        let prepared = prepare_recipe(&engine.settings().recipes[i], true, i != 1);
        assert!(pass.record(i, RecipeEvent::validation(&prepared)));
        if prepared.is_ok() {
            assert!(pass.record(i, RecipeEvent::ScanFinished));
        }
    }
    assert_eq!(engine.finish_pass(&pass.states, &MARCH_15_2024_NOON), PassEnd::Stamped);
    let s = engine.settings();
    assert_eq!(s.recipes[0].last_run, Some("2024-03-15".to_string()));
    assert_eq!(s.recipes[1].last_run, None);
    assert_eq!(s.recipes[2].last_run, Some("2024-03-15".to_string()));
}

#[test]
fn stamping_takes_the_given_day() {
    let recipes = vec![
        recipe("a", Some(vec!["jpg"]), None, true),
        recipe("b", None, None, false),
        recipe("c", None, None, false),
    ];
    let mut engine = FileOrganizer::new(Settings::new(recipes.clone(), "r.json".to_string()), true, false);
    let states = vec![RecipeState::Done, RecipeState::Scanning, RecipeState::Done, RecipeState::Done];
    engine.stamp_completed(&states, &"2031-12-24".to_string());
    let s = engine.settings();
    assert_eq!(s.recipes[0].last_run, Some("2031-12-24".to_string()));
    assert_eq!(s.recipes[1].last_run, None);
    assert_eq!(s.recipes[2].last_run, Some("2031-12-24".to_string()));
    assert_eq!(s.recipes[0].name, "a");
    assert_eq!(s.recipes[0].allowed_extensions, Some(vec!["jpg".to_string()]));
    assert!(engine.is_dry_run());
}

#[test]
fn failures_name_what_was_attempted() {
    let cause = "denied".to_string();
    assert_eq!(Operation::Move.failure(cause.clone()), FileError::Move(cause.clone()));
    assert_eq!(Operation::Copy.failure(cause.clone()), FileError::Copy(cause.clone()));
    let mut r = recipe("a", None, None, false);
    assert_eq!(
        timestamp_failure(&r, cause.clone()),
        FileError::ModificationDate(cause.clone())
    );
    r.date_comparator = Some(file_organizer::settings::DateComparator::CreationDate);
    assert_eq!(
        timestamp_failure(&r, cause.clone()),
        FileError::CreationDate(cause.clone())
    );
    r.date_comparator = Some(file_organizer::settings::DateComparator::ModificationDate);
    assert_eq!(
        timestamp_failure(&r, cause.clone()),
        FileError::ModificationDate(cause)
    );
}

#[test]
fn default_recipe_and_settings_are_empty() {
    let r = Recipe::default();
    assert_eq!(r.name, "");
    assert_eq!(r.source_folder, "");
    assert_eq!(r.destination_folder, "");
    assert_eq!(r.date_comparator, None);
    assert_eq!(r.subfolders, None);
    assert_eq!(r.allowed_extensions, None);
    assert!(!r.move_files);
    assert_eq!(r.last_run, None);
    let s = Settings::default();
    assert!(s.recipes.is_empty());
    assert_eq!(s.path, "");
}
