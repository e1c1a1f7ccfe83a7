use scalap_batch::model::{ScalapArguments, TargetDir, WorkingDir};
use scalap_batch::resolve::{get_scalap_args, Entry, ResolveError};
use scalap_batch::schedule::{
    aggregate_outcomes, chunk_items, discover_work_items, finish_run, BatchOutcome, RunError,
    PARALLELISM,
};
use scalap_batch::worker::{ItemFailure, ItemOutcome};

fn item(name: &str) -> ScalapArguments {
    let wd = WorkingDir::new("/src");
    let td = TargetDir::new("/out");
    let path = format!("/src/a/{}.class", name);
    get_scalap_args(&path, &wd, &td).unwrap()
}

fn success(name: &str) -> ItemOutcome {
    ItemOutcome::Succeeded { dotted_scala_file: name.to_string() }
}

fn nonzero_exit(name: &str) -> ItemOutcome {
    ItemOutcome::Failed { failure: ItemFailure::NonZeroExit { dotted_scala_file: name.to_string() } }
}

#[test]
fn five_items_with_ceiling_two_make_three_chunks() {
    let items = vec![item("A"), item("B"), item("C"), item("D"), item("E")];
    let chunks = chunk_items(items, 2);
    assert_eq!(chunks.len(), 3);
    assert_eq!(chunks[0].len(), 2);
    assert_eq!(chunks[1].len(), 2);
    assert_eq!(chunks[2].len(), 1);
}

#[test]
fn chunks_concatenate_to_the_discovery_order() {
    let items = vec![item("A"), item("B"), item("C"), item("D"), item("E")];
    let chunks = chunk_items(items, 2);
    let names: Vec<String> = chunks
        .iter()
        .flat_map(|c| c.iter().map(|a| a.class_name.value()))
        .collect();
    assert_eq!(names, vec!["A", "B", "C", "D", "E"]);
}

#[test]
fn exact_multiple_fills_every_chunk() {
    let items = vec![item("A"), item("B"), item("C"), item("D")];
    let chunks = chunk_items(items, 2);
    assert_eq!(chunks.len(), 2);
    assert_eq!(chunks[0].len(), 2);
    assert_eq!(chunks[1].len(), 2);
}

#[test]
fn no_items_make_no_chunks() {
    let chunks = chunk_items(Vec::new(), PARALLELISM);
    assert_eq!(chunks.len(), 0);
}

#[test]
fn all_successes_aggregate_to_success() {
    let outcomes = vec![success("a.A"), success("a.B"), success("a.C")];
    match aggregate_outcomes(outcomes) {
        BatchOutcome::AllSucceeded => {}
        BatchOutcome::AtLeastOneFailed { .. } => panic!("no item failed"),
    }
}

#[test]
fn each_failed_item_contributes_one_cause() {
    let outcomes = vec![
        success("a.A"),
        nonzero_exit("a.B"),
        success("a.C"),
        nonzero_exit("a.D"),
    ];
    match aggregate_outcomes(outcomes) {
        BatchOutcome::AllSucceeded => panic!("two items failed"),
        BatchOutcome::AtLeastOneFailed { causes } => {
            assert_eq!(causes.len(), 2);
            match &causes[0] {
                ItemFailure::NonZeroExit { dotted_scala_file } => {
                    assert_eq!(dotted_scala_file, "a.B")
                }
                _ => panic!("expected a non-zero exit cause"),
            }
            match &causes[1] {
                ItemFailure::NonZeroExit { dotted_scala_file } => {
                    assert_eq!(dotted_scala_file, "a.D")
                }
                _ => panic!("expected a non-zero exit cause"),
            }
        }
    }
}

#[test]
fn empty_batch_finishes_as_success() {
    assert!(finish_run(Vec::new()).is_ok());
}

#[test]
fn one_failure_fails_the_whole_run() {
    let outcomes = vec![success("a.A"), nonzero_exit("a.B")];
    match finish_run(outcomes) {
        Ok(_) => panic!("one item failed"),
        Err(RunError::AggregateExecution { causes }) => assert_eq!(causes.len(), 1),
        Err(_) => panic!("expected the aggregate execution error"),
    }
}

#[test]
fn discovery_resolves_only_accepted_entries() {
    let wd = WorkingDir::new("/src");
    let td = TargetDir::new("/out");
    let entries = vec![
        Entry { path: "/src/a".to_string(), is_dir: true, is_file: false },
        Entry { path: "/src/a/Foo.class".to_string(), is_dir: false, is_file: true },
        Entry { path: "/src/a/notes.txt".to_string(), is_dir: false, is_file: true },
        Entry { path: "/src/a/b".to_string(), is_dir: true, is_file: false },
        Entry { path: "/src/a/b/Bar.class".to_string(), is_dir: false, is_file: true },
    ];
    let items = discover_work_items(&entries, &wd, &td, false).unwrap();
    assert_eq!(items.len(), 2);
    assert_eq!(items[0].class_name.value(), "Foo");
    assert_eq!(items[0].parent_dotted_path.value(), "a");
    assert_eq!(items[1].class_name.value(), "Bar");
    assert_eq!(items[1].parent_dotted_path.value(), "a.b");
}

#[test]
fn discovery_fails_fast_on_a_malformed_entry() {
    let wd = WorkingDir::new("/src");
    let td = TargetDir::new("/out");
    let entries = vec![
        Entry { path: "/src/a/Foo.class".to_string(), is_dir: false, is_file: true },
        Entry { path: "/elsewhere/Bad.class".to_string(), is_dir: false, is_file: true },
        Entry { path: "/src/a/Baz.class".to_string(), is_dir: false, is_file: true },
    ];
    let err = discover_work_items(&entries, &wd, &td, false).unwrap_err();
    assert_eq!(err, ResolveError::OutsideSourceTree);
}

#[test]
fn discovery_of_an_empty_tree_yields_no_items() {
    let wd = WorkingDir::new("/src");
    let td = TargetDir::new("/out");
    let items = discover_work_items(&Vec::new(), &wd, &td, false).unwrap();
    assert_eq!(items.len(), 0);
}
