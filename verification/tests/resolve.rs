use scalap_batch::model::{TargetDir, WorkingDir};
use scalap_batch::resolve::{get_scalap_args, is_valid_file, Entry, ResolveError};

fn entry(path: &str, is_dir: bool, is_file: bool) -> Entry {
    Entry { path: path.to_string(), is_dir, is_file }
}

#[test]
fn resolves_nested_class_file() {
    let wd = WorkingDir::new("/src");
    let td = TargetDir::new("/out");
    let args = get_scalap_args("/src/a/b/Foo.class", &wd, &td).unwrap();
    assert_eq!(args.parent_dotted_path.value(), "a.b");
    assert_eq!(args.parent_relative_path.value(), "a/b");
    assert_eq!(args.class_name.value(), "Foo");
    assert_eq!(args.working_dir.to_string_lossy(), "/src");
    assert_eq!(args.target_dir.to_string_lossy(), "/out");
}

#[test]
fn resolves_class_file_at_root() {
    let wd = WorkingDir::new("/src");
    let td = TargetDir::new("/out");
    let args = get_scalap_args("/src/Foo.class", &wd, &td).unwrap();
    assert_eq!(args.parent_dotted_path.value(), "");
    assert_eq!(args.parent_relative_path.value(), "");
    assert_eq!(args.class_name.value(), "Foo");
}

#[test]
fn resolves_deeply_nested_namespace() {
    let wd = WorkingDir::new("/work/classes");
    let td = TargetDir::new("/tmp/out");
    let args = get_scalap_args("/work/classes/com/example/deep/Bar.class", &wd, &td).unwrap();
    assert_eq!(args.parent_dotted_path.value(), "com.example.deep");
    assert_eq!(args.parent_relative_path.value(), "com/example/deep");
    assert_eq!(args.class_name.value(), "Bar");
}

#[test]
fn source_root_is_found_anywhere_in_the_parent_path() {
    let wd = WorkingDir::new("/src");
    let td = TargetDir::new("/out");
    let args = get_scalap_args("/mnt/data/src/a/Foo.class", &wd, &td).unwrap();
    assert_eq!(args.parent_relative_path.value(), "a");
    assert_eq!(args.parent_dotted_path.value(), "a");
    assert_eq!(args.class_name.value(), "Foo");
}

#[test]
fn resolves_names_beyond_ascii() {
    let wd = WorkingDir::new("/src");
    let td = TargetDir::new("/out");
    let args = get_scalap_args("/src/päck/Ünit.class", &wd, &td).unwrap();
    assert_eq!(args.parent_dotted_path.value(), "päck");
    assert_eq!(args.class_name.value(), "Ünit");
}

#[test]
fn path_without_parent_is_rejected() {
    let wd = WorkingDir::new("/src");
    let td = TargetDir::new("/out");
    let err = get_scalap_args("Foo.class", &wd, &td).unwrap_err();
    assert_eq!(err, ResolveError::NoParentDir);
}

#[test]
fn path_without_file_name_is_rejected() {
    let wd = WorkingDir::new("/src");
    let td = TargetDir::new("/out");
    let err = get_scalap_args("/src/a/", &wd, &td).unwrap_err();
    assert_eq!(err, ResolveError::NoFileName);
}

#[test]
fn path_outside_source_tree_is_rejected() {
    let wd = WorkingDir::new("/src");
    let td = TargetDir::new("/out");
    let err = get_scalap_args("/elsewhere/a/Foo.class", &wd, &td).unwrap_err();
    assert_eq!(err, ResolveError::OutsideSourceTree);
}

#[test]
fn filter_accepts_class_file() {
    assert!(is_valid_file(&entry("/src/a/Foo.class", false, true), false));
}

#[test]
fn filter_rejects_directory() {
    // A directory is never a work item, whatever its name looks like.
    assert!(!is_valid_file(&entry("/src/a/Foo.class", true, false), false));
    assert!(!is_valid_file(&entry("/src/a", true, false), false));
}

#[test]
fn filter_rejects_non_file_entry() {
    assert!(!is_valid_file(&entry("/src/a/Foo.class", false, false), false));
}

#[test]
fn filter_rejects_other_extensions() {
    assert!(!is_valid_file(&entry("/src/a/Foo.scala", false, true), false));
    assert!(!is_valid_file(&entry("/src/a/Foo.classes", false, true), false));
    assert!(!is_valid_file(&entry("/src/a/Foo", false, true), false));
}

#[test]
fn filter_inner_unit_marker_is_a_toggle() {
    let inner = entry("/src/a/Foo$Bar.class", false, true);
    assert!(is_valid_file(&inner, false));
    assert!(!is_valid_file(&inner, true));
    let outer = entry("/src/a/Foo.class", false, true);
    assert!(is_valid_file(&outer, true));
}
