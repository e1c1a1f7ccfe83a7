//! The domain types of the batch driver. Paths are carried as plain strings
//! whose character sequences are the values the contracts speak about; the
//! process plumbing around the library converts to and from filesystem paths
//! at its own edge.

use vstd::prelude::*;

verus! {

/// The dot-separated namespace derived from a work item's relative directory.
#[derive(Debug)]
pub struct ParentDottedPath(String);

impl View for ParentDottedPath {
    type V = Seq<char>;

    closed spec fn view(&self) -> Seq<char> {
        self.0@
    }
}

impl ParentDottedPath {
    pub fn value(&self) -> (r: String)
        ensures
            r@ == self@,
    {
        self.0.clone()
    }

    pub fn new(package_str: &str) -> (r: Self)
        ensures
            r@ == package_str@,
    {
        ParentDottedPath(package_str.to_owned())
    }
}

/// The directory of a work item relative to the source root; it mirrors the
/// same directory under the target root.
#[derive(Debug)]
pub struct ParentRelativePath(String);

impl View for ParentRelativePath {
    type V = Seq<char>;

    closed spec fn view(&self) -> Seq<char> {
        self.0@
    }
}

impl ParentRelativePath {
    pub fn value(&self) -> (r: String)
        ensures
            r@ == self@,
    {
        self.0.clone()
    }

    pub fn new(relative_path: &str) -> (r: Self)
        ensures
            r@ == relative_path@,
    {
        ParentRelativePath(relative_path.to_owned())
    }
}

/// The bare name of one compiled unit, without its extension.
#[derive(Debug)]
pub struct ClassName(String);

impl View for ClassName {
    type V = Seq<char>;

    closed spec fn view(&self) -> Seq<char> {
        self.0@
    }
}

impl ClassName {
    pub fn value(&self) -> (r: String)
        ensures
            r@ == self@,
    {
        self.0.clone()
    }

    pub fn new(class_name: &str) -> (r: Self)
        ensures
            r@ == class_name@,
    {
        ClassName(class_name.to_owned())
    }
}

/// The source root: the directory holding the compiled class files, shared
/// read-only by every worker.
#[derive(Debug)]
pub struct WorkingDir(String);

impl View for WorkingDir {
    type V = Seq<char>;

    closed spec fn view(&self) -> Seq<char> {
        self.0@
    }
}

impl WorkingDir {
    pub fn to_string_lossy(&self) -> (r: String)
        ensures
            r@ == self@,
    {
        self.0.clone()
    }

    pub fn new(path: &str) -> (r: Self)
        ensures
            r@ == path@,
    {
        WorkingDir(path.to_owned())
    }
}

impl Clone for WorkingDir {
    fn clone(&self) -> (r: Self)
        ensures
            r@ == self@,
    {
        WorkingDir(self.0.clone())
    }
}

/// Joining a base directory and a relative path with a single separator;
/// an empty relative path leaves the base unchanged.
pub open spec fn join_spec(base: Seq<char>, rel: Seq<char>) -> Seq<char> {
    if rel.len() == 0 {
        base
    } else {
        base + "/"@ + rel
    }
}

/// The target root: the directory that receives the generated source files,
/// shared read-only by every worker.
#[derive(Debug)]
pub struct TargetDir(String);

impl View for TargetDir {
    type V = Seq<char>;

    closed spec fn view(&self) -> Seq<char> {
        self.0@
    }
}

impl TargetDir {
    pub fn new(path: &str) -> (r: Self)
        ensures
            r@ == path@,
    {
        TargetDir(path.to_owned())
    }

    pub fn to_string_lossy(&self) -> (r: String)
        ensures
            r@ == self@,
    {
        self.0.clone()
    }

    pub fn join(&self, path: &str) -> (r: Self)
        ensures
            r@ == join_spec(self@, path@),
    {
        if path.is_empty() {
            TargetDir(self.0.clone())
        } else {
            let joined = self.0.clone().concat("/").concat(path);
            TargetDir(joined)
        }
    }
}

impl Clone for TargetDir {
    fn clone(&self) -> (r: Self)
        ensures
            r@ == self@,
    {
        TargetDir(self.0.clone())
    }
}

/// The view of one resolved work item: every field the worker's behaviour
/// depends on, as plain character sequences.
#[verifier::ext_equal]
pub ghost struct ScalapArgumentsView {
    pub parent_dotted_path: Seq<char>,
    pub parent_relative_path: Seq<char>,
    pub class_name: Seq<char>,
    pub working_dir: Seq<char>,
    pub target_dir: Seq<char>,
}

/// One resolved work item: everything one decompile invocation needs.
#[derive(Debug)]
pub struct ScalapArguments {
    pub parent_dotted_path: ParentDottedPath,
    pub parent_relative_path: ParentRelativePath,
    pub class_name: ClassName,
    pub working_dir: WorkingDir,
    pub target_dir: TargetDir,
}

impl View for ScalapArguments {
    type V = ScalapArgumentsView;

    open spec fn view(&self) -> ScalapArgumentsView {
        ScalapArgumentsView {
            parent_dotted_path: self.parent_dotted_path@,
            parent_relative_path: self.parent_relative_path@,
            class_name: self.class_name@,
            working_dir: self.working_dir@,
            target_dir: self.target_dir@,
        }
    }
}

} // verus!
