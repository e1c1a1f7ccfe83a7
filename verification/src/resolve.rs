//! Discovery: filtering directory-walk entries and resolving each surviving
//! entry into a work item. Resolution derives the unit name, the relative
//! output directory and the dotted namespace from the entry's path and the
//! source root, and fails fast on the first malformed entry.

use vstd::prelude::*;

use crate::model::{
    ClassName, ParentDottedPath, ParentRelativePath, ScalapArguments, ScalapArgumentsView,
    TargetDir, WorkingDir,
};
use crate::text::{
    contains_char, dotted_of, ends_with, find_first, find_last_slash, first_match,
    has_class_suffix, last_index_of, lemma_last_index_of, str_contains_char, strip_class_suffix,
    strip_class_suffix_exec, strip_leading_slash, to_dotted,
};

verus! {

/// Why an entry could not be resolved into a work item. Any one of these
/// aborts the whole discovery phase before any execution starts.
#[derive(Clone, Copy, Debug, PartialEq, Eq, Structural)]
pub enum ResolveError {
    /// The entry's path has no name component after its last separator.
    NoFileName,
    /// The entry's path has no parent directory component.
    NoParentDir,
    /// The parent directory does not contain the source root, so the entry
    /// lies outside the expected tree.
    OutsideSourceTree,
}

/// One directory-walk entry, as the plain values the filter reads: its path
/// and what kind of filesystem object it is.
pub struct Entry {
    pub path: String,
    pub is_dir: bool,
    pub is_file: bool,
}

/// The view of an `Entry`.
#[verifier::ext_equal]
pub ghost struct EntryView {
    pub path: Seq<char>,
    pub is_dir: bool,
    pub is_file: bool,
}

impl View for Entry {
    type V = EntryView;

    open spec fn view(&self) -> EntryView {
        EntryView { path: self.path@, is_dir: self.is_dir, is_file: self.is_file }
    }
}

/// The name component of a path: what follows the last '/', or the whole
/// path when it has no '/'.
pub open spec fn file_name_of(path: Seq<char>) -> Seq<char> {
    match last_index_of(path, '/') {
        None => path,
        Some(k) => path.subrange(k + 1, path.len() as int),
    }
}

/// Which entries are convertible units: regular files (never directories)
/// whose name ends with the compiled-unit suffix; when `exclude_inner` is
/// set, names carrying the nested-unit marker '$' are rejected as well.
pub open spec fn accepted_spec(e: EntryView, exclude_inner: bool) -> bool {
    &&& !e.is_dir
    &&& e.is_file
    &&& ends_with(file_name_of(e.path), ".class"@)
    &&& (exclude_inner ==> !contains_char(file_name_of(e.path), '$'))
}

/// Directories are never accepted by the filter, so they are never resolved
/// into work items.
pub proof fn lemma_directories_never_accepted(e: EntryView, exclude_inner: bool)
    ensures
        e.is_dir ==> !accepted_spec(e, exclude_inner),
{
}

/// The filter over directory-walk entries, executably.
pub fn is_valid_file(entry: &Entry, exclude_inner: bool) -> (r: bool)
    ensures
        r == accepted_spec(entry@, exclude_inner),
{
    if entry.is_dir || !entry.is_file {
        return false;
    }
    let path = entry.path.as_str();
    let name = match find_last_slash(path) {
        None => path,
        Some(k) => {
            let n = path.unicode_len();
            proof {
                lemma_last_index_of(path@, '/');
            }
            path.substring_char(k + 1, n)
        },
    };
    if !has_class_suffix(name) {
        return false;
    }
    if exclude_inner && str_contains_char(name, '$') {
        return false;
    }
    true
}

/// What resolving one path against the roots yields: the dotted namespace,
/// the relative output directory and the unit name, or the error that aborts
/// discovery. The relative directory is the parent path with everything up
/// to and including the first occurrence of the source root removed and one
/// leading separator stripped; the namespace is that directory with
/// separators replaced by dots; the unit name is the file name without its
/// compiled-unit suffix.
pub open spec fn resolve_spec(path: Seq<char>, wd: Seq<char>, td: Seq<char>) -> Result<
    ScalapArgumentsView,
    ResolveError,
> {
    match last_index_of(path, '/') {
        None => Err(ResolveError::NoParentDir),
        Some(k) => {
            let name_part = path.subrange(k + 1, path.len() as int);
            let parent = path.subrange(0, k);
            if name_part.len() == 0 {
                Err(ResolveError::NoFileName)
            } else {
                match first_match(parent, wd) {
                    None => Err(ResolveError::OutsideSourceTree),
                    Some(i) => {
                        let rel = strip_leading_slash(
                            parent.subrange(i + wd.len(), parent.len() as int),
                        );
                        Ok(ScalapArgumentsView {
                            parent_dotted_path: dotted_of(rel),
                            parent_relative_path: rel,
                            class_name: strip_class_suffix(name_part),
                            working_dir: wd,
                            target_dir: td,
                        })
                    },
                }
            }
        },
    }
}

/// A resolved unit name never holds a path separator: it is taken from what
/// follows the path's last '/'. This is what keeps distinct work items'
/// output files distinct.
pub proof fn lemma_resolved_name_has_no_slash(path: Seq<char>, wd: Seq<char>, td: Seq<char>)
    ensures
        match resolve_spec(path, wd, td) {
            Ok(v) => !contains_char(v.class_name, '/'),
            Err(_) => true,
        },
{
    lemma_last_index_of(path, '/');
    if let Some(k) = last_index_of(path, '/') {
        let name_part = path.subrange(k + 1, path.len() as int);
        assert(forall|j: int| 0 <= j < name_part.len() ==> name_part[j] == path[k + 1 + j]);
        reveal_strlit(".class");
    }
}

/// Resolving one entry's path into a work item, executably.
pub fn get_scalap_args(path: &str, working_dir: &WorkingDir, target_dir: &TargetDir) -> (r: Result<
    ScalapArguments,
    ResolveError,
>)
    ensures
        match r {
            Ok(args) => resolve_spec(path@, working_dir@, target_dir@) == Ok::<ScalapArgumentsView, ResolveError>(args@),
            Err(e) => resolve_spec(path@, working_dir@, target_dir@) == Err::<
                ScalapArgumentsView,
                ResolveError,
            >(e),
        },
{
    let n = path.unicode_len();
    let k = match find_last_slash(path) {
        None => {
            return Err(ResolveError::NoParentDir);
        },
        Some(k) => k,
    };
    proof {
        lemma_last_index_of(path@, '/');
    }
    let name_part = path.substring_char(k + 1, n);
    let parent = path.substring_char(0, k);
    if name_part.unicode_len() == 0 {
        return Err(ResolveError::NoFileName);
    }
    let wd_string = working_dir.to_string_lossy();
    let wd = wd_string.as_str();
    let i = match find_first(parent, wd) {
        None => {
            return Err(ResolveError::OutsideSourceTree);
        },
        Some(i) => i,
    };
    proof {
        crate::text::lemma_first_match_props(parent@, wd@);
    }
    let wn = wd.unicode_len();
    let pn = parent.unicode_len();
    let rel0 = parent.substring_char(i + wn, pn);
    let rel = if rel0.unicode_len() > 0 && rel0.get_char(0) == '/' {
        let rn = rel0.unicode_len();
        rel0.substring_char(1, rn)
    } else {
        rel0
    };
    let dotted = to_dotted(rel);
    let class_name = strip_class_suffix_exec(name_part);
    let args = ScalapArguments {
        parent_dotted_path: ParentDottedPath::new(dotted.as_str()),
        parent_relative_path: ParentRelativePath::new(rel),
        class_name: ClassName::new(class_name.as_str()),
        working_dir: working_dir.clone(),
        target_dir: target_dir.clone(),
    };
    proof {
        assert(args@ =~= resolve_spec(path@, working_dir@, target_dir@)->Ok_0);
    }
    Ok(args)
}

} // verus!
