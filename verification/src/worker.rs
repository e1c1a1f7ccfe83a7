//! The decompile worker's decisions: from one work item, the output
//! directory, the fully-qualified dotted name handed to the external tool,
//! and the target file path; from the tool's captured output, the bytes to
//! persist verbatim; and from what happened to the invocation, the item's
//! outcome. The directory creation, the subprocess spawn and the file write
//! themselves are outside plumbing driven by these values.

use vstd::prelude::*;

use crate::model::{join_spec, ScalapArguments, TargetDir};
use crate::resolve::{lemma_resolved_name_has_no_slash, resolve_spec};

verus! {

/// The fully-qualified dotted name of a unit: namespace, dot, unit name.
pub open spec fn fq_name_spec(dotted: Seq<char>, name: Seq<char>) -> Seq<char> {
    dotted + "."@ + name
}

/// The path of the generated source file: output directory, separator, unit
/// name, source extension.
pub open spec fn target_file_spec(output_dir: Seq<char>, name: Seq<char>) -> Seq<char> {
    output_dir + "/"@ + name + ".scala"@
}

/// Everything one decompile invocation is driven by: the directory to
/// create, the argument to hand the external tool, and the file to write.
pub struct DecompilePlan {
    pub output_dir: TargetDir,
    pub dotted_scala_file: String,
    pub target_scala_file: String,
}

/// The plan for one work item, executably.
pub fn decompile_plan(args: &ScalapArguments) -> (p: DecompilePlan)
    ensures
        p.output_dir@ == join_spec(args.target_dir@, args.parent_relative_path@),
        p.dotted_scala_file@ == fq_name_spec(args.parent_dotted_path@, args.class_name@),
        p.target_scala_file@ == target_file_spec(
            join_spec(args.target_dir@, args.parent_relative_path@),
            args.class_name@,
        ),
{
    let rel = args.parent_relative_path.value();
    let output_dir = args.target_dir.join(rel.as_str());
    let name = args.class_name.value();
    let mut dotted_scala_file = args.parent_dotted_path.value();
    dotted_scala_file.append(".");
    dotted_scala_file.append(name.as_str());
    let mut target_scala_file = output_dir.to_string_lossy();
    target_scala_file.append("/");
    target_scala_file.append(name.as_str());
    target_scala_file.append(".scala");
    DecompilePlan { output_dir, dotted_scala_file, target_scala_file }
}

/// One pending file write: the captured standard output of the external
/// tool, destined verbatim for the target file — also when the tool
/// reported failure or produced no output.
pub struct WriteRequest {
    pub path: String,
    pub bytes: Vec<u8>,
}

/// The write that persists a tool invocation's captured output, executably.
pub fn write_request(plan: &DecompilePlan, stdout: Vec<u8>) -> (w: WriteRequest)
    ensures
        w.path@ == plan.target_scala_file@,
        w.bytes@ == stdout@,
{
    WriteRequest { path: plan.target_scala_file.clone(), bytes: stdout }
}

/// Why one work item failed.
#[derive(Debug)]
pub enum ItemFailure {
    /// Directory creation or file write failed.
    Io { detail: String },
    /// The external tool could not be started at all — distinct from the
    /// tool running and reporting failure, since the remediation differs.
    ToolInvocation { detail: String },
    /// The tool ran and exited with a non-zero status; its output was still
    /// persisted. Carries the unit's fully-qualified name.
    NonZeroExit { dotted_scala_file: String },
}

/// The outcome of one work item's invocation.
#[derive(Debug)]
pub enum ItemOutcome {
    Succeeded { dotted_scala_file: String },
    Failed { failure: ItemFailure },
}

/// What happened while the outside plumbing drove one work item.
#[derive(Debug)]
pub enum WorkerEvent {
    /// The output directory could not be created.
    DirCreateFailed { detail: String },
    /// The external tool could not be started (missing from the search
    /// path, or not launchable).
    SpawnFailed { detail: String },
    /// The captured output could not be written to the target file.
    WriteFailed { detail: String },
    /// The tool ran to completion and its output was persisted; `success`
    /// is its exit status.
    ToolExited { success: bool },
}

/// The outcome an event maps to: creation and write failures are I/O
/// failures, a failed spawn is a tool-invocation failure, and a completed
/// run succeeds exactly when the exit status does.
pub open spec fn worker_outcome_spec(dotted_scala_file: String, event: WorkerEvent) -> ItemOutcome {
    match event {
        WorkerEvent::DirCreateFailed { detail } => ItemOutcome::Failed {
            failure: ItemFailure::Io { detail },
        },
        WorkerEvent::SpawnFailed { detail } => ItemOutcome::Failed {
            failure: ItemFailure::ToolInvocation { detail },
        },
        WorkerEvent::WriteFailed { detail } => ItemOutcome::Failed {
            failure: ItemFailure::Io { detail },
        },
        WorkerEvent::ToolExited { success } => if success {
            ItemOutcome::Succeeded { dotted_scala_file }
        } else {
            ItemOutcome::Failed {
                failure: ItemFailure::NonZeroExit { dotted_scala_file },
            }
        },
    }
}

/// Recording one work item's outcome, executably.
pub fn worker_outcome(dotted_scala_file: String, event: WorkerEvent) -> (o: ItemOutcome)
    ensures
        o == worker_outcome_spec(dotted_scala_file, event),
{
    match event {
        WorkerEvent::DirCreateFailed { detail } => ItemOutcome::Failed {
            failure: ItemFailure::Io { detail },
        },
        WorkerEvent::SpawnFailed { detail } => ItemOutcome::Failed {
            failure: ItemFailure::ToolInvocation { detail },
        },
        WorkerEvent::WriteFailed { detail } => ItemOutcome::Failed {
            failure: ItemFailure::Io { detail },
        },
        WorkerEvent::ToolExited { success } => if success {
            ItemOutcome::Succeeded { dotted_scala_file }
        } else {
            ItemOutcome::Failed {
                failure: ItemFailure::NonZeroExit { dotted_scala_file },
            }
        },
    }
}

/// The actionable message for a tool that could not be started, pointing at
/// the search path rather than at the tool's own exit status.
pub fn spawn_failure_message(detail: &str) -> (r: String)
    ensures
        r@ == "Could not run 'scalap'. Is 'scalap' accessible on your PATH? Error: "@ + detail@,
{
    let mut message = "Could not run 'scalap'. Is 'scalap' accessible on your PATH? Error: "
        .to_owned();
    message.append(detail);
    message
}

/// Every work item's output lands strictly below the target root: the
/// output directory extends it and the target file extends it properly, so
/// no two roots' runs and no item and its root ever collide on a path.
pub proof fn lemma_output_under_target(target: Seq<char>, rel: Seq<char>, name: Seq<char>)
    ensures
        target.is_prefix_of(join_spec(target, rel)),
        target.is_prefix_of(target_file_spec(join_spec(target, rel), name)),
        target.len() < target_file_spec(join_spec(target, rel), name).len(),
{
    reveal_strlit("/");
    reveal_strlit(".scala");
    let out = join_spec(target, rel);
    let file = target_file_spec(out, name);
    assert(out.subrange(0, target.len() as int) =~= target);
    assert(file.subrange(0, target.len() as int) =~= target);
}

/// No two work items ever contend on the same output file: as long as the
/// unit names hold no separator — resolution guarantees that — items that
/// differ in their relative directory or their unit name write to distinct
/// target files, so concurrent workers need no locking.
pub proof fn lemma_distinct_items_distinct_outputs(
    td: Seq<char>,
    rel1: Seq<char>,
    name1: Seq<char>,
    rel2: Seq<char>,
    name2: Seq<char>,
)
    requires
        !crate::text::contains_char(name1, '/'),
        !crate::text::contains_char(name2, '/'),
        rel1 != rel2 || name1 != name2,
    ensures
        target_file_spec(join_spec(td, rel1), name1) != target_file_spec(
            join_spec(td, rel2),
            name2,
        ),
{
    reveal_strlit("/");
    reveal_strlit(".scala");
    let f1 = target_file_spec(join_spec(td, rel1), name1);
    let f2 = target_file_spec(join_spec(td, rel2), name2);
    let mid1 = if rel1.len() == 0 { name1 } else { rel1 + "/"@ + name1 };
    let mid2 = if rel2.len() == 0 { name2 } else { rel2 + "/"@ + name2 };
    assert(f1 =~= td + "/"@ + mid1 + ".scala"@);
    assert(f2 =~= td + "/"@ + mid2 + ".scala"@);
    if f1 == f2 {
        assert(mid1.len() == mid2.len());
        assert(mid1 =~= f1.subrange(td.len() as int + 1, td.len() + 1 + mid1.len() as int));
        assert(mid2 =~= f2.subrange(td.len() as int + 1, td.len() + 1 + mid2.len() as int));
        assert(mid1 == mid2);
        if rel1.len() == 0 && rel2.len() == 0 {
            assert(rel1 =~= rel2);
        } else if rel1.len() == 0 {
            assert(mid2[rel2.len() as int] == '/');
            assert(name1[rel2.len() as int] == '/');
        } else if rel2.len() == 0 {
            assert(mid1[rel1.len() as int] == '/');
            assert(name2[rel1.len() as int] == '/');
        } else {
            if rel1.len() < rel2.len() {
                assert(mid2[rel2.len() as int] == '/');
                assert(mid1[rel2.len() as int] == name1[rel2.len() - rel1.len() - 1]);
            } else if rel2.len() < rel1.len() {
                assert(mid1[rel1.len() as int] == '/');
                assert(mid2[rel1.len() as int] == name2[rel1.len() - rel2.len() - 1]);
            } else {
                assert(name1 =~= mid1.subrange(rel1.len() as int + 1, mid1.len() as int));
                assert(name2 =~= mid2.subrange(rel2.len() as int + 1, mid2.len() as int));
                assert(rel1 =~= mid1.subrange(0, rel1.len() as int));
                assert(rel2 =~= mid2.subrange(0, rel2.len() as int));
            }
        }
    }
}

/// Two work items resolved against the same roots never share an output
/// file unless they agree on both the relative directory and the unit name:
/// the non-overlap that lets concurrent workers write without locking.
pub proof fn lemma_resolved_outputs_never_collide(
    path1: Seq<char>,
    path2: Seq<char>,
    wd: Seq<char>,
    td: Seq<char>,
)
    ensures
        match (resolve_spec(path1, wd, td), resolve_spec(path2, wd, td)) {
            (Ok(v1), Ok(v2)) => (v1.parent_relative_path != v2.parent_relative_path
                || v1.class_name != v2.class_name) ==> target_file_spec(
                join_spec(td, v1.parent_relative_path),
                v1.class_name,
            ) != target_file_spec(join_spec(td, v2.parent_relative_path), v2.class_name),
            _ => true,
        },
{
    lemma_resolved_name_has_no_slash(path1, wd, td);
    lemma_resolved_name_has_no_slash(path2, wd, td);
    match (resolve_spec(path1, wd, td), resolve_spec(path2, wd, td)) {
        (Ok(v1), Ok(v2)) => {
            if v1.parent_relative_path != v2.parent_relative_path || v1.class_name
                != v2.class_name {
                lemma_distinct_items_distinct_outputs(
                    td,
                    v1.parent_relative_path,
                    v1.class_name,
                    v2.parent_relative_path,
                    v2.class_name,
                );
            }
        },
        _ => {},
    }
}

/// Re-running an item against an unchanged tree is byte-identical: any two
/// results of `write_request` for plans with the same target file and the
/// same captured output (the external tool assumed deterministic) agree on
/// the path written and on every byte written.
pub proof fn lemma_rerun_byte_identical(
    plan1: DecompilePlan,
    stdout1: Vec<u8>,
    w1: WriteRequest,
    plan2: DecompilePlan,
    stdout2: Vec<u8>,
    w2: WriteRequest,
)
    requires
        plan1.target_scala_file@ == plan2.target_scala_file@,
        stdout1@ == stdout2@,
        call_ensures(write_request, (&plan1, stdout1), w1),
        call_ensures(write_request, (&plan2, stdout2), w2),
    ensures
        w1.path@ == w2.path@,
        w1.bytes@ == w2.bytes@,
{
}

/// The plan itself is a function of the work item alone: any two results of
/// `decompile_plan` for items with equal views agree on the output
/// directory, the dotted name and the target file.
pub proof fn lemma_plan_deterministic(
    args1: ScalapArguments,
    p1: DecompilePlan,
    args2: ScalapArguments,
    p2: DecompilePlan,
)
    requires
        args1@ == args2@,
        call_ensures(decompile_plan, (&args1,), p1),
        call_ensures(decompile_plan, (&args2,), p2),
    ensures
        p1.output_dir@ == p2.output_dir@,
        p1.dotted_scala_file@ == p2.dotted_scala_file@,
        p1.target_scala_file@ == p2.target_scala_file@,
{
}

} // verus!
