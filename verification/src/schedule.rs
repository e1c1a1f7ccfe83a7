//! The batch scheduler's decisions: the fail-fast discovery pass over the
//! walked entries, the partitioning of work items into chunks bounded by the
//! concurrency ceiling, and the aggregation of per-item outcomes into one
//! run outcome. Driving a chunk's items concurrently is outside plumbing:
//! it consumes the chunks and hands back one outcome per item.

use vstd::prelude::*;

use crate::model::{ScalapArguments, ScalapArgumentsView, TargetDir, WorkingDir};
use crate::resolve::{
    accepted_spec, get_scalap_args, is_valid_file, resolve_spec, Entry, EntryView, ResolveError,
};
use crate::worker::{ItemFailure, ItemOutcome};

verus! {

/// The concurrency ceiling: the largest number of decompile invocations in
/// flight at once.
pub const PARALLELISM: usize = 50;

/// The views of a sequence of entries.
pub open spec fn entry_views(s: Seq<Entry>) -> Seq<EntryView> {
    Seq::new(s.len(), |i: int| s[i]@)
}

/// The views of a sequence of work items.
pub open spec fn args_views(s: Seq<ScalapArguments>) -> Seq<ScalapArgumentsView> {
    Seq::new(s.len(), |i: int| s[i]@)
}

/// What discovery yields from the entries at positions `from` and beyond:
/// the accepted entries' resolved work items in entry order, or the first
/// entry's resolution error — a single malformed entry aborts the whole
/// run before any execution starts.
pub open spec fn discover_from(
    entries: Seq<EntryView>,
    wd: Seq<char>,
    td: Seq<char>,
    exclude_inner: bool,
    from: int,
) -> Result<Seq<ScalapArgumentsView>, ResolveError>
    decreases entries.len() - from,
{
    if from < 0 || from >= entries.len() {
        Ok(Seq::empty())
    } else if !accepted_spec(entries[from], exclude_inner) {
        discover_from(entries, wd, td, exclude_inner, from + 1)
    } else {
        match resolve_spec(entries[from].path, wd, td) {
            Err(e) => Err(e),
            Ok(a) => match discover_from(entries, wd, td, exclude_inner, from + 1) {
                Err(e) => Err(e),
                Ok(rest) => Ok(seq![a] + rest),
            },
        }
    }
}

/// The whole discovery pass over the walked entries.
pub open spec fn discover_spec(
    entries: Seq<EntryView>,
    wd: Seq<char>,
    td: Seq<char>,
    exclude_inner: bool,
) -> Result<Seq<ScalapArgumentsView>, ResolveError> {
    discover_from(entries, wd, td, exclude_inner, 0)
}

/// Discovery, executably: filter every entry, resolve each survivor into a
/// work item, and fail fast on the first malformed one.
pub fn discover_work_items(
    entries: &Vec<Entry>,
    working_dir: &WorkingDir,
    target_dir: &TargetDir,
    exclude_inner: bool,
) -> (r: Result<Vec<ScalapArguments>, ResolveError>)
    ensures
        match r {
            Ok(items) => discover_spec(entry_views(entries@), working_dir@, target_dir@, exclude_inner)
                == Ok::<Seq<ScalapArgumentsView>, ResolveError>(args_views(items@)),
            Err(e) => discover_spec(entry_views(entries@), working_dir@, target_dir@, exclude_inner)
                == Err::<Seq<ScalapArgumentsView>, ResolveError>(e),
        },
{
    let ghost evs = entry_views(entries@);
    let n = entries.len();
    let mut out: Vec<ScalapArguments> = Vec::new();
    let mut idx: usize = 0;
    while idx < n
        invariant
            n == entries@.len(),
            idx <= n,
            evs == entry_views(entries@),
            match discover_from(evs, working_dir@, target_dir@, exclude_inner, idx as int) {
                Ok(rest) => discover_from(evs, working_dir@, target_dir@, exclude_inner, 0)
                    == Ok::<Seq<ScalapArgumentsView>, ResolveError>(args_views(out@) + rest),
                Err(e) => discover_from(evs, working_dir@, target_dir@, exclude_inner, 0)
                    == Err::<Seq<ScalapArgumentsView>, ResolveError>(e),
            },
        decreases n - idx,
    {
        let entry = &entries[idx];
        proof {
            assert(evs[idx as int] == entry@);
        }
        if is_valid_file(entry, exclude_inner) {
            match get_scalap_args(entry.path.as_str(), working_dir, target_dir) {
                Err(e) => {
                    return Err(e);
                },
                Ok(args) => {
                    let ghost out_pre = out@;
                    out.push(args);
                    proof {
                        assert(args_views(out@) =~= args_views(out_pre).push(args@));
                        match discover_from(
                            evs,
                            working_dir@,
                            target_dir@,
                            exclude_inner,
                            idx + 1,
                        ) {
                            Ok(rest) => {
                                assert(args_views(out_pre) + (seq![args@] + rest) =~= args_views(
                                    out@,
                                ) + rest);
                            },
                            Err(_) => {},
                        }
                    }
                },
            }
        }
        idx += 1;
    }
    proof {
        assert(args_views(out@) + Seq::<ScalapArgumentsView>::empty() =~= args_views(out@));
    }
    Ok(out)
}

/// The concatenation of a sequence of chunks.
pub open spec fn flat_chunks(chunks: Seq<Seq<ScalapArguments>>) -> Seq<ScalapArguments>
    decreases chunks.len(),
{
    if chunks.len() == 0 {
        Seq::empty()
    } else {
        flat_chunks(chunks.drop_last()) + chunks.last()
    }
}

/// The contents of a sequence of chunk vectors.
pub open spec fn chunk_views(chunks: Seq<Vec<ScalapArguments>>) -> Seq<Seq<ScalapArguments>> {
    Seq::new(chunks.len(), |i: int| chunks[i]@)
}

/// Partitioning the ordered work items into chunks of at most `chunk_size`
/// items: concatenating the chunks reproduces the discovered sequence
/// exactly, no chunk is empty or exceeds the ceiling, and every chunk but
/// the last is full.
pub fn chunk_items(items: Vec<ScalapArguments>, chunk_size: usize) -> (chunks: Vec<
    Vec<ScalapArguments>,
>)
    requires
        chunk_size >= 1,
    ensures
        flat_chunks(chunk_views(chunks@)) == items@,
        forall|i: int| 0 <= i < chunks@.len() ==> 1 <= (#[trigger] chunks@[i]@.len())
            <= chunk_size as int,
        forall|i: int| 0 <= i < chunks@.len() - 1 ==> (#[trigger] chunks@[i]@.len())
            == chunk_size as int,
        chunks@.len() == 0 <==> items@.len() == 0,
{
    let ghost orig = items@;
    let mut rest = items;
    let mut chunks: Vec<Vec<ScalapArguments>> = Vec::new();
    while rest.len() > 0
        invariant
            chunk_size >= 1,
            flat_chunks(chunk_views(chunks@)) + rest@ == orig,
            forall|i: int| 0 <= i < chunks@.len() ==> 1 <= (#[trigger] chunks@[i]@.len())
                <= chunk_size as int,
            forall|i: int| 0 <= i < chunks@.len() - 1 ==> (#[trigger] chunks@[i]@.len())
                == chunk_size as int,
            rest@.len() > 0 && chunks@.len() > 0 ==> chunks@[chunks@.len() - 1]@.len()
                == chunk_size as int,
        decreases rest@.len(),
    {
        let ghost chunks_pre = chunks@;
        if rest.len() > chunk_size {
            let tail = rest.split_off(chunk_size);
            chunks.push(rest);
            rest = tail;
        } else {
            chunks.push(rest);
            rest = Vec::new();
        }
        proof {
            assert(chunk_views(chunks@).drop_last() =~= chunk_views(chunks_pre));
            assert(flat_chunks(chunk_views(chunks@)) + rest@ =~= orig);
        }
    }
    proof {
        if chunks@.len() > 0 {
            assert(flat_chunks(chunk_views(chunks@)).len() >= chunks@[chunks@.len() - 1]@.len());
        }
        assert(flat_chunks(chunk_views(chunks@)) + rest@ =~= flat_chunks(chunk_views(chunks@)));
    }
    chunks
}

/// The failures among a sequence of outcomes, in order: exactly one entry
/// per failed item.
pub open spec fn failures_of(outcomes: Seq<ItemOutcome>) -> Seq<ItemFailure>
    decreases outcomes.len(),
{
    if outcomes.len() == 0 {
        Seq::empty()
    } else {
        failures_of(outcomes.drop_last()) + (match outcomes.last() {
            ItemOutcome::Failed { failure } => seq![failure],
            ItemOutcome::Succeeded { .. } => Seq::empty(),
        })
    }
}

/// How many of the outcomes failed.
pub open spec fn failed_count(outcomes: Seq<ItemOutcome>) -> nat
    decreases outcomes.len(),
{
    if outcomes.len() == 0 {
        0
    } else {
        failed_count(outcomes.drop_last()) + (match outcomes.last() {
            ItemOutcome::Failed { .. } => 1nat,
            ItemOutcome::Succeeded { .. } => 0nat,
        })
    }
}

/// The aggregation law: the collected causes hold exactly one entry per
/// failed item, and there are none exactly when every item succeeded.
pub proof fn lemma_aggregation(outcomes: Seq<ItemOutcome>)
    ensures
        failures_of(outcomes).len() == failed_count(outcomes),
        failed_count(outcomes) == 0 <==> (forall|i: int|
            0 <= i < outcomes.len() ==> outcomes[i] is Succeeded),
    decreases outcomes.len(),
{
    if outcomes.len() > 0 {
        let dl = outcomes.drop_last();
        lemma_aggregation(dl);
        assert(forall|i: int| 0 <= i < dl.len() ==> dl[i] == outcomes[i]);
    }
}

/// The aggregate outcome of a run.
#[derive(Debug)]
pub enum BatchOutcome {
    AllSucceeded,
    AtLeastOneFailed { causes: Vec<ItemFailure> },
}

/// Aggregating per-item outcomes: success exactly when no item failed,
/// otherwise the causes of every failed item, in order.
pub fn aggregate_outcomes(outcomes: Vec<ItemOutcome>) -> (r: BatchOutcome)
    ensures
        match r {
            BatchOutcome::AllSucceeded => failures_of(outcomes@).len() == 0,
            BatchOutcome::AtLeastOneFailed { causes } => causes@ == failures_of(outcomes@)
                && causes@.len() > 0,
        },
{
    let ghost orig = outcomes@;
    let mut rest = outcomes;
    let mut causes: Vec<ItemFailure> = Vec::new();
    let ghost mut done: int = 0;
    while rest.len() > 0
        invariant
            0 <= done <= orig.len(),
            rest@ == orig.subrange(done, orig.len() as int),
            causes@ == failures_of(orig.subrange(0, done)),
        decreases rest@.len(),
    {
        let o = rest.remove(0);
        proof {
            assert(o == orig[done]);
        }
        match o {
            ItemOutcome::Succeeded { .. } => {
            },
            ItemOutcome::Failed { failure } => {
                causes.push(failure);
            },
        }
        proof {
            assert(orig.subrange(0, done + 1).drop_last() =~= orig.subrange(0, done));
            assert(orig.subrange(0, done + 1).last() == orig[done]);
            assert(rest@ =~= orig.subrange(done + 1, orig.len() as int));
            done = done + 1;
        }
    }
    proof {
        assert(orig.subrange(0, orig.len() as int) =~= orig);
    }
    if causes.len() == 0 {
        BatchOutcome::AllSucceeded
    } else {
        BatchOutcome::AtLeastOneFailed { causes }
    }
}

/// Why a whole run failed.
#[derive(Debug)]
pub enum RunError {
    /// Discovery hit a malformed entry; nothing was executed.
    Discovery { cause: ResolveError },
    /// One or more items failed; every failure's cause is carried.
    AggregateExecution { causes: Vec<ItemFailure> },
    /// The concurrency substrate itself failed to complete a task —
    /// distinct from a task reporting an item failure.
    SchedulingInfrastructure { detail: String },
}

/// The run's final result from its per-item outcomes: success exactly when
/// every item succeeded — an empty batch counts as success — and otherwise
/// the aggregate failure carrying one cause per failed item.
pub fn finish_run(outcomes: Vec<ItemOutcome>) -> (r: Result<(), RunError>)
    ensures
        match r {
            Ok(_) => failures_of(outcomes@).len() == 0,
            Err(RunError::AggregateExecution { causes }) => causes@ == failures_of(outcomes@)
                && causes@.len() > 0,
            Err(_) => false,
        },
{
    match aggregate_outcomes(outcomes) {
        BatchOutcome::AllSucceeded => Ok(()),
        BatchOutcome::AtLeastOneFailed { causes } => Err(RunError::AggregateExecution { causes }),
    }
}

/// Discovery is deterministic: two passes over entries with the same views
/// and the same roots resolve to work items with the same views, or to the
/// same error. With a deterministic external tool this makes a re-run of
/// the whole batch byte-identical.
pub proof fn lemma_discovery_deterministic(
    entries1: Vec<Entry>,
    working_dir1: WorkingDir,
    target_dir1: TargetDir,
    r1: Result<Vec<ScalapArguments>, ResolveError>,
    entries2: Vec<Entry>,
    working_dir2: WorkingDir,
    target_dir2: TargetDir,
    r2: Result<Vec<ScalapArguments>, ResolveError>,
    exclude_inner: bool,
)
    requires
        entry_views(entries1@) == entry_views(entries2@),
        working_dir1@ == working_dir2@,
        target_dir1@ == target_dir2@,
        call_ensures(discover_work_items, (&entries1, &working_dir1, &target_dir1, exclude_inner), r1),
        call_ensures(discover_work_items, (&entries2, &working_dir2, &target_dir2, exclude_inner), r2),
    ensures
        match (r1, r2) {
            (Ok(items1), Ok(items2)) => args_views(items1@) == args_views(items2@),
            (Err(e1), Err(e2)) => e1 == e2,
            _ => false,
        },
{
}

} // verus!
