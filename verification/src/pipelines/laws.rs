//! Properties of pipelines that span their operations.

use vstd::prelude::*;
use crate::pipelines::event::{event_names_handle, handles_kind, FileEventKind};
use crate::pipelines::move_to_dir::{move_step, MoveEvent, MovePhase, MoveRequest, MoveToDirRun};
use crate::pipelines::pipeline_context_input::PipelineContextInput;
use crate::pipelines::pipeline_execution_context::PipelineExecutionContext;
use crate::std_bindings::lowercase;
use crate::text::first_occurrences;

verus! {

proof fn lemma_push_contains<A>(q: Seq<A>, y: A, x: A)
    ensures
        q.push(y).contains(x) <==> (q.contains(x) || x == y),
{
    if q.push(y).contains(x) && x != y {
        let k = choose|k: int| 0 <= k < q.push(y).len() && q.push(y)[k] == x;
        assert(k < q.len());
        assert(q[k] == x);
    }
    if q.contains(x) {
        let k = choose|k: int| 0 <= k < q.len() && q[k] == x;
        assert(q.push(y)[k] == x);
    }
    if x == y {
        assert(q.push(y)[q.len() as int] == x);
    }
}

/// Keeping each element at its first occurrence leaves no element twice and
/// loses none: the event names of a generated pipeline.
pub proof fn law_first_occurrences<A>(s: Seq<A>)
    ensures
        first_occurrences(s).no_duplicates(),
        forall|x: A| first_occurrences(s).contains(x) <==> s.contains(x),
    decreases s.len(),
{
    if s.len() > 0 {
        let p = s.drop_last();
        let y = s.last();
        law_first_occurrences(p);
        let d = first_occurrences(p);
        assert(s =~= p.push(y));
        assert forall|x: A| first_occurrences(s).contains(x) <==> s.contains(x) by {
            lemma_push_contains(p, y, x);
            lemma_push_contains(d, y, x);
        }
        if !d.contains(y) {
            let q = d.push(y);
            assert forall|i: int, j: int| 0 <= i < q.len() && 0 <= j < q.len() && i != j implies q[i] != q[j] by {
                if i == d.len() {
                    assert(q[j] == d[j]);
                } else if j == d.len() {
                    assert(q[i] == d[i]);
                } else {
                    assert(q[i] == d[i] && q[j] == d[j]);
                }
            }
        }
    }
}

/// A move run deletes its input file only once the copy was made and
/// reported, and only when the input is not to be kept.
pub proof fn law_input_removed_only_after_copy(s: MoveToDirRun, e: MoveEvent, t: MoveToDirRun, p: String)
    requires
        move_step(s, e, t, MoveRequest::RemoveFile(p)),
    ensures
        s.phase is LoggingCopy,
        e is Done,
        p == s.input_path,
        !s.keep_input_file_intact,
{
}

/// A move run comes to report a copy only right after the copy succeeded.
pub proof fn law_copy_reported_only_after_copy(s: MoveToDirRun, e: MoveEvent, t: MoveToDirRun, r: MoveRequest)
    requires
        move_step(s, e, t, r),
        !(s.phase is LoggingCopy),
        t.phase is LoggingCopy,
    ensures
        s.phase is Copying,
        e is Copied,
{
}

/// A move run copies its input over an existing file only when older files
/// are to be replaced.
pub proof fn law_no_overwrite_unless_replacing(s: MoveToDirRun, e: MoveEvent, t: MoveToDirRun, from: String, to: String)
    requires
        move_step(s, e, t, MoveRequest::Copy(from, to)),
    ensures
        s.phase == MovePhase::CheckingTarget(to),
        from == s.input_path,
        e == MoveEvent::Flag(false) || s.replace_older_files,
{
}

/// A move run succeeds only after its copy succeeded (and, unless the input
/// is kept, after the input was deleted).
pub proof fn law_success_only_after_copy(s: MoveToDirRun, e: MoveEvent, t: MoveToDirRun, p: String)
    requires
        move_step(s, e, t, MoveRequest::Finish(p)),
    ensures
        (s.phase == MovePhase::LoggingCopy(p) && s.keep_input_file_intact) || s.phase == MovePhase::LoggingRemoval(p),
{
}

/// A move run never deletes an input that is to be kept.
pub proof fn law_kept_input_never_removed(s: MoveToDirRun, e: MoveEvent, t: MoveToDirRun, p: String)
    requires
        s.keep_input_file_intact,
    ensures
        !move_step(s, e, t, MoveRequest::RemoveFile(p)),
{
}

/// Every step of a move run keeps its input, file name and settings.
pub proof fn law_move_keeps_settings(s: MoveToDirRun, e: MoveEvent, t: MoveToDirRun, r: MoveRequest)
    requires
        move_step(s, e, t, r),
    ensures
        t.input_path == s.input_path,
        t.file_name == s.file_name,
        t.requires_directory_exists == s.requires_directory_exists,
        t.replace_older_files == s.replace_older_files,
        t.keep_input_file_intact == s.keep_input_file_intact,
{
}

/// A finished move run answers nothing more.
pub proof fn law_done_run_stays_done(s: MoveToDirRun, e: MoveEvent, t: MoveToDirRun, r: MoveRequest)
    requires
        s.phase is Done,
        move_step(s, e, t, r),
    ensures
        t == s,
        r is Unexpected,
{
}

/// Once an action of a pipeline run has failed, no further action runs.
pub proof fn law_no_action_after_failure(results: Seq<bool>, action_count: usize)
    ensures
        !(results.push(false).len() < action_count && !results.push(false).contains(false)),
{
    assert(results.push(false)[results.len() as int] == false);
}

/// At the target check a move run copies its input to the target exactly
/// when no file is there or older files are to be replaced; otherwise it
/// fails with "Can't replace older file". So a missing target is always copied.
pub proof fn law_copy_unless_an_older_file_is_kept(
    s: MoveToDirRun,
    p: String,
    present: bool,
    t: MoveToDirRun,
    r: MoveRequest,
)
    requires
        s.phase == MovePhase::CheckingTarget(p),
        move_step(s, MoveEvent::Flag(present), t, r),
    ensures
        (!present || s.replace_older_files) ==> r == MoveRequest::Copy(s.input_path, p) && t.phase == MovePhase::Copying(p),
        (present && !s.replace_older_files) ==> (r matches MoveRequest::Fail(m) && m@ == "Can't replace older file"@)
            && t.phase is Done,
{
}

/// An event name designates one kind of event only: `create` (in any letter
/// case) only creations, `modify` only modifications, and no name any other kind.
pub proof fn law_event_name_designates_one_kind(name: Seq<char>, kind: FileEventKind)
    ensures
        handles_kind(name, kind) ==> kind == FileEventKind::Create || kind == FileEventKind::Modify,
        handles_kind(name, kind) && kind == FileEventKind::Create ==> lowercase(name) == "create"@,
        handles_kind(name, kind) && kind == FileEventKind::Modify ==> lowercase(name) == "modify"@,
        lowercase(name) == "modify"@ ==> (handles_kind(name, kind) <==> kind == FileEventKind::Modify),
        lowercase(name) == "create"@ ==> (handles_kind(name, kind) <==> kind == FileEventKind::Create),
{
    reveal_strlit("create");
    reveal_strlit("modify");
    assert("create"@ != "modify"@) by {
        assert("create"@[0] != "modify"@[0]);
    }
}

/// A pipeline reacts to an event kind only when one of its event names
/// designates that kind: a pipeline whose names all designate modifications
/// ignores creations, and one whose names all designate creations ignores
/// modifications; no pipeline reacts to any other kind.
pub proof fn law_pipeline_reacts_only_to_named_kinds(names: Seq<Seq<char>>, kind: FileEventKind)
    ensures
        event_names_handle(names, kind) ==> exists|i: int| 0 <= i < names.len() && (
            (lowercase(names[i]) == "create"@ && kind == FileEventKind::Create)
            || (lowercase(names[i]) == "modify"@ && kind == FileEventKind::Modify)),
        (forall|i: int| 0 <= i < names.len() ==> lowercase(#[trigger] names[i]) == "modify"@)
            ==> !event_names_handle(names, FileEventKind::Create),
        (forall|i: int| 0 <= i < names.len() ==> lowercase(#[trigger] names[i]) == "create"@)
            ==> !event_names_handle(names, FileEventKind::Modify),
        !event_names_handle(names, FileEventKind::Access),
        !event_names_handle(names, FileEventKind::Remove),
        !event_names_handle(names, FileEventKind::Other),
        !event_names_handle(names, FileEventKind::Any),
{
    assert forall|i: int, k: FileEventKind| 0 <= i < names.len() && #[trigger] handles_kind(names[i], k) implies (
        (lowercase(names[i]) == "create"@ && k == FileEventKind::Create)
        || (lowercase(names[i]) == "modify"@ && k == FileEventKind::Modify)) by {
        law_event_name_designates_one_kind(names[i], k);
    }
    if (forall|i: int| 0 <= i < names.len() ==> lowercase(#[trigger] names[i]) == "modify"@) {
        assert forall|i: int| 0 <= i < names.len() implies !handles_kind(#[trigger] names[i], FileEventKind::Create) by {
            law_event_name_designates_one_kind(names[i], FileEventKind::Create);
        }
    }
    if (forall|i: int| 0 <= i < names.len() ==> lowercase(#[trigger] names[i]) == "create"@) {
        assert forall|i: int| 0 <= i < names.len() implies !handles_kind(#[trigger] names[i], FileEventKind::Modify) by {
            law_event_name_designates_one_kind(names[i], FileEventKind::Modify);
        }
    }
}

/// In a pipeline run the event-file input always designates the event's
/// file, whatever an earlier action produced; only the action-file input
/// designates the file the last action produced.
pub proof fn law_event_input_is_the_event_file(c: PipelineExecutionContext)
    ensures
        c.input_of(PipelineContextInput::EventFilePath) == Some(c.event_file_path),
        c.input_of(PipelineContextInput::ActionFilePath) == c.action_file_path,
{
}

} // verus!
