use vstd::prelude::*;

use crate::clock::date_string;
use crate::config::Config;
use crate::errors::SubmitError;
use crate::paths::{log_path_model, subdir_admissible};
use crate::registry::Registry;
use crate::resolve::found_destination;
use crate::task::{DownloadRequest, Task, TaskDataView, TaskView};
use crate::text::tokens;

verus! {

/// Accepts or rejects a download submission.
///
/// The request is validated (at least one URL, a known destination key, a
/// subdirectory that stays under `canonical_root` — the caller-supplied
/// canonical form of the keyed directory); on success a task is built under
/// a fresh clock-derived id, registered, and handed back for the caller to
/// run.  Every rejection leaves the registry exactly as it was.  An id
/// collision (two submissions within the clock's millisecond resolution) is
/// refused as `DuplicateTaskId` rather than registering the same id twice;
/// that refusal can only happen while something else is registered, so a
/// valid submission into an empty registry is always accepted.
pub fn submit_download(
    registry: &mut Registry,
    config: &Config,
    request: &DownloadRequest,
    canonical_root: &str,
) -> (r: Result<Task, SubmitError>)
    requires
        old(registry).inv(),
    ensures
        final(registry).inv(),
        r is Err ==> final(registry)@ == old(registry)@,
        tokens(request.url@).len() == 0 ==> r == Result::<Task, SubmitError>::Err(
            SubmitError::EmptyUrlList,
        ),
        tokens(request.url@).len() > 0 && found_destination(
            config@.output_directories,
            request.output_directory@,
        ) is None ==> r == Result::<Task, SubmitError>::Err(SubmitError::UnknownDestination),
        tokens(request.url@).len() > 0 && found_destination(
            config@.output_directories,
            request.output_directory@,
        ) is Some && !subdir_admissible(canonical_root@, request.subdir@) ==> r == Result::<
            Task,
            SubmitError,
        >::Err(SubmitError::PathEscape),
        r == Result::<Task, SubmitError>::Err(SubmitError::DuplicateTaskId) ==> old(
            registry,
        )@.len() > 0,
        old(registry)@.len() == 0 && tokens(request.url@).len() > 0 && found_destination(
            config@.output_directories,
            request.output_directory@,
        ) is Some && subdir_admissible(canonical_root@, request.subdir@) ==> r is Ok,
        tokens(request.url@).len() > 0 && found_destination(
            config@.output_directories,
            request.output_directory@,
        ) is Some && subdir_admissible(canonical_root@, request.subdir@) ==> match r {
            Ok(t) => {
                &&& final(registry)@ == old(registry)@.push(t@)
                &&& t@.wf()
                &&& t@.log_file_path == log_path_model(config@.log_dir, t@.id)
                &&& t@.config == config@
                &&& (t@.data matches TaskDataView::Download { spec } && {
                    &&& spec.url == request.url@
                    &&& spec.audio_only == request.audio_only
                    &&& spec.output_directory == request.output_directory@
                    &&& spec.subdir == request.subdir@
                    &&& Some(spec.file_move_spec) == found_destination(
                        config@.output_directories,
                        request.output_directory@,
                    )
                })
            },
            Err(e) => e == SubmitError::DuplicateTaskId,
        },
{
    let id = date_string();
    let task = match Task::new(request, config, id, canonical_root) {
        Ok(t) => t,
        Err(e) => {
            return Err(e);
        },
    };
    let handed = task.clone();
    if registry.insert(task) {
        Ok(handed)
    } else {
        Err(SubmitError::DuplicateTaskId)
    }
}

/// Accepts a self-update submission: builds the update task under a fresh
/// clock-derived id, registers it, and hands it back for the caller to run.
/// Only an id collision can be refused — so never on an empty registry —
/// and a refusal leaves the registry untouched.
pub fn submit_self_update(registry: &mut Registry, config: &Config) -> (r: Result<
    Task,
    SubmitError,
>)
    requires
        old(registry).inv(),
    ensures
        final(registry).inv(),
        r is Err ==> final(registry)@ == old(registry)@,
        r is Err ==> old(registry)@.len() > 0,
        old(registry)@.len() == 0 ==> r is Ok,
        match r {
            Ok(t) => {
                &&& final(registry)@ == old(registry)@.push(t@)
                &&& t@.wf()
                &&& t@.log_file_path == log_path_model(config@.log_dir, t@.id)
                &&& t@.config == config@
                &&& t@.data is Update
            },
            Err(e) => e == SubmitError::DuplicateTaskId,
        },
{
    let id = date_string();
    let task = Task::new_update(config, id);
    let handed = task.clone();
    if registry.insert(task) {
        Ok(handed)
    } else {
        Err(SubmitError::DuplicateTaskId)
    }
}

/// A point-in-time copy of the running tasks, for display.
pub fn list_active_tasks(registry: &Registry) -> (v: Vec<Task>)
    ensures
        v@.map_values(|t: Task| t@) == registry@,
{
    registry.snapshot()
}

} // verus!
