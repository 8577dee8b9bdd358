use vstd::prelude::*;

use crate::config::{Config, ConfigView, FileMoveSpec, FileMoveSpecView};
use crate::errors::SubmitError;
use crate::paths::{log_path, log_path_model, subdir_admissible};
use crate::resolve::{found_destination, resolve};
use crate::text::{tokenize, tokens};

verus! {

/// What a download request carries once it has been validated: the raw URL
/// field (still unsplit), the flags, the keyed output directory, the
/// destination the key resolved to, and the requested subdirectory.
pub struct DownloadSpec {
    pub url: String,
    pub audio_only: bool,
    pub output_directory: String,
    pub file_move_spec: FileMoveSpec,
    pub subdir: String,
}

/// Mathematical image of [`DownloadSpec`].
pub struct DownloadSpecView {
    pub url: Seq<char>,
    pub audio_only: bool,
    pub output_directory: Seq<char>,
    pub file_move_spec: FileMoveSpecView,
    pub subdir: Seq<char>,
}

impl View for DownloadSpec {
    type V = DownloadSpecView;

    open spec fn view(&self) -> DownloadSpecView {
        DownloadSpecView {
            url: self.url@,
            audio_only: self.audio_only,
            output_directory: self.output_directory@,
            file_move_spec: self.file_move_spec@,
            subdir: self.subdir@,
        }
    }
}

/// The two kinds of work a task can carry: a download-and-relocate job, or
/// a self-update of the downloader tool.
pub enum TaskData {
    Download { spec: DownloadSpec },
    Update,
}

/// Mathematical image of [`TaskData`].
pub enum TaskDataView {
    Download { spec: DownloadSpecView },
    Update,
}

impl View for TaskData {
    type V = TaskDataView;

    open spec fn view(&self) -> TaskDataView {
        match self {
            TaskData::Download { spec } => TaskDataView::Download { spec: spec@ },
            TaskData::Update => TaskDataView::Update,
        }
    }
}

/// One unit of work, immutable after construction: its id, the log file
/// derived from the id, a captured copy of the configuration, and the
/// payload.
pub struct Task {
    pub id: String,
    pub log_file_path: String,
    pub config: Config,
    pub data: TaskData,
}

/// Mathematical image of [`Task`].
pub struct TaskView {
    pub id: Seq<char>,
    pub log_file_path: Seq<char>,
    pub config: ConfigView,
    pub data: TaskDataView,
}

impl View for Task {
    type V = TaskView;

    open spec fn view(&self) -> TaskView {
        TaskView {
            id: self.id@,
            log_file_path: self.log_file_path@,
            config: self.config@,
            data: self.data@,
        }
    }
}

impl TaskView {
    /// What construction guarantees of every task: a download task carries
    /// at least one URL.
    pub open spec fn wf(&self) -> bool {
        match self.data {
            TaskDataView::Download { spec } => tokens(spec.url).len() > 0,
            TaskDataView::Update => true,
        }
    }
}

impl Clone for DownloadSpec {
    fn clone(&self) -> (r: Self)
        ensures
            r@ == self@,
    {
        DownloadSpec {
            url: self.url.clone(),
            audio_only: self.audio_only,
            output_directory: self.output_directory.clone(),
            file_move_spec: self.file_move_spec.clone(),
            subdir: self.subdir.clone(),
        }
    }
}

impl Clone for TaskData {
    fn clone(&self) -> (r: Self)
        ensures
            r@ == self@,
    {
        match self {
            TaskData::Download { spec } => TaskData::Download { spec: spec.clone() },
            TaskData::Update => TaskData::Update,
        }
    }
}

impl Clone for Task {
    fn clone(&self) -> (r: Self)
        ensures
            r@ == self@,
    {
        Task {
            id: self.id.clone(),
            log_file_path: self.log_file_path.clone(),
            config: self.config.clone(),
            data: self.data.clone(),
        }
    }
}

/// An incoming download submission, exactly as the external request surface
/// hands it over: nothing in it has been validated yet.
pub struct DownloadRequest {
    pub url: String,
    pub audio_only: bool,
    pub output_directory: String,
    pub subdir: String,
}

impl Task {
    /// Validates a download request against the configuration and, if it
    /// passes, builds the task that will execute it.
    ///
    /// The checks, in order: the URL field must hold at least one URL once
    /// split on whitespace; the output-directory key must name a configured
    /// destination; and the requested subdirectory must stay under the
    /// destination's canonical root (`canonical_root`, the caller-supplied
    /// absolute form of the found entry's `source`).  The task captures its
    /// own copy of the configuration and derives its log file from the id.
    pub fn new(
        request: &DownloadRequest,
        config: &Config,
        id: String,
        canonical_root: &str,
    ) -> (r: Result<Task, SubmitError>)
        ensures
            tokens(request.url@).len() == 0 ==> r == Result::<Task, SubmitError>::Err(
                SubmitError::EmptyUrlList,
            ),
            tokens(request.url@).len() > 0 && found_destination(
                config@.output_directories,
                request.output_directory@,
            ) is None ==> r == Result::<Task, SubmitError>::Err(SubmitError::UnknownDestination),
            tokens(request.url@).len() > 0 && found_destination(
                config@.output_directories,
                request.output_directory@,
            ) is Some && !subdir_admissible(canonical_root@, request.subdir@) ==> r == Result::<
                Task,
                SubmitError,
            >::Err(SubmitError::PathEscape),
            tokens(request.url@).len() > 0 && found_destination(
                config@.output_directories,
                request.output_directory@,
            ) is Some && subdir_admissible(canonical_root@, request.subdir@) ==> (r matches Ok(t)
                && {
                &&& t@.wf()
                &&& t@.id == id@
                &&& t@.log_file_path == log_path_model(config@.log_dir, id@)
                &&& t@.config == config@
                &&& (t@.data matches TaskDataView::Download { spec } && {
                    &&& spec.url == request.url@
                    &&& spec.audio_only == request.audio_only
                    &&& spec.output_directory == request.output_directory@
                    &&& spec.subdir == request.subdir@
                    &&& Some(spec.file_move_spec) == found_destination(
                        config@.output_directories,
                        request.output_directory@,
                    )
                })
            }),
    {
        let urls = tokenize(request.url.as_str());
        if urls.len() == 0 {
            proof {
                assert(tokens(request.url@).len() == urls.deep_view().len());
            }
            return Err(SubmitError::EmptyUrlList);
        }
        let dest = match resolve(
            config,
            request.output_directory.as_str(),
            canonical_root,
            request.subdir.as_str(),
        ) {
            Ok(d) => d,
            Err(e) => {
                return Err(e);
            },
        };
        let log_file_path = log_path(config.log_dir.as_str(), id.as_str());
        Ok(
            Task {
                id,
                log_file_path,
                config: config.clone(),
                data: TaskData::Download {
                    spec: DownloadSpec {
                        url: request.url.clone(),
                        audio_only: request.audio_only,
                        output_directory: request.output_directory.clone(),
                        file_move_spec: dest,
                        subdir: request.subdir.clone(),
                    },
                },
            },
        )
    }

    /// Builds the task that self-updates the downloader tool.  Nothing can
    /// be rejected: the task needs only an id, its log file and the
    /// captured configuration.
    pub fn new_update(config: &Config, id: String) -> (t: Task)
        ensures
            t@.wf(),
            t@.id == id@,
            t@.log_file_path == log_path_model(config@.log_dir, id@),
            t@.config == config@,
            t@.data is Update,
    {
        let log_file_path = log_path(config.log_dir.as_str(), id.as_str());
        Task { id, log_file_path, config: config.clone(), data: TaskData::Update }
    }
}

} // verus!
