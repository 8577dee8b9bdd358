use autodl::config::{Config, FileMoveSpec};
use autodl::run::{next, start, Action, Phase, StepOutcome};
use autodl::task::{DownloadRequest, Task};

fn config_with_local_destination() -> Config {
    let mut config = Config::default();
    config.log_dir = "./logs".to_string();
    config.output_directories.push(FileMoveSpec {
        source: "media".to_string(),
        destination_local: Some("/archive".to_string()),
        destination_remote: None,
    });
    config
}

fn config_download_only() -> Config {
    let mut config = Config::default();
    config.log_dir = "./logs".to_string();
    config.output_directories.push(FileMoveSpec {
        source: "media".to_string(),
        destination_local: None,
        destination_remote: None,
    });
    config
}

fn download_task(config: &Config, id: &str, url: &str) -> Task {
    let req = DownloadRequest {
        url: url.to_string(),
        audio_only: false,
        output_directory: "media".to_string(),
        subdir: "batch1".to_string(),
    };
    Task::new(&req, config, id.to_string(), "/data/media").unwrap()
}

#[test]
fn scenario_download_with_two_urls_and_local_destination() {
    let config = config_with_local_destination();
    let task = download_task(&config, "id-7", "http://example/a http://example/b");

    // the log file lives under the configured log directory
    assert!(task.log_file_path.starts_with("./logs/"));

    let t = start(&task);
    assert_eq!(t.phase, Phase::LogPending);
    assert_eq!(t.actions.len(), 1);
    match &t.actions[0] {
        Action::CreateLog { path } => assert_eq!(path, &task.log_file_path),
        _ => panic!("expected the log file to be created first"),
    }

    let t = next(&task, t.phase, &StepOutcome::Success);
    assert_eq!(t.phase, Phase::DirPending);
    match &t.actions[0] {
        Action::EnsureDir { path } => assert_eq!(path, "media"),
        _ => panic!("expected the output directory to be created"),
    }

    let t = next(&task, t.phase, &StepOutcome::Success);
    assert_eq!(t.phase, Phase::DownloadPending);
    match &t.actions[0] {
        Action::RunProcess { program, args } => {
            assert_eq!(program, "./yt-dlp");
            // both whitespace-separated URLs are passed, in order
            assert_eq!(args[args.len() - 2], "http://example/a");
            assert_eq!(args[args.len() - 1], "http://example/b");
            assert_eq!(args[0], "-o");
            assert_eq!(args.len(), 4);
        },
        _ => panic!("expected the downloader to run"),
    }

    let t = next(&task, t.phase, &StepOutcome::Success);
    assert_eq!(t.phase, Phase::RelocDirPending);
    match &t.actions[0] {
        Action::EnsureDir { path } => assert_eq!(path, "/archive"),
        _ => panic!("expected the local destination to be created"),
    }

    let t = next(&task, t.phase, &StepOutcome::Success);
    assert_eq!(t.phase, Phase::ChmodPending);
    match &t.actions[0] {
        Action::RunProcess { program, args } => {
            assert_eq!(program, "chmod");
            assert_eq!(args, &vec!["-R".to_string(), "a+r".to_string(), "media/batch1".to_string()]);
        },
        _ => panic!("expected the permission sweep"),
    }

    let t = next(&task, t.phase, &StepOutcome::Success);
    assert_eq!(t.phase, Phase::SyncPending);
    match &t.actions[0] {
        Action::RunProcess { program, args } => {
            assert_eq!(program, "rsync");
            // the relocation source is <output_directory>/<subdir>
            assert_eq!(
                args,
                &vec![
                    "-v".to_string(),
                    "--progress".to_string(),
                    "-rp".to_string(),
                    "--remove-source-files".to_string(),
                    "media/batch1".to_string(),
                    "/archive".to_string(),
                ]
            );
        },
        _ => panic!("expected the relocator to run"),
    }

    let t = next(&task, t.phase, &StepOutcome::Success);
    assert_eq!(t.phase, Phase::Done { success: true });
    assert_eq!(t.actions.len(), 2);
    match &t.actions[0] {
        Action::AppendLog { line } => assert_eq!(line, "Task id-7 completed"),
        _ => panic!("expected the terminal trace line"),
    }
    match &t.actions[1] {
        Action::RemoveTask { id } => assert_eq!(id, "id-7"),
        _ => panic!("expected the task to be retired last"),
    }

    // the machine stays put once done
    let t = next(&task, t.phase, &StepOutcome::Success);
    assert_eq!(t.phase, Phase::Done { success: true });
    assert!(t.actions.is_empty());
}

#[test]
fn failed_download_still_attempts_relocation() {
    let config = config_with_local_destination();
    let task = download_task(&config, "id-8", "http://example/a");
    let outcome = StepOutcome::Failure { message: "exit status 1".to_string() };
    let t = next(&task, Phase::DownloadPending, &outcome);
    assert_eq!(t.phase, Phase::RelocDirPending);
    assert_eq!(t.actions.len(), 2);
    match &t.actions[0] {
        Action::AppendLog { line } => {
            assert_eq!(line, "Download id-8 failure: exit status 1");
        },
        _ => panic!("expected the failure to be recorded"),
    }
    match &t.actions[1] {
        Action::EnsureDir { path } => assert_eq!(path, "/archive"),
        _ => panic!("expected relocation to be engaged anyway"),
    }
}

#[test]
fn failed_download_without_destination_fails_the_task() {
    let config = config_download_only();
    let task = download_task(&config, "id-9", "http://example/a");
    let outcome = StepOutcome::Failure { message: "boom".to_string() };
    let t = next(&task, Phase::DownloadPending, &outcome);
    assert_eq!(t.phase, Phase::Done { success: false });
    assert_eq!(t.actions.len(), 3);
    match &t.actions[0] {
        Action::AppendLog { line } => assert_eq!(line, "Download id-9 failure: boom"),
        _ => panic!("expected the failure note"),
    }
    match &t.actions[1] {
        Action::AppendLog { line } => assert_eq!(line, "Task id-9 failed"),
        _ => panic!("expected the terminal line"),
    }
    match &t.actions[2] {
        Action::RemoveTask { id } => assert_eq!(id, "id-9"),
        _ => panic!("expected the task to be retired"),
    }
}

#[test]
fn successful_download_without_destination_completes() {
    let config = config_download_only();
    let task = download_task(&config, "id-10", "http://example/a");
    let t = next(&task, Phase::DownloadPending, &StepOutcome::Success);
    assert_eq!(t.phase, Phase::Done { success: true });
    assert_eq!(t.actions.len(), 2);
}

#[test]
fn log_creation_failure_is_fatal_and_retires_the_task() {
    let config = config_with_local_destination();
    let task = download_task(&config, "id-11", "http://example/a");
    let outcome = StepOutcome::Failure { message: "permission denied".to_string() };
    let t = next(&task, Phase::LogPending, &outcome);
    assert_eq!(t.phase, Phase::Done { success: false });
    assert_eq!(t.actions.len(), 1);
    assert!(matches!(&t.actions[0], Action::RemoveTask { .. }));
}

#[test]
fn output_directory_failure_aborts_before_any_process_runs() {
    let config = config_with_local_destination();
    let task = download_task(&config, "id-12", "http://example/a");
    let outcome = StepOutcome::Failure { message: "read-only filesystem".to_string() };
    let t = next(&task, Phase::DirPending, &outcome);
    assert_eq!(t.phase, Phase::Done { success: false });
    assert_eq!(t.actions.len(), 3);
    match &t.actions[0] {
        Action::AppendLog { line } => {
            assert_eq!(line, "Task id-12 failure: read-only filesystem");
        },
        _ => panic!("expected the failure to be recorded"),
    }
    for a in &t.actions {
        assert!(!matches!(a, Action::RunProcess { .. }));
    }
}

#[test]
fn update_task_runs_the_downloader_with_the_update_flag() {
    let config = config_with_local_destination();
    let task = Task::new_update(&config, "id-13".to_string());

    let t = start(&task);
    assert_eq!(t.phase, Phase::LogPending);

    let t = next(&task, t.phase, &StepOutcome::Success);
    assert_eq!(t.phase, Phase::UpdatePending);
    match &t.actions[0] {
        Action::RunProcess { program, args } => {
            assert_eq!(program, "./yt-dlp");
            assert_eq!(args, &vec!["-U".to_string()]);
        },
        _ => panic!("expected the self-update invocation"),
    }

    let t = next(&task, t.phase, &StepOutcome::Success);
    assert_eq!(t.phase, Phase::Done { success: true });
    match &t.actions[1] {
        Action::RemoveTask { id } => assert_eq!(id, "id-13"),
        _ => panic!("expected the task to be retired"),
    }
}
