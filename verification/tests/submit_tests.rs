use autodl::config::{Config, FileMoveSpec};
use autodl::errors::SubmitError;
use autodl::registry::Registry;
use autodl::submit::{list_active_tasks, submit_download, submit_self_update};
use autodl::task::{DownloadRequest, TaskData};

fn test_config() -> Config {
    let mut config = Config::default();
    config.log_dir = "./logs".to_string();
    config.output_directories.push(FileMoveSpec {
        source: "media".to_string(),
        destination_local: Some("/archive".to_string()),
        destination_remote: None,
    });
    config
}

#[test]
fn accepted_download_lands_in_the_registry() {
    let mut registry = Registry::new();
    let config = test_config();
    let req = DownloadRequest {
        url: "http://example/a".to_string(),
        audio_only: true,
        output_directory: "media".to_string(),
        subdir: "x".to_string(),
    };
    let task = submit_download(&mut registry, &config, &req, "/data/media").unwrap();
    assert_eq!(registry.len(), 1);
    assert!(registry.contains(task.id.as_str()));
    let listed = list_active_tasks(&registry);
    assert_eq!(listed.len(), 1);
    assert_eq!(listed[0].id, task.id);
    match &listed[0].data {
        TaskData::Download { spec } => {
            assert_eq!(spec.url, "http://example/a");
            assert!(spec.audio_only);
        },
        TaskData::Update => panic!("expected a download task"),
    }
    assert!(registry.remove_by_id(task.id.as_str()));
    assert_eq!(registry.len(), 0);
}

#[test]
fn rejected_download_leaves_the_registry_untouched() {
    let mut registry = Registry::new();
    let config = test_config();
    let unknown_key = DownloadRequest {
        url: "http://example/a".to_string(),
        audio_only: false,
        output_directory: "movies".to_string(),
        subdir: "x".to_string(),
    };
    let r = submit_download(&mut registry, &config, &unknown_key, "/data/media");
    assert!(matches!(r, Err(SubmitError::UnknownDestination)));
    assert_eq!(registry.len(), 0);

    let escaping = DownloadRequest {
        url: "http://example/a".to_string(),
        audio_only: false,
        output_directory: "media".to_string(),
        subdir: "../../escape".to_string(),
    };
    let r = submit_download(&mut registry, &config, &escaping, "/data/media");
    assert!(matches!(r, Err(SubmitError::PathEscape)));
    assert_eq!(registry.len(), 0);

    let empty_url = DownloadRequest {
        url: " ".to_string(),
        audio_only: false,
        output_directory: "media".to_string(),
        subdir: "x".to_string(),
    };
    let r = submit_download(&mut registry, &config, &empty_url, "/data/media");
    assert!(matches!(r, Err(SubmitError::EmptyUrlList)));
    assert_eq!(registry.len(), 0);
}

#[test]
fn self_update_lands_in_the_registry() {
    let mut registry = Registry::new();
    let config = test_config();
    let task = submit_self_update(&mut registry, &config).unwrap();
    assert!(matches!(task.data, TaskData::Update));
    assert_eq!(registry.len(), 1);
    assert!(registry.contains(task.id.as_str()));
    // the clock-derived id names the log file under the configured directory
    assert!(task.log_file_path.starts_with("./logs/"));
    assert!(task.log_file_path.ends_with(".log"));
}
