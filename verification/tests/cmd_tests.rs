use autodl::cmd::{
    build_chmod_args, build_download_args, build_relocate_args, build_update_args,
    command_to_string,
};
use autodl::config::{FileMoveSpec, RsyncSpec};

fn audio_flags() -> Vec<&'static str> {
    vec![
        "--format",
        "bestaudio",
        "--extract-audio",
        "--audio-format",
        "mp3",
        "--audio-quality",
        "320K",
    ]
}

#[test]
fn download_args_without_audio() {
    let urls = vec!["http://example/a".to_string(), "http://example/b".to_string()];
    let args = build_download_args(&urls, false, "media", "batch1");
    assert_eq!(
        args,
        vec![
            "-o".to_string(),
            "media/batch1/%(autonumber+0)04d - %(title)s [%(id)s].%(ext)s".to_string(),
            "http://example/a".to_string(),
            "http://example/b".to_string(),
        ]
    );
    for a in &args {
        for f in audio_flags() {
            assert_ne!(a, f);
        }
    }
}

#[test]
fn download_args_with_audio_keep_the_flag_block_adjacent() {
    let urls = vec!["http://example/a".to_string()];
    let args = build_download_args(&urls, true, "media", "sub");
    assert_eq!(args.len(), 10);
    assert_eq!(args[0], "-o");
    assert_eq!(args[1], "media/sub/%(autonumber+0)04d - %(title)s [%(id)s].%(ext)s");
    for (k, f) in audio_flags().iter().enumerate() {
        assert_eq!(&args[2 + k], f);
    }
    assert_eq!(args[9], "http://example/a");
}

#[test]
fn relocate_args_absent_when_no_destination() {
    let dest = FileMoveSpec {
        source: "media".to_string(),
        destination_local: None,
        destination_remote: None,
    };
    assert!(build_relocate_args(&dest, "media/sub", true).is_none());
    assert!(build_relocate_args(&dest, "media/sub", false).is_none());
}

#[test]
fn relocate_args_local_without_deletion() {
    let dest = FileMoveSpec {
        source: "media".to_string(),
        destination_local: Some("/archive".to_string()),
        destination_remote: None,
    };
    let args = build_relocate_args(&dest, "media/sub", false).unwrap();
    assert_eq!(
        args,
        vec![
            "-v".to_string(),
            "--progress".to_string(),
            "-rp".to_string(),
            "media/sub".to_string(),
            "/archive".to_string(),
        ]
    );
}

#[test]
fn relocate_args_local_with_deletion_flag() {
    let dest = FileMoveSpec {
        source: "media".to_string(),
        destination_local: Some("/archive".to_string()),
        destination_remote: None,
    };
    let args = build_relocate_args(&dest, "media/sub", true).unwrap();
    assert_eq!(
        args,
        vec![
            "-v".to_string(),
            "--progress".to_string(),
            "-rp".to_string(),
            "--remove-source-files".to_string(),
            "media/sub".to_string(),
            "/archive".to_string(),
        ]
    );
}

#[test]
fn relocate_args_remote_put_extra_flags_before_the_positional_pair() {
    let dest = FileMoveSpec {
        source: "media".to_string(),
        destination_local: None,
        destination_remote: Some(RsyncSpec {
            destination: "host:/vault".to_string(),
            extra_args: "--bwlimit=1000".to_string(),
        }),
    };
    let args = build_relocate_args(&dest, "media/sub", false).unwrap();
    assert_eq!(
        args,
        vec![
            "-v".to_string(),
            "--progress".to_string(),
            "-rp".to_string(),
            "--bwlimit=1000".to_string(),
            "media/sub".to_string(),
            "host:/vault".to_string(),
        ]
    );
    // exactly one positional pair, at the very end
    assert_eq!(&args[args.len() - 2], "media/sub");
    assert_eq!(&args[args.len() - 1], "host:/vault");
}

#[test]
fn remote_destination_wins_when_both_are_configured() {
    let dest = FileMoveSpec {
        source: "media".to_string(),
        destination_local: Some("/archive".to_string()),
        destination_remote: Some(RsyncSpec {
            destination: "host:/vault".to_string(),
            extra_args: "".to_string(),
        }),
    };
    let args = build_relocate_args(&dest, "media/sub", false).unwrap();
    assert_eq!(&args[args.len() - 1], "host:/vault");
}

#[test]
fn chmod_args_mark_the_tree_world_readable() {
    let args = build_chmod_args("media/sub");
    assert_eq!(args, vec!["-R".to_string(), "a+r".to_string(), "media/sub".to_string()]);
}

#[test]
fn update_args_are_the_self_update_flag() {
    assert_eq!(build_update_args(), vec!["-U".to_string()]);
}

#[test]
fn command_to_string_joins_program_and_args() {
    let args = vec!["-v".to_string(), "x".to_string()];
    assert_eq!(command_to_string("rsync", &args), "rsync -v x".to_string());
    let none: Vec<String> = Vec::new();
    assert_eq!(command_to_string("chmod", &none), "chmod ".to_string());
}
