use vstd::prelude::*;

use crate::config::{FileMoveSpec, FileMoveSpecView};
use crate::text::{join_spaces, lemma_join_spaces_push};

verus! {

/// The downloader's output-path template below `output_directory/subdir`:
/// a four-digit auto-incremented index, the media title and the media id.
pub open spec fn output_pattern() -> Seq<char> {
    "%(autonumber+0)04d - %(title)s [%(id)s].%(ext)s"@
}

/// The full output template handed to the downloader, rooted at the keyed
/// directory and the requested subdirectory.
pub open spec fn output_template(outdir: Seq<char>, sub: Seq<char>) -> Seq<char> {
    outdir + seq!['/'] + sub + seq!['/'] + output_pattern()
}

/// The policy flags selecting audio extraction: best available audio,
/// extracted to a fixed codec at a fixed bitrate.  They are emitted as one
/// block, in this order, or not at all.
pub open spec fn audio_flag_list() -> Seq<Seq<char>> {
    seq![
        "--format"@,
        "bestaudio"@,
        "--extract-audio"@,
        "--audio-format"@,
        "mp3"@,
        "--audio-quality"@,
        "320K"@,
    ]
}

/// The downloader's argument vector: the output template, then (only when
/// `audio_only` is set) the audio block, then every URL, in order.
pub open spec fn download_args_model(
    urls: Seq<Seq<char>>,
    audio_only: bool,
    outdir: Seq<char>,
    sub: Seq<char>,
) -> Seq<Seq<char>> {
    seq!["-o"@, output_template(outdir, sub)] + (if audio_only {
        audio_flag_list()
    } else {
        Seq::<Seq<char>>::empty()
    }) + urls
}

/// Builds the argument vector for one downloader invocation.
pub fn build_download_args(
    urls: &Vec<String>,
    audio_only: bool,
    output_directory: &str,
    subdir: &str,
) -> (args: Vec<String>)
    requires
        urls@.len() > 0,
    ensures
        args.deep_view() == download_args_model(
            urls.deep_view(),
            audio_only,
            output_directory@,
            subdir@,
        ),
{
    let mut args: Vec<String> = Vec::new();
    args.push("-o".to_owned());
    let mut tmpl = output_directory.to_owned();
    tmpl.append("/");
    tmpl.append(subdir);
    tmpl.append("/");
    tmpl.append("%(autonumber+0)04d - %(title)s [%(id)s].%(ext)s");
    proof {
        reveal_strlit("/");
        assert("/"@ =~= seq!['/']);
        assert(tmpl@ =~= output_template(output_directory@, subdir@));
    }
    args.push(tmpl);
    if audio_only {
        args.push("--format".to_owned());
        args.push("bestaudio".to_owned());
        args.push("--extract-audio".to_owned());
        args.push("--audio-format".to_owned());
        args.push("mp3".to_owned());
        args.push("--audio-quality".to_owned());
        args.push("320K".to_owned());
    }
    let ghost head = args.deep_view();
    proof {
        assert(head =~= seq!["-o"@, output_template(output_directory@, subdir@)] + (if audio_only {
            audio_flag_list()
        } else {
            Seq::<Seq<char>>::empty()
        }));
    }
    let mut k: usize = 0;
    while k < urls.len()
        invariant
            k <= urls.len(),
            args.deep_view() =~= head + urls.deep_view().take(k as int),
        decreases urls.len() - k,
    {
        let ghost pre = args.deep_view();
        args.push(urls[k].clone());
        proof {
            assert(args.deep_view() =~= pre.push(urls@[k as int]@));
            assert(urls.deep_view().take(k + 1 as int) =~= urls.deep_view().take(k as int).push(
                urls@[k as int]@,
            ));
            assert(head + urls.deep_view().take(k as int).push(urls@[k as int]@) =~= (head
                + urls.deep_view().take(k as int)).push(urls@[k as int]@));
        }
        k = k + 1;
    }
    proof {
        assert(urls.deep_view().take(urls@.len() as int) =~= urls.deep_view());
        assert(args.deep_view() =~= download_args_model(
            urls.deep_view(),
            audio_only,
            output_directory@,
            subdir@,
        ));
    }
    args
}

/// The audio block is all or nothing: with `audio_only` set it stands as
/// one contiguous run immediately after the output-template pair, never
/// separated from it, with every URL after it; with `audio_only` clear the
/// vector is just the output-template pair followed by the URLs.
pub proof fn lemma_audio_flags_block(urls: Seq<Seq<char>>, outdir: Seq<char>, sub: Seq<char>)
    ensures
        download_args_model(urls, true, outdir, sub).len() == 9 + urls.len(),
        download_args_model(urls, true, outdir, sub).subrange(2, 9) == audio_flag_list(),
        download_args_model(urls, true, outdir, sub).skip(9) == urls,
        download_args_model(urls, false, outdir, sub).len() == 2 + urls.len(),
        download_args_model(urls, false, outdir, sub).skip(2) == urls,
        download_args_model(urls, false, outdir, sub).take(2) == seq![
            "-o"@,
            output_template(outdir, sub),
        ],
{
    assert(download_args_model(urls, true, outdir, sub).subrange(2, 9) =~= audio_flag_list());
    assert(download_args_model(urls, true, outdir, sub).skip(9) =~= urls);
    assert(download_args_model(urls, false, outdir, sub).skip(2) =~= urls);
    assert(download_args_model(urls, false, outdir, sub).take(2) =~= seq![
        "-o"@,
        output_template(outdir, sub),
    ]);
}

/// With `audio_only` clear, no argument of the vector is an audio flag.
/// A URL that itself spells one of the flag strings would be passed on
/// verbatim, so such URLs are excluded by the premise.
pub proof fn lemma_no_audio_flags_when_clear(urls: Seq<Seq<char>>, outdir: Seq<char>, sub: Seq<char>)
    requires
        forall|i: int| 0 <= i < urls.len() ==> !audio_flag_list().contains(urls[i]),
    ensures
        forall|j: int|
            0 <= j < download_args_model(urls, false, outdir, sub).len()
                ==> !audio_flag_list().contains(download_args_model(urls, false, outdir, sub)[j]),
{
    let a = download_args_model(urls, false, outdir, sub);
    reveal_strlit("-o");
    reveal_strlit("--format");
    reveal_strlit("bestaudio");
    reveal_strlit("--extract-audio");
    reveal_strlit("--audio-format");
    reveal_strlit("mp3");
    reveal_strlit("--audio-quality");
    reveal_strlit("320K");
    reveal_strlit("%(autonumber+0)04d - %(title)s [%(id)s].%(ext)s");
    let tmpl = output_template(outdir, sub);
    assert(tmpl.len() >= output_pattern().len());
    assert forall|k: int| 0 <= k < audio_flag_list().len() implies audio_flag_list()[k] != "-o"@
        && audio_flag_list()[k] != tmpl by {
        assert(audio_flag_list()[k].len() > 2);
        assert(audio_flag_list()[k].len() < output_pattern().len());
    }
    assert forall|j: int| 0 <= j < a.len() implies !audio_flag_list().contains(a[j]) by {
        if j >= 2 {
            assert(a[j] == urls[j - 2]);
        }
    }
}

/// The relocator's fixed flags: verbose, progress, recursive and
/// permission-preserving, plus — only under the configured deletion policy —
/// the flag that removes sources after the move.
pub open spec fn relocate_flag_list(delete_after: bool) -> Seq<Seq<char>> {
    seq!["-v"@, "--progress"@, "-rp"@] + (if delete_after {
        seq!["--remove-source-files"@]
    } else {
        Seq::<Seq<char>>::empty()
    })
}

/// The relocator's argument vector, or `None` when the destination asks for
/// no relocation.  Flags come first; the positional arguments are the source
/// directory and then the target, with a remote target's extra flags (one
/// argument, verbatim) standing just before the positionals.
pub open spec fn relocate_args_model(
    dest: FileMoveSpecView,
    source: Seq<char>,
    delete_after: bool,
) -> Option<Seq<Seq<char>>> {
    if !dest.wants_relocation() {
        None
    } else {
        Some(
            relocate_flag_list(delete_after) + (match dest.destination_remote {
                Some(remote) => seq![remote.extra_args, source, remote.destination],
                None => seq![source, dest.destination_local->0],
            }),
        )
    }
}

/// Builds the argument vector for one relocator invocation, or decides that
/// the task is download-only.
pub fn build_relocate_args(dest: &FileMoveSpec, source: &str, delete_after: bool) -> (r: Option<
    Vec<String>,
>)
    ensures
        match r {
            Some(args) => relocate_args_model(dest@, source@, delete_after) == Some(
                args.deep_view(),
            ),
            None => relocate_args_model(dest@, source@, delete_after) is None,
        },
{
    if dest.destination_local.is_none() && dest.destination_remote.is_none() {
        return None;
    }
    let mut args: Vec<String> = Vec::new();
    args.push("-v".to_owned());
    args.push("--progress".to_owned());
    args.push("-rp".to_owned());
    if delete_after {
        args.push("--remove-source-files".to_owned());
    }
    proof {
        assert(args.deep_view() =~= relocate_flag_list(delete_after));
    }
    match &dest.destination_remote {
        Some(remote) => {
            args.push(remote.extra_args.clone());
            args.push(source.to_owned());
            args.push(remote.destination.clone());
        },
        None => {
            args.push(source.to_owned());
            match &dest.destination_local {
                Some(local) => args.push(local.clone()),
                None => {
                    proof {
                        assert(false);
                    }
                },
            }
        },
    }
    proof {
        assert(Some(args.deep_view()) =~= relocate_args_model(dest@, source@, delete_after));
    }
    Some(args)
}

/// There is a relocation step exactly when a destination is configured,
/// and then the vector ends in exactly one positional pair — the source
/// tree and the target — with every flag (and a remote target's extra
/// flags) before it.
pub proof fn lemma_relocate_shape(dest: FileMoveSpecView, source: Seq<char>, delete_after: bool)
    ensures
        (relocate_args_model(dest, source, delete_after) is None) == !dest.wants_relocation(),
        dest.wants_relocation() ==> ({
            let a = relocate_args_model(dest, source, delete_after)->0;
            let flags = if delete_after {
                4int
            } else {
                3int
            };
            let extra = if dest.destination_remote is Some {
                1int
            } else {
                0int
            };
            &&& a.len() == flags + extra + 2
            &&& a[a.len() - 2] == source
            &&& a[a.len() - 1] == (match dest.destination_remote {
                Some(remote) => remote.destination,
                None => dest.destination_local->0,
            })
            &&& a.take(flags) == relocate_flag_list(delete_after)
        }),
{
    if dest.wants_relocation() {
        let a = relocate_args_model(dest, source, delete_after)->0;
        let flags = if delete_after {
            4int
        } else {
            3int
        };
        assert(a.take(flags) =~= relocate_flag_list(delete_after));
    }
}

/// The destructive deletion flag is present exactly when the configured
/// policy asks for it — never because of anything request-derived.  A
/// source or target that itself spells the flag string would defeat the
/// "only" direction, so such values are excluded by the premises.
pub proof fn lemma_delete_flag_iff_policy(
    dest: FileMoveSpecView,
    source: Seq<char>,
    delete_after: bool,
)
    requires
        dest.wants_relocation(),
        source != "--remove-source-files"@,
        dest.destination_local matches Some(local) ==> local != "--remove-source-files"@,
        dest.destination_remote matches Some(remote) ==> remote.destination
            != "--remove-source-files"@ && remote.extra_args != "--remove-source-files"@,
    ensures
        relocate_args_model(dest, source, delete_after)->0.contains("--remove-source-files"@)
            == delete_after,
{
    reveal_strlit("-v");
    reveal_strlit("--progress");
    reveal_strlit("-rp");
    reveal_strlit("--remove-source-files");
    let a = relocate_args_model(dest, source, delete_after)->0;
    if delete_after {
        assert(a[3] == "--remove-source-files"@);
        assert(a.contains("--remove-source-files"@));
    } else {
        assert forall|k: int| 0 <= k < a.len() implies a[k] != "--remove-source-files"@ by {
            assert(a[0] == "-v"@);
            assert(a[1] == "--progress"@);
            assert(a[2] == "-rp"@);
        }
        assert(!a.contains("--remove-source-files"@));
    }
}

/// The argument vector that normalizes permissions of the finished output
/// tree, marking it world-readable before transfer.
pub open spec fn chmod_args_model(path: Seq<char>) -> Seq<Seq<char>> {
    seq!["-R"@, "a+r"@, path]
}

pub fn build_chmod_args(path: &str) -> (args: Vec<String>)
    ensures
        args.deep_view() == chmod_args_model(path@),
{
    let mut args: Vec<String> = Vec::new();
    args.push("-R".to_owned());
    args.push("a+r".to_owned());
    args.push(path.to_owned());
    proof {
        assert(args.deep_view() =~= chmod_args_model(path@));
    }
    args
}

/// The downloader's self-update argument vector.
pub open spec fn update_args_model() -> Seq<Seq<char>> {
    seq!["-U"@]
}

pub fn build_update_args() -> (args: Vec<String>)
    ensures
        args.deep_view() == update_args_model(),
{
    let mut args: Vec<String> = Vec::new();
    args.push("-U".to_owned());
    proof {
        assert(args.deep_view() =~= update_args_model());
    }
    args
}

/// The audit line recorded before an external command runs: the program
/// followed by its arguments, space-separated.
pub open spec fn command_line_model(program: Seq<char>, args: Seq<Seq<char>>) -> Seq<char> {
    program + seq![' '] + join_spaces(args)
}

/// Renders a command as the single human-readable line the log records.
pub fn command_to_string(program: &str, args: &Vec<String>) -> (r: String)
    ensures
        r@ == command_line_model(program@, args.deep_view()),
{
    let mut out = program.to_owned();
    out.append(" ");
    proof {
        reveal_strlit(" ");
        assert(" "@ =~= seq![' ']);
        assert(out@ =~= program@ + seq![' '] + join_spaces(args.deep_view().take(0)));
    }
    let mut k: usize = 0;
    while k < args.len()
        invariant
            k <= args.len(),
            out@ =~= program@ + seq![' '] + join_spaces(args.deep_view().take(k as int)),
        decreases args.len() - k,
    {
        if k > 0 {
            out.append(" ");
        }
        out.append(args[k].as_str());
        proof {
            reveal_strlit(" ");
            assert(" "@ =~= seq![' ']);
            let prior = args.deep_view().take(k as int);
            let item = args@[k as int]@;
            lemma_join_spaces_push(prior, item);
            assert(args.deep_view().take(k + 1 as int) =~= prior.push(item));
            if k > 0 {
                assert(program@ + seq![' '] + join_spaces(prior) + seq![' '] + item =~= program@
                    + seq![' '] + (join_spaces(prior) + seq![' '] + item));
            }
        }
        k = k + 1;
    }
    proof {
        assert(args.deep_view().take(args@.len() as int) =~= args.deep_view());
    }
    out
}

} // verus!
