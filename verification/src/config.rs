use vstd::prelude::*;

verus! {

/// A remote relocation target: an rsync-style `host:path` plus extra flags
/// passed through to the relocator verbatim.
pub struct RsyncSpec {
    pub destination: String,
    pub extra_args: String,
}

/// Mathematical image of [`RsyncSpec`].
pub struct RsyncSpecView {
    pub destination: Seq<char>,
    pub extra_args: Seq<char>,
}

impl View for RsyncSpec {
    type V = RsyncSpecView;

    open spec fn view(&self) -> RsyncSpecView {
        RsyncSpecView { destination: self.destination@, extra_args: self.extra_args@ }
    }
}

/// One named destination: the logical key (`source`, doubling as the working
/// directory the downloader writes under) and where its output should end
/// up.  Both destinations absent means "download only, do not relocate".
pub struct FileMoveSpec {
    pub source: String,
    pub destination_local: Option<String>,
    pub destination_remote: Option<RsyncSpec>,
}

/// Mathematical image of [`FileMoveSpec`].
pub struct FileMoveSpecView {
    pub source: Seq<char>,
    pub destination_local: Option<Seq<char>>,
    pub destination_remote: Option<RsyncSpecView>,
}

impl View for FileMoveSpec {
    type V = FileMoveSpecView;

    open spec fn view(&self) -> FileMoveSpecView {
        FileMoveSpecView {
            source: self.source@,
            destination_local: match self.destination_local {
                Some(d) => Some(d@),
                None => None,
            },
            destination_remote: match self.destination_remote {
                Some(r) => Some(r@),
                None => None,
            },
        }
    }
}

impl FileMoveSpecView {
    /// Whether a completed download at this destination is relocated at all.
    pub open spec fn wants_relocation(&self) -> bool {
        self.destination_local is Some || self.destination_remote is Some
    }
}

/// Everything the process is configured with.  Each task captures its own
/// copy at construction, so an in-flight task never observes a later edit.
pub struct Config {
    pub log_dir: String,
    pub ytdlp_path: String,
    pub rsync_path: String,
    pub rsync_extra_args: String,
    pub output_directories: Vec<FileMoveSpec>,
    pub delete_files_after_move: bool,
}

/// Mathematical image of [`Config`].
pub struct ConfigView {
    pub log_dir: Seq<char>,
    pub ytdlp_path: Seq<char>,
    pub rsync_path: Seq<char>,
    pub rsync_extra_args: Seq<char>,
    pub output_directories: Seq<FileMoveSpecView>,
    pub delete_files_after_move: bool,
}

impl View for Config {
    type V = ConfigView;

    open spec fn view(&self) -> ConfigView {
        ConfigView {
            log_dir: self.log_dir@,
            ytdlp_path: self.ytdlp_path@,
            rsync_path: self.rsync_path@,
            rsync_extra_args: self.rsync_extra_args@,
            output_directories: self.output_directories@.map_values(|d: FileMoveSpec| d@),
            delete_files_after_move: self.delete_files_after_move,
        }
    }
}

impl Clone for RsyncSpec {
    fn clone(&self) -> (r: Self)
        ensures
            r == *self,
    {
        RsyncSpec { destination: self.destination.clone(), extra_args: self.extra_args.clone() }
    }
}

impl Clone for FileMoveSpec {
    fn clone(&self) -> (r: Self)
        ensures
            r == *self,
    {
        FileMoveSpec {
            source: self.source.clone(),
            destination_local: match &self.destination_local {
                Some(d) => Some(d.clone()),
                None => None,
            },
            destination_remote: match &self.destination_remote {
                Some(d) => Some(d.clone()),
                None => None,
            },
        }
    }
}

impl Clone for Config {
    fn clone(&self) -> (r: Self)
        ensures
            r@ == self@,
    {
        let mut output_directories: Vec<FileMoveSpec> = Vec::new();
        let mut k: usize = 0;
        while k < self.output_directories.len()
            invariant
                k <= self.output_directories.len(),
                output_directories@ =~= self.output_directories@.take(k as int),
            decreases self.output_directories.len() - k,
        {
            output_directories.push(self.output_directories[k].clone());
            k = k + 1;
        }
        proof {
            assert(output_directories@ =~= self.output_directories@);
        }
        let r = Config {
            log_dir: self.log_dir.clone(),
            ytdlp_path: self.ytdlp_path.clone(),
            rsync_path: self.rsync_path.clone(),
            rsync_extra_args: self.rsync_extra_args.clone(),
            output_directories,
            delete_files_after_move: self.delete_files_after_move,
        };
        proof {
            assert(r@ =~= self@);
        }
        r
    }
}

impl Default for Config {
    /// The built-in defaults, used when a setting is not supplied: logs
    /// under `./logs/`, the downloader looked for beside the binary, the
    /// relocator taken from the search path, no destinations, and sources
    /// deleted after a successful move.
    fn default() -> (c: Config)
        ensures
            c@.log_dir == "./logs/"@,
            c@.ytdlp_path == "./yt-dlp"@,
            c@.rsync_path == "rsync"@,
            c@.rsync_extra_args == ""@,
            c@.output_directories =~= Seq::<FileMoveSpecView>::empty(),
            c@.delete_files_after_move == true,
    {
        Config {
            log_dir: "./logs/".to_owned(),
            ytdlp_path: "./yt-dlp".to_owned(),
            rsync_path: "rsync".to_owned(),
            rsync_extra_args: "".to_owned(),
            output_directories: Vec::new(),
            delete_files_after_move: true,
        }
    }
}

impl Config {
    /// If no destination at all is configured, seeds the single default
    /// entry mapping the current directory to itself, so that a fresh
    /// installation can accept downloads; a non-empty configuration is left
    /// untouched.
    pub fn seed_default_destination(&mut self)
        ensures
            final(self)@.log_dir == old(self)@.log_dir,
            final(self)@.ytdlp_path == old(self)@.ytdlp_path,
            final(self)@.rsync_path == old(self)@.rsync_path,
            final(self)@.rsync_extra_args == old(self)@.rsync_extra_args,
            final(self)@.delete_files_after_move == old(self)@.delete_files_after_move,
            old(self)@.output_directories.len() > 0 ==> final(self)@ == old(self)@,
            old(self)@.output_directories.len() == 0 ==> {
                &&& final(self)@.output_directories.len() == 1
                &&& final(self)@.output_directories[0].source == "."@
                &&& final(self)@.output_directories[0].destination_local == Some("."@)
                &&& final(self)@.output_directories[0].destination_remote is None
            },
    {
        if self.output_directories.len() == 0 {
            self.output_directories.push(
                FileMoveSpec {
                    source: ".".to_owned(),
                    destination_local: Some(".".to_owned()),
                    destination_remote: None,
                },
            );
            proof {
                assert(self@.output_directories =~= seq![self.output_directories@[0]@]);
            }
        }
    }
}

} // verus!
