use vstd::prelude::*;

use crate::config::{Config, FileMoveSpec, FileMoveSpecView};
use crate::errors::SubmitError;
use crate::paths::{check_subdirectory, subdir_admissible};
use crate::text::str_eq;

verus! {

/// The first configured destination whose key equals `key`, if any.
pub open spec fn found_destination(dirs: Seq<FileMoveSpecView>, key: Seq<char>) -> Option<
    FileMoveSpecView,
>
    decreases dirs.len(),
{
    if dirs.len() == 0 {
        None
    } else if dirs[0].source == key {
        Some(dirs[0])
    } else {
        found_destination(dirs.skip(1), key)
    }
}

/// If no key before `i` matches, the search may as well start at `i`.
proof fn lemma_found_destination_from(dirs: Seq<FileMoveSpecView>, key: Seq<char>, i: int)
    requires
        0 <= i <= dirs.len(),
        forall|m: int| 0 <= m < i ==> dirs[m].source != key,
    ensures
        found_destination(dirs, key) == found_destination(dirs.skip(i), key),
    decreases i,
{
    if i == 0 {
        assert(dirs.skip(0) =~= dirs);
    } else {
        lemma_found_destination_from(dirs, key, i - 1);
        assert(dirs.skip(i - 1)[0] == dirs[i - 1]);
        assert(dirs.skip(i - 1).skip(1) =~= dirs.skip(i));
    }
}

/// Looks the key up among the configured destinations, by exact equality on
/// the `source` field, first match winning.
pub fn find_destination(config: &Config, key: &str) -> (r: Option<FileMoveSpec>)
    ensures
        match r {
            Some(d) => found_destination(config@.output_directories, key@) == Some(d@),
            None => found_destination(config@.output_directories, key@) is None,
        },
{
    let ghost dirs = config@.output_directories;
    let mut i: usize = 0;
    while i < config.output_directories.len()
        invariant
            dirs == config@.output_directories,
            i <= config.output_directories.len(),
            forall|m: int| 0 <= m < i ==> dirs[m].source != key@,
        decreases config.output_directories.len() - i,
    {
        if str_eq(config.output_directories[i].source.as_str(), key) {
            proof {
                lemma_found_destination_from(dirs, key@, i as int);
                assert(dirs.skip(i as int)[0] == dirs[i as int]);
            }
            return Some(config.output_directories[i].clone());
        }
        i = i + 1;
    }
    proof {
        lemma_found_destination_from(dirs, key@, i as int);
        assert(dirs.skip(i as int).len() == 0);
    }
    None
}

/// Resolves a request's `(output_directory_key, subdirectory)` pair to the
/// destination it names.
///
/// `canonical_root` is the absolute, symlink-free form of the found entry's
/// `source` directory; turning `source` into it takes the filesystem, so the
/// caller supplies it.  A key that matches no entry fails with
/// `UnknownDestination`; a subdirectory whose normalized join leaves the
/// root fails with `PathEscape`.  Neither failure creates a directory or
/// starts a process: this function only inspects strings.
pub fn resolve(config: &Config, key: &str, canonical_root: &str, sub: &str) -> (r: Result<
    FileMoveSpec,
    SubmitError,
>)
    ensures
        found_destination(config@.output_directories, key@) is None ==> r == Result::<
            FileMoveSpec,
            SubmitError,
        >::Err(SubmitError::UnknownDestination),
        found_destination(config@.output_directories, key@) is Some && !subdir_admissible(
            canonical_root@,
            sub@,
        ) ==> r == Result::<FileMoveSpec, SubmitError>::Err(SubmitError::PathEscape),
        found_destination(config@.output_directories, key@) is Some && subdir_admissible(
            canonical_root@,
            sub@,
        ) ==> (r matches Ok(d) && found_destination(config@.output_directories, key@) == Some(
            d@,
        )),
{
    let dest = match find_destination(config, key) {
        Some(d) => d,
        None => {
            return Err(SubmitError::UnknownDestination);
        },
    };
    match check_subdirectory(canonical_root, sub) {
        Ok(_) => Ok(dest),
        Err(e) => Err(e),
    }
}

} // verus!
