use vstd::prelude::*;

use crate::errors::SubmitError;

verus! {

/// What lexically normalizing a path yields: repeated separators collapsed,
/// `.` components dropped, `..` components resolved against what precedes
/// them.  The normal form is a function of the path string alone; it is
/// computed by the outside `path_clean` crate and left uninterpreted here.
pub uninterp spec fn cleaned(path: Seq<char>) -> Seq<char>;

/// Relies on `path_clean::clean`: the lexical normal form of the path, a
/// pure function of the string that touches no filesystem state.  The result
/// of `clean` is built from Unicode components of its input plus ASCII
/// separators, so reading the returned `PathBuf` back as a string loses
/// nothing.
#[verifier::external_body]
pub(crate) fn clean_path(path: &str) -> (r: String)
    ensures
        r@ == cleaned(path@),
{
    path_clean::clean(path).to_string_lossy().into_owned()
}

/// `root` followed by a separator and `sub`: the candidate output directory
/// for a requested subdirectory, before normalization.
pub open spec fn joined_path(root: Seq<char>, sub: Seq<char>) -> Seq<char> {
    root + seq!['/'] + sub
}

/// `p` names `root` itself or a descendant of it: either the two are equal,
/// or `p` continues `root` at a component boundary.
pub open spec fn within_root(root: Seq<char>, p: Seq<char>) -> bool {
    p == root || (p.len() > root.len() && p.subrange(0, root.len() as int) == root && (p[
        root.len() as int
    ] == '/' || (root.len() > 0 && root[root.len() - 1] == '/')))
}

/// The requested subdirectory keeps the normalized join under the root: the
/// condition under which a `(output_directory_key, subdirectory)` pair is
/// accepted.
pub open spec fn subdir_admissible(root: Seq<char>, sub: Seq<char>) -> bool {
    within_root(root, cleaned(joined_path(root, sub)))
}

pub fn join_under_root(root: &str, sub: &str) -> (r: String)
    ensures
        r@ == joined_path(root@, sub@),
{
    let mut out = root.to_owned();
    out.append("/");
    out.append(sub);
    proof {
        reveal_strlit("/");
        assert("/"@ =~= seq!['/']);
    }
    out
}

/// Whether `p` stays at or under `root`, decided character by character.
pub fn path_stays_within(root: &str, p: &str) -> (b: bool)
    ensures
        b == within_root(root@, p@),
{
    let nr = root.unicode_len();
    let np = p.unicode_len();
    if np < nr {
        return false;
    }
    let mut k: usize = 0;
    while k < nr
        invariant
            nr == root@.len(),
            np == p@.len(),
            nr <= np,
            k <= nr,
            forall|m: int| 0 <= m < k ==> p@[m] == root@[m],
        decreases nr - k,
    {
        let cp = p.get_char(k);
        let cr = root.get_char(k);
        if cp != cr {
            proof {
                assert(!within_root(root@, p@)) by {
                    if p@ == root@ {
                        assert(p@[k as int] == root@[k as int]);
                    }
                    if p@.len() > root@.len() && p@.subrange(0, root@.len() as int) == root@ {
                        assert(p@.subrange(0, root@.len() as int)[k as int] == p@[k as int]);
                    }
                }
            }
            return false;
        }
        k = k + 1;
    }
    if np == nr {
        proof {
            assert(p@ =~= root@);
        }
        return true;
    }
    proof {
        assert(p@.subrange(0, root@.len() as int) =~= root@);
    }
    if p.get_char(nr) == '/' {
        return true;
    }
    if nr > 0 && root.get_char(nr - 1) == '/' {
        return true;
    }
    proof {
        assert(p@.len() != root@.len());
        assert(p@ != root@);
    }
    false
}

/// Joins the caller-supplied subdirectory onto the canonical root,
/// normalizes the result lexically, and accepts it only if it stays at or
/// under the root.  On success the normalized path is returned; a pair that
/// escapes is rejected with `PathEscape`, and nothing is created or run on
/// its account.
pub fn check_subdirectory(root: &str, sub: &str) -> (r: Result<String, SubmitError>)
    ensures
        subdir_admissible(root@, sub@) ==> (r matches Ok(p) && p@ == cleaned(
            joined_path(root@, sub@),
        )),
        !subdir_admissible(root@, sub@) ==> r == Result::<String, SubmitError>::Err(
            SubmitError::PathEscape,
        ),
{
    let joined = join_under_root(root, sub);
    let normal = clean_path(joined.as_str());
    if path_stays_within(root, normal.as_str()) {
        Ok(normal)
    } else {
        Err(SubmitError::PathEscape)
    }
}

/// Where the log of the task with this id lives: a file named after the id,
/// with a `.log` suffix, in the configured log directory.
pub open spec fn log_path_model(log_dir: Seq<char>, id: Seq<char>) -> Seq<char> {
    log_dir + seq!['/'] + id + ".log"@
}

pub fn log_path(log_dir: &str, id: &str) -> (r: String)
    ensures
        r@ == log_path_model(log_dir@, id@),
{
    let mut out = log_dir.to_owned();
    out.append("/");
    out.append(id);
    out.append(".log");
    proof {
        reveal_strlit("/");
        assert("/"@ =~= seq!['/']);
    }
    out
}

/// Distinct task ids never share a log file: the log path is injective in
/// the id for a fixed log directory.
pub proof fn lemma_log_path_injective(log_dir: Seq<char>, id1: Seq<char>, id2: Seq<char>)
    requires
        id1 != id2,
    ensures
        log_path_model(log_dir, id1) != log_path_model(log_dir, id2),
{
    let p1 = log_path_model(log_dir, id1);
    let p2 = log_path_model(log_dir, id2);
    if id1.len() == id2.len() {
        assert(exists|k: int| 0 <= k < id1.len() && id1[k] != id2[k]) by {
            if forall|k: int| 0 <= k < id1.len() ==> id1[k] == id2[k] {
                assert(id1 =~= id2);
            }
        }
        let k = choose|k: int| 0 <= k < id1.len() && id1[k] != id2[k];
        let pos = log_dir.len() + 1 + k;
        assert(p1[pos] == id1[k]);
        assert(p2[pos] == id2[k]);
        assert(p1 != p2) by {
            if p1 == p2 {
                assert(p1[pos] == p2[pos]);
            }
        }
    } else {
        assert(p1.len() != p2.len());
    }
}

} // verus!
