use vstd::prelude::*;

verus! {

/// The separator characters a request's URL field is split on: the
/// characters Unicode marks as whitespace, the same set the standard
/// library's whitespace splitting accepts.  One submitted field may hold
/// several URLs separated by these, and each becomes its own download.
pub open spec fn is_space(c: char) -> bool {
    ||| c == '\t'
    ||| c == '\n'
    ||| c == '\u{0b}'
    ||| c == '\u{0c}'
    ||| c == '\r'
    ||| c == ' '
    ||| c == '\u{85}'
    ||| c == '\u{a0}'
    ||| c == '\u{1680}'
    ||| c == '\u{2000}'
    ||| c == '\u{2001}'
    ||| c == '\u{2002}'
    ||| c == '\u{2003}'
    ||| c == '\u{2004}'
    ||| c == '\u{2005}'
    ||| c == '\u{2006}'
    ||| c == '\u{2007}'
    ||| c == '\u{2008}'
    ||| c == '\u{2009}'
    ||| c == '\u{200a}'
    ||| c == '\u{2028}'
    ||| c == '\u{2029}'
    ||| c == '\u{202f}'
    ||| c == '\u{205f}'
    ||| c == '\u{3000}'
}

/// Length of the leading run of non-space characters of `s`.
pub open spec fn token_len(s: Seq<char>) -> int
    decreases s.len(),
{
    if s.len() == 0 || is_space(s[0]) {
        0
    } else {
        1 + token_len(s.skip(1))
    }
}

pub proof fn lemma_token_len_bounds(s: Seq<char>)
    ensures
        0 <= token_len(s) <= s.len(),
        s.len() > 0 && !is_space(s[0]) ==> 1 <= token_len(s),
    decreases s.len(),
{
    if s.len() == 0 || is_space(s[0]) {
    } else {
        lemma_token_len_bounds(s.skip(1));
    }
}

/// The maximal runs of non-space characters of `s`, in order: what splitting
/// `s` on whitespace yields.
pub open spec fn tokens(s: Seq<char>) -> Seq<Seq<char>>
    decreases s.len(),
    via tokens_decreases
{
    if s.len() == 0 {
        Seq::empty()
    } else if is_space(s[0]) {
        tokens(s.skip(1))
    } else {
        seq![s.take(token_len(s))] + tokens(s.skip(token_len(s)))
    }
}

#[via_fn]
proof fn tokens_decreases(s: Seq<char>) {
    lemma_token_len_bounds(s);
}

/// Unfolds `token_len` one character at a time, phrased over a position of a
/// larger sequence.
pub proof fn lemma_token_len_step(s: Seq<char>, i: int)
    requires
        0 <= i < s.len(),
        !is_space(s[i]),
    ensures
        token_len(s.skip(i)) == 1 + token_len(s.skip(i + 1)),
{
    assert(s.skip(i)[0] == s[i]);
    assert(s.skip(i).skip(1) =~= s.skip(i + 1));
}

pub proof fn lemma_token_len_stop(s: Seq<char>, i: int)
    requires
        0 <= i <= s.len(),
        i == s.len() || is_space(s[i]),
    ensures
        token_len(s.skip(i)) == 0,
{
    if i < s.len() {
        assert(s.skip(i)[0] == s[i]);
    }
}

/// A leading space contributes no token.
pub proof fn lemma_tokens_skip_space(s: Seq<char>, i: int)
    requires
        0 <= i < s.len(),
        is_space(s[i]),
    ensures
        tokens(s.skip(i)) == tokens(s.skip(i + 1)),
{
    assert(s.skip(i)[0] == s[i]);
    assert(s.skip(i).skip(1) =~= s.skip(i + 1));
}

/// A leading non-space character starts a token that runs to `j`, the end of
/// the non-space run.
pub proof fn lemma_tokens_take_token(s: Seq<char>, i: int, j: int)
    requires
        0 <= i < s.len(),
        !is_space(s[i]),
        j == i + token_len(s.skip(i)),
    ensures
        i < j <= s.len(),
        tokens(s.skip(i)) == seq![s.subrange(i, j)] + tokens(s.skip(j)),
{
    let t = s.skip(i);
    lemma_token_len_bounds(t);
    assert(t[0] == s[i]);
    assert(t.take(token_len(t)) =~= s.subrange(i, j));
    assert(t.skip(token_len(t)) =~= s.skip(j));
}

pub(crate) fn is_space_char(c: char) -> (r: bool)
    ensures
        r == is_space(c),
{
    match c {
        '\t' | '\n' | '\u{0b}' | '\u{0c}' | '\r' | ' ' | '\u{85}' | '\u{a0}' | '\u{1680}'
            | '\u{2000}' | '\u{2001}' | '\u{2002}' | '\u{2003}' | '\u{2004}' | '\u{2005}'
            | '\u{2006}' | '\u{2007}' | '\u{2008}' | '\u{2009}' | '\u{200a}' | '\u{2028}'
            | '\u{2029}' | '\u{202f}' | '\u{205f}' | '\u{3000}' => true,
        _ => false,
    }
}

/// Index just past the non-space run that starts at `i`.
fn scan_token(s: &str, i: usize, n: usize) -> (j: usize)
    requires
        n == s@.len(),
        i < n,
        !is_space(s@[i as int]),
    ensures
        i < j <= n,
        j == i + token_len(s@.skip(i as int)),
        j == n || is_space(s@[j as int]),
{
    let mut j: usize = i;
    while j < n && !is_space_char(s.get_char(j))
        invariant
            n == s@.len(),
            i <= j <= n,
            token_len(s@.skip(i as int)) == (j - i) + token_len(s@.skip(j as int)),
        decreases n - j,
    {
        proof {
            lemma_token_len_step(s@, j as int);
        }
        j = j + 1;
    }
    proof {
        lemma_token_len_stop(s@, j as int);
        lemma_token_len_bounds(s@.skip(i as int));
        lemma_token_len_step(s@, i as int);
        lemma_token_len_bounds(s@.skip(i as int + 1));
    }
    j
}

/// Splits `s` on whitespace into its maximal non-space runs, in order.
///
/// This is how one submitted URL field fans out into the list of URLs handed
/// to the downloader.
pub fn tokenize(s: &str) -> (urls: Vec<String>)
    ensures
        urls.deep_view() == tokens(s@),
{
    let n = s.unicode_len();
    let mut urls: Vec<String> = Vec::new();
    let mut i: usize = 0;
    proof {
        assert(s@.skip(0) =~= s@);
        assert(urls.deep_view() + tokens(s@) =~= tokens(s@));
    }
    while i < n
        invariant
            n == s@.len(),
            i <= n,
            tokens(s@) == urls.deep_view() + tokens(s@.skip(i as int)),
        decreases n - i,
    {
        if is_space_char(s.get_char(i)) {
            proof {
                lemma_tokens_skip_space(s@, i as int);
            }
            i = i + 1;
        } else {
            let ghost pre = urls.deep_view();
            let j = scan_token(s, i, n);
            let tok = s.substring_char(i, j).to_owned();
            urls.push(tok);
            proof {
                lemma_tokens_take_token(s@, i as int, j as int);
                assert(urls.deep_view() =~= pre + seq![s@.subrange(i as int, j as int)]);
                assert(pre + (seq![s@.subrange(i as int, j as int)] + tokens(s@.skip(j as int)))
                    =~= urls.deep_view() + tokens(s@.skip(j as int)));
            }
            i = j;
        }
    }
    proof {
        assert(s@.skip(n as int) =~= Seq::<char>::empty());
        assert(urls.deep_view() + tokens(Seq::<char>::empty()) =~= urls.deep_view());
    }
    urls
}

/// Character-for-character string equality.
pub fn str_eq(a: &str, b: &str) -> (r: bool)
    ensures
        r == (a@ == b@),
{
    let na = a.unicode_len();
    let nb = b.unicode_len();
    if na != nb {
        return false;
    }
    let mut k: usize = 0;
    while k < na
        invariant
            na == a@.len(),
            na == b@.len(),
            k <= na,
            forall|m: int| 0 <= m < k ==> a@[m] == b@[m],
        decreases na - k,
    {
        let ca = a.get_char(k);
        let cb = b.get_char(k);
        if ca != cb {
            return false;
        }
        k = k + 1;
    }
    proof {
        assert(a@ =~= b@);
    }
    true
}

/// The items of `items` laid end to end with a single space between
/// neighbours.
pub open spec fn join_spaces(items: Seq<Seq<char>>) -> Seq<char>
    decreases items.len(),
{
    if items.len() == 0 {
        Seq::empty()
    } else if items.len() == 1 {
        items[0]
    } else {
        items[0] + seq![' '] + join_spaces(items.skip(1))
    }
}

/// Joining grows from the right one item at a time.
pub proof fn lemma_join_spaces_push(items: Seq<Seq<char>>, last: Seq<char>)
    ensures
        join_spaces(items.push(last)) == if items.len() == 0 {
            last
        } else {
            join_spaces(items) + seq![' '] + last
        },
    decreases items.len(),
{
    let grown = items.push(last);
    if items.len() == 0 {
        assert(grown.len() == 1);
        assert(grown[0] == last);
    } else if items.len() == 1 {
        assert(grown.skip(1) =~= seq![last]);
        assert(join_spaces(grown.skip(1)) == last);
        assert(grown[0] == items[0]);
    } else {
        assert(grown.skip(1) =~= items.skip(1).push(last));
        lemma_join_spaces_push(items.skip(1), last);
        assert(grown[0] == items[0]);
        assert(items[0] + seq![' '] + (join_spaces(items.skip(1)) + seq![' '] + last) =~= (
        items[0] + seq![' '] + join_spaces(items.skip(1))) + seq![' '] + last);
    }
}

} // verus!
