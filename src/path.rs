//! Canonical path form and mode checks.
use vstd::prelude::*;

use crate::metadata::EntryMode;

verus! {

/// True when `p` names a directory, i.e. ends with `/`.
pub open spec fn ends_with_slash(p: Seq<char>) -> bool {
    p.len() > 0 && p.last() == '/'
}

/// Drops every `/` that starts the path or follows another `/`.
pub open spec fn collapse_separators(p: Seq<char>) -> Seq<char>
    decreases p.len(),
{
    if p.len() == 0 {
        Seq::empty()
    } else {
        let init = p.drop_last();
        if p.last() == '/' && (init.len() == 0 || init.last() == '/') {
            collapse_separators(init)
        } else {
            collapse_separators(init).push(p.last())
        }
    }
}

/// The canonical form of a path: no leading `/`, no run of `/`, a trailing
/// `/` kept for directories; the root (and the empty path) becomes `/`.
pub open spec fn normalize(p: Seq<char>) -> Seq<char> {
    let c = collapse_separators(p);
    if c.len() == 0 {
        seq!['/']
    } else {
        c
    }
}

/// No leading `/` and no two `/` in a row.
pub open spec fn has_clean_separators(p: Seq<char>) -> bool {
    &&& (p.len() == 0 || p[0] != '/')
    &&& forall|i: int| 0 <= i < p.len() - 1 ==> !(#[trigger] p[i] == '/' && p[i + 1] == '/')
}

/// A path in canonical form: the root `/`, or a non-empty path with clean
/// separators.
pub open spec fn is_normalized(p: Seq<char>) -> bool {
    p == seq!['/'] || (p.len() > 0 && has_clean_separators(p))
}

/// What `validate_path` answers: directories must end with `/`, files must not.
pub open spec fn path_matches_mode(p: Seq<char>, mode: EntryMode) -> bool {
    if ends_with_slash(p) {
        mode == EntryMode::Dir
    } else {
        mode == EntryMode::File
    }
}

proof fn lemma_collapse_last(p: Seq<char>)
    requires
        p.len() > 0,
        p.last() != '/',
    ensures
        collapse_separators(p).len() > 0,
        collapse_separators(p).last() == p.last(),
{
}

proof fn lemma_collapse_clean(p: Seq<char>)
    ensures
        has_clean_separators(collapse_separators(p)),
    decreases p.len(),
{
    if p.len() > 0 {
        let init = p.drop_last();
        lemma_collapse_clean(init);
        let ci = collapse_separators(init);
        if !(p.last() == '/' && (init.len() == 0 || init.last() == '/')) {
            let c = ci.push(p.last());
            if p.last() == '/' {
                lemma_collapse_last(init);
            }
            assert forall|i: int| 0 <= i < c.len() - 1 implies !(#[trigger] c[i] == '/' && c[i
                + 1] == '/') by {
                if i < ci.len() - 1 {
                    assert(c[i] == ci[i] && c[i + 1] == ci[i + 1]);
                }
            }
        }
    }
}

proof fn lemma_collapse_fixes_clean(p: Seq<char>)
    requires
        has_clean_separators(p),
    ensures
        collapse_separators(p) == p,
    decreases p.len(),
{
    if p.len() > 0 {
        let init = p.drop_last();
        assert forall|i: int| 0 <= i < init.len() - 1 implies !(#[trigger] init[i] == '/'
            && init[i + 1] == '/') by {
            assert(init[i] == p[i] && init[i + 1] == p[i + 1]);
        }
        lemma_collapse_fixes_clean(init);
        if p.last() == '/' {
            assert(init.len() > 0);
            assert(p[init.len() - 1] == init.last());
        }
        assert(init.push(p.last()) =~= p);
    }
}

/// A canonical path is its own canonical form, and every canonical form is
/// canonical.
pub proof fn lemma_normalize_fixes_normalized(p: Seq<char>)
    ensures
        is_normalized(normalize(p)),
        is_normalized(p) ==> normalize(p) == p,
{
    lemma_collapse_clean(p);
    if p == seq!['/'] {
        assert(p.drop_last() =~= Seq::<char>::empty());
        assert(collapse_separators(p) == collapse_separators(p.drop_last()));
    } else if is_normalized(p) {
        lemma_collapse_fixes_clean(p);
    }
}

/// A non-empty path that does not end with `/` keeps that form.
pub proof fn lemma_normalize_keeps_file(p: Seq<char>)
    requires
        p.len() > 0,
        !ends_with_slash(p),
    ensures
        !ends_with_slash(normalize(p)),
{
    lemma_collapse_last(p);
}

/// Normalizing twice gives what normalizing once gives.
pub proof fn lemma_normalize_idempotent(p: Seq<char>)
    ensures
        normalize(normalize(p)) == normalize(p),
{
    lemma_normalize_fixes_normalized(p);
    lemma_normalize_fixes_normalized(normalize(p));
}

/// A path ending in `/` validates as a directory and not as a file; any
/// other path validates as a file and not as a directory.
pub proof fn lemma_validate_modes(p: Seq<char>)
    ensures
        ends_with_slash(p) ==> path_matches_mode(p, EntryMode::Dir) && !path_matches_mode(
            p,
            EntryMode::File,
        ),
        !ends_with_slash(p) ==> path_matches_mode(p, EntryMode::File) && !path_matches_mode(
            p,
            EntryMode::Dir,
        ),
{
}

/// Brings `path` into canonical form: leading and repeated separators are
/// removed, a trailing `/` is kept, and an empty result becomes `/`.
pub fn normalize_path(path: &str) -> (r: String)
    ensures
        r@ == normalize(path@),
        is_normalized(r@),
{
    let n = path.unicode_len();
    let mut out = String::new();
    let mut prev_slash = true;
    let mut i: usize = 0;
    while i < n
        invariant
            n == path@.len(),
            i <= n,
            out@ == collapse_separators(path@.subrange(0, i as int)),
            prev_slash == (i == 0 || path@[i - 1] == '/'),
        decreases n - i,
    {
        let c = path.get_char(i);
        assert(path@.subrange(0, i as int + 1).drop_last() =~= path@.subrange(0, i as int));
        if !(c == '/' && prev_slash) {
            out.append(path.substring_char(i, i + 1));
            assert(path@.subrange(i as int, i as int + 1) =~= seq![c]);
        }
        prev_slash = c == '/';
        i = i + 1;
    }
    assert(path@.subrange(0, n as int) =~= path@);
    proof {
        lemma_normalize_fixes_normalized(path@);
    }
    if out.unicode_len() == 0 {
        let root = String::from_str("/");
        proof {
            reveal_strlit("/");
        }
        assert(root@ =~= seq!['/']);
        root
    } else {
        out
    }
}

/// Whether `path` has the form that `mode` asks for: a directory path ends
/// with `/`, a file path does not. Any other mode never validates.
pub fn validate_path(path: &str, mode: EntryMode) -> (r: bool)
    ensures
        r == path_matches_mode(path@, mode),
{
    let n = path.unicode_len();
    if n > 0 && path.get_char(n - 1) == '/' {
        mode == EntryMode::Dir
    } else {
        mode == EntryMode::File
    }
}

} // verus!
