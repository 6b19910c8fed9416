//! Relative asset paths.
//!
//! A page that sits `depth` directories below the site root refers to shared
//! assets (stylesheets, the search-index script) through a relative prefix, so
//! that the generated site can be served from any directory.

use vstd::prelude::*;

verus! {

/// One step up the directory tree, as it appears in a relative path.
pub open spec fn updir() -> Seq<char> {
    "../"@
}

/// `n` repetitions of `"../"`.
pub open spec fn updirs(n: nat) -> Seq<char>
    decreases n,
{
    if n == 0 {
        Seq::<char>::empty()
    } else {
        updir() + updirs((n - 1) as nat)
    }
}

/// The relative path from a page `depth` directories below the site root back
/// to the root: `"."` at the root itself, otherwise `depth` copies of `"../"`.
pub open spec fn spec_relative_prefix(depth: nat) -> Seq<char> {
    if depth == 0 {
        "."@
    } else {
        updirs(depth)
    }
}

proof fn lemma_updirs_snoc(n: nat)
    ensures
        updirs(n) + updir() == updirs(n + 1),
    decreases n,
{
    if n == 0 {
        assert(updirs(0) + updir() =~= updir() + updirs(0));
    } else {
        lemma_updirs_snoc((n - 1) as nat);
        assert(updirs(n) + updir() =~= updir() + (updirs((n - 1) as nat) + updir()));
    }
}

/// The relative prefix from a page at the given nesting depth to the site root.
pub fn relative_prefix(depth: usize) -> (r: String)
    ensures
        r@ == spec_relative_prefix(depth as nat),
{
    if depth == 0 {
        String::from_str(".")
    } else {
        let mut s = String::new();
        let mut i: usize = 0;
        while i < depth
            invariant
                i <= depth,
                s@ == updirs(i as nat),
            decreases depth - i,
        {
            s.append("../");
            proof {
                lemma_updirs_snoc(i as nat);
            }
            i = i + 1;
        }
        s
    }
}

proof fn lemma_updirs_len(n: nat)
    ensures
        updirs(n).len() == 3 * n,
    decreases n,
{
    reveal_strlit("../");
    if n > 0 {
        lemma_updirs_len((n - 1) as nat);
    }
}

proof fn lemma_updirs_last(n: nat)
    requires
        n > 0,
    ensures
        updirs(n).len() == 3 * n,
        updirs(n)[3 * n - 1] == '/',
    decreases n,
{
    reveal_strlit("../");
    lemma_updirs_len(n);
    if n == 1 {
        assert(updirs(1)[2] == updir()[2]);
    } else {
        lemma_updirs_last((n - 1) as nat);
        assert(updirs(n)[3 * n - 1] == updirs((n - 1) as nat)[3 * (n - 1) - 1]);
    }
}

/// True iff `pat` occurs in `s` starting at position `i`.
pub open spec fn occurs_at(s: Seq<char>, pat: Seq<char>, i: int) -> bool {
    0 <= i && i + pat.len() <= s.len() && s.subrange(i, i + pat.len()) == pat
}

/// The number of positions at or after `i` at which `pat` occurs in `s`.
pub open spec fn occurrences_from(s: Seq<char>, pat: Seq<char>, i: int) -> nat
    decreases s.len() + pat.len() + 1 - i,
    when 0 <= i
{
    if i + pat.len() > s.len() {
        0
    } else {
        (if occurs_at(s, pat, i) {
            1nat
        } else {
            0nat
        }) + occurrences_from(s, pat, i + 1)
    }
}

/// The number of positions at which `pat` occurs in `s`.
pub open spec fn occurrences(s: Seq<char>, pat: Seq<char>) -> nat {
    occurrences_from(s, pat, 0)
}

proof fn lemma_occurrences_shift(t: Seq<char>, s: Seq<char>, pat: Seq<char>, j: int)
    requires
        0 <= j,
    ensures
        occurrences_from(t + s, pat, t.len() + j) == occurrences_from(s, pat, j),
    decreases s.len() + pat.len() + 1 - j,
{
    if j + pat.len() > s.len() {
    } else {
        assert((t + s).subrange(t.len() + j, t.len() + j + pat.len()) =~= s.subrange(
            j,
            j + pat.len(),
        ));
        lemma_occurrences_shift(t, s, pat, j + 1);
    }
}

proof fn lemma_updirs_occurrences(n: nat)
    ensures
        occurrences(updirs(n), updir()) == n,
    decreases n,
{
    reveal_strlit("../");
    lemma_updirs_len(n);
    if n == 0 {
    } else {
        lemma_updirs_occurrences((n - 1) as nat);
        lemma_updirs_len((n - 1) as nat);
        let s = updirs(n);
        let rest = updirs((n - 1) as nat);
        let u = updir();
        assert(s.subrange(0, 3) =~= u);
        assert(occurs_at(s, u, 0));
        assert(occurrences_from(s, u, 0) == 1 + occurrences_from(s, u, 1));
        if n == 1 {
            assert(occurrences_from(s, u, 1) == 0);
        } else {
            // positions 1 and 2 fall inside the first "../" block and mismatch
            assert(s[2] == u[2]);
            assert(!occurs_at(s, u, 1)) by {
                if occurs_at(s, u, 1) {
                    assert(s.subrange(1, 4)[1] == u[1]);
                }
            }
            assert(!occurs_at(s, u, 2)) by {
                if occurs_at(s, u, 2) {
                    assert(s.subrange(2, 5)[0] == u[0]);
                }
            }
            assert(occurrences_from(s, u, 1) == occurrences_from(s, u, 2));
            assert(occurrences_from(s, u, 2) == occurrences_from(s, u, 3));
            lemma_occurrences_shift(u, rest, u, 0);
            assert(occurrences_from(s, u, 3) == occurrences_from(rest, u, 0));
        }
    }
}

/// The relative prefix for depth `d` contains exactly `d` occurrences of
/// `"../"`, and equals `"."` exactly when `d` is zero.
pub proof fn lemma_relative_prefix_shape(depth: nat)
    ensures
        occurrences(spec_relative_prefix(depth), updir()) == depth,
        spec_relative_prefix(depth) == "."@ <==> depth == 0,
{
    reveal_strlit(".");
    reveal_strlit("../");
    if depth == 0 {
        assert(occurrences_from("."@, updir(), 0) == 0);
    } else {
        lemma_updirs_occurrences(depth);
        lemma_updirs_len(depth);
        assert(updirs(depth).len() != "."@.len());
    }
}

/// `s` normalized to name a directory: a `'/'` is appended unless `s` already
/// ends in one.
pub open spec fn normalize_dir(s: Seq<char>) -> Seq<char> {
    if s.len() > 0 && s[s.len() - 1] == '/' {
        s
    } else {
        s.push('/')
    }
}

/// The site-root-relative path of the search-index script bundle.
pub open spec fn search_bundle() -> Seq<char> {
    "assets/thought-search/thought-search.js"@
}

/// The path of the search-index script as seen from a page at the given depth:
/// the relative prefix, normalized to end in `'/'`, followed by the bundle path.
pub open spec fn spec_search_script(depth: nat) -> Seq<char> {
    normalize_dir(spec_relative_prefix(depth)) + search_bundle()
}

/// The search-script path for a page at the given nesting depth.
pub fn search_script_at_depth(depth: usize) -> (r: String)
    ensures
        r@ == spec_search_script(depth as nat),
{
    let mut prefix = relative_prefix(depth);
    if depth == 0 {
        prefix.append("/");
        proof {
            reveal_strlit(".");
            reveal_strlit("/");
            assert(prefix@ =~= normalize_dir("."@));
        }
    } else {
        proof {
            lemma_updirs_last(depth as nat);
        }
    }
    prefix.append("assets/thought-search/thought-search.js");
    prefix
}

/// The search-script path for an index page, which sits at the site root.
pub fn search_script_path() -> (r: &'static str)
    ensures
        r@ == search_bundle(),
{
    "assets/thought-search/thought-search.js"
}

/// The search-script path for depth `d` is exactly the relative prefix for
/// `d`, normalized to end in `'/'`, followed by the fixed bundle path.
pub proof fn lemma_search_script_shape(depth: nat)
    ensures
        spec_search_script(depth).len() == normalize_dir(spec_relative_prefix(depth)).len()
            + search_bundle().len(),
        spec_search_script(depth).subrange(
            spec_search_script(depth).len() - search_bundle().len(),
            spec_search_script(depth).len() as int,
        ) == search_bundle(),
        spec_search_script(depth).subrange(
            0,
            normalize_dir(spec_relative_prefix(depth)).len() as int,
        ) == normalize_dir(spec_relative_prefix(depth)),
{
    let a = normalize_dir(spec_relative_prefix(depth));
    let b = search_bundle();
    assert((a + b).subrange(a.len() as int, (a + b).len() as int) =~= b);
    assert((a + b).subrange(0, a.len() as int) =~= a);
}

} // verus!
