//! The worker locator: the ordered candidate paths where the worker
//! script may live, and the rule that the first existing candidate wins.
//!
//! Paths are modeled as `/`-separated strings. The candidate order is
//! fixed: the packaged-bundle layout first (a pass-through resources
//! folder, then a direct resources folder), then a bounded walk up the
//! executable's ancestors, and the development layout last — so a
//! packaged install always takes precedence over a source tree.

use crate::environment::first_existing;
use crate::response::ErrModel;
use crate::response::OpError;
use crate::textutil::append_all;
use crate::textutil::chars_of;
use crate::textutil::concat_str;
use crate::textutil::string_of_char_range;
use vstd::prelude::*;

verus! {

/// The directory holding `p`: everything before the last `/`, or `None`
/// when `p` holds no `/` at all.
pub open spec fn parent_model(p: Seq<char>) -> Option<Seq<char>>
    decreases p.len(),
{
    if p.len() == 0 {
        None
    } else if p[p.len() - 1] == '/' {
        Some(p.drop_last())
    } else {
        parent_model(p.drop_last())
    }
}

/// The directory holding `p`, as `parent_model` describes.
pub fn parent_dir(p: &str) -> (r: Option<String>)
    ensures
        r.deep_view() == parent_model(p@),
{
    let v = chars_of(p);
    let mut j = v.len();
    proof {
        assert(v@.subrange(0, j as int) =~= v@);
    }
    while j > 0
        invariant
            j <= v@.len(),
            v@ == p@,
            parent_model(p@) == parent_model(v@.subrange(0, j as int)),
        decreases j,
    {
        proof {
            let w = v@.subrange(0, j as int);
            assert(w[w.len() - 1] == v@[j - 1]);
            assert(w.drop_last() =~= v@.subrange(0, j - 1 as int));
        }
        if v[j - 1] == '/' {
            return Some(string_of_char_range(&v, 0, j - 1));
        }
        j = j - 1;
    }
    proof {
        assert(v@.subrange(0, 0).len() == 0);
    }
    None
}

/// The characters after the last `/` of `p` (all of `p` when it holds
/// none).
pub open spec fn last_segment(p: Seq<char>) -> Seq<char>
    decreases p.len(),
{
    if p.len() == 0 {
        Seq::empty()
    } else if p[p.len() - 1] == '/' {
        Seq::empty()
    } else {
        last_segment(p.drop_last()).push(p[p.len() - 1])
    }
}

/// Whether the last `/`-separated segment of `p` is `seg`.
pub fn ends_with_segment(p: &str, seg: &str) -> (r: bool)
    ensures
        r == (last_segment(p@) == seg@),
{
    let v = chars_of(p);
    let n = v.len();
    let mut st = n;
    proof {
        assert(v@.subrange(0, st as int) =~= v@);
        assert(v@.subrange(st as int, n as int) =~= Seq::<char>::empty());
        assert(last_segment(v@.subrange(0, st as int)) + v@.subrange(st as int, n as int)
            =~= last_segment(v@));
    }
    while st > 0 && v[st - 1] != '/'
        invariant
            st <= n,
            n == v@.len(),
            v@ == p@,
            last_segment(v@) == last_segment(v@.subrange(0, st as int)) + v@.subrange(
                st as int,
                n as int,
            ),
        decreases st,
    {
        proof {
            let w = v@.subrange(0, st as int);
            assert(w[w.len() - 1] == v@[st - 1]);
            assert(w.drop_last() =~= v@.subrange(0, st - 1 as int));
            assert(last_segment(v@.subrange(0, st - 1 as int)).push(v@[st - 1]) + v@.subrange(
                st as int,
                n as int,
            ) =~= last_segment(v@.subrange(0, st - 1 as int)) + v@.subrange(st - 1 as int, n as int));
        }
        st = st - 1;
    }
    proof {
        if st == 0 {
            assert(v@.subrange(0, 0).len() == 0);
            assert(last_segment(v@.subrange(0, 0)) + v@.subrange(0, n as int) =~= v@.subrange(
                0,
                n as int,
            ));
        } else {
            let w = v@.subrange(0, st as int);
            assert(w[w.len() - 1] == v@[st - 1]);
            assert(last_segment(w) =~= Seq::<char>::empty());
            assert(last_segment(w) + v@.subrange(st as int, n as int) =~= v@.subrange(
                st as int,
                n as int,
            ));
        }
        assert(last_segment(p@) == v@.subrange(st as int, n as int));
    }
    let tail = string_of_char_range(&v, st, n);
    let seg_string = seg.to_owned();
    tail.eq(&seg_string)
}

/// The packaged-bundle candidates: from the directory above the
/// executable's own, the pass-through resources folder and then the
/// direct resources folder. Empty when the executable's directory has no
/// parent.
pub open spec fn bundle_candidates_model(exe_dir: Seq<char>) -> Seq<Seq<char>> {
    match parent_model(exe_dir) {
        Some(contents) => seq![
            contents + "/Resources/_up_/src-python/main.py"@,
            contents + "/Resources/src-python/main.py"@,
        ],
        None => Seq::empty(),
    }
}

/// The ancestor-walk candidates: the script folder checked beside
/// `d` and then beside each of its ancestors, at most `k` levels.
pub open spec fn walk_candidates_model(d: Seq<char>, k: nat) -> Seq<Seq<char>>
    decreases k,
{
    if k == 0 {
        Seq::empty()
    } else {
        seq![d + "/src-python/main.py"@] + (match parent_model(d) {
            Some(par) => walk_candidates_model(par, (k - 1) as nat),
            None => Seq::empty(),
        })
    }
}

/// The development-layout candidate: from the working directory — one
/// level up when it ends in the build-tooling folder — into the source
/// folder beside the project root.
pub open spec fn dev_candidate_model(cwd: Seq<char>) -> Seq<char> {
    let root = if last_segment(cwd) == "src-tauri"@ {
        match parent_model(cwd) {
            Some(par) => par,
            None => Seq::empty(),
        }
    } else {
        cwd
    };
    if root.len() == 0 {
        "src-python/main.py"@
    } else {
        root + "/src-python/main.py"@
    }
}

/// Every candidate in the order tried: the packaged-bundle layout, the
/// ancestor walk (at most eight levels), then the development layout.
pub open spec fn script_candidates_model(exe_dir: Option<Seq<char>>, cwd: Seq<char>) -> Seq<
    Seq<char>,
> {
    (match exe_dir {
        Some(d) => bundle_candidates_model(d) + walk_candidates_model(d, 8),
        None => Seq::empty(),
    }) + seq![dev_candidate_model(cwd)]
}

fn walk_candidates(d: &str, k: usize) -> (r: Vec<String>)
    ensures
        r.deep_view() == walk_candidates_model(d@, k as nat),
    decreases k,
{
    if k == 0 {
        Vec::new()
    } else {
        let mut r: Vec<String> = Vec::new();
        r.push(concat_str(d, "/src-python/main.py"));
        match parent_dir(d) {
            Some(par) => {
                let rest = walk_candidates(par.as_str(), k - 1);
                append_all(&mut r, &rest);
                proof {
                    assert(r.deep_view() =~= walk_candidates_model(d@, k as nat));
                }
            },
            None => {
                proof {
                    assert(r.deep_view() =~= walk_candidates_model(d@, k as nat));
                }
            },
        }
        r
    }
}

/// Builds the full candidate list, as `script_candidates_model`
/// describes, from the executable's directory (when known) and the
/// working directory.
pub fn script_candidates(exe_dir: &Option<String>, cwd: &str) -> (r: Vec<String>)
    ensures
        r.deep_view() == script_candidates_model(exe_dir.deep_view(), cwd@),
{
    let mut r: Vec<String> = Vec::new();
    if let Some(d) = exe_dir {
        match parent_dir(d.as_str()) {
            Some(contents) => {
                r.push(concat_str(contents.as_str(), "/Resources/_up_/src-python/main.py"));
                r.push(concat_str(contents.as_str(), "/Resources/src-python/main.py"));
            },
            None => {},
        }
        proof {
            assert(r.deep_view() =~= bundle_candidates_model(d@));
        }
        let walk = walk_candidates(d.as_str(), 8);
        append_all(&mut r, &walk);
    }
    let dev = if ends_with_segment(cwd, "src-tauri") {
        match parent_dir(cwd) {
            Some(par) => {
                if par.as_str().is_empty() {
                    ("src-python/main.py").to_owned()
                } else {
                    concat_str(par.as_str(), "/src-python/main.py")
                }
            },
            None => ("src-python/main.py").to_owned(),
        }
    } else {
        if cwd.is_empty() {
            ("src-python/main.py").to_owned()
        } else {
            concat_str(cwd, "/src-python/main.py")
        }
    };
    proof {
        assert(dev@ == dev_candidate_model(cwd@));
    }
    r.push(dev);
    proof {
        assert(r.deep_view() =~= script_candidates_model(exe_dir.deep_view(), cwd@));
    }
    r
}

/// What locating the script yields: the first existing candidate, or the
/// not-found failure when no candidate exists.
pub open spec fn locate_model(cands: Seq<Seq<char>>, exists: Seq<bool>) -> Result<
    Seq<char>,
    ErrModel,
> {
    match first_existing(cands, exists) {
        Some(p) => Ok(p),
        None => Err(ErrModel::ScriptNotFound),
    }
}

/// Locates the worker script: the first candidate that exists on disk
/// wins; with none, the call fails. `exists[i]` answers whether
/// `cands[i]` exists.
pub fn locate_script(cands: &Vec<String>, exists: &Vec<bool>) -> (r: Result<String, OpError>)
    requires
        cands@.len() == exists@.len(),
    ensures
        (match r {
            Ok(s) => Ok::<Seq<char>, ErrModel>(s@),
            Err(e) => Err(e@),
        }) == locate_model(cands.deep_view(), exists@),
{
    match crate::environment::pick_first_existing(cands, exists) {
        Some(p) => Ok(p),
        None => Err(OpError::ScriptNotFound),
    }
}

/// When the script exists under the packaged-bundle layout, locating it
/// yields the bundle's pass-through path — whatever exists elsewhere, the
/// development layout included.
pub proof fn lemma_bundle_precedence(exe_dir: Seq<char>, cwd: Seq<char>, exists: Seq<bool>)
    requires
        parent_model(exe_dir) is Some,
        exists.len() == script_candidates_model(Some(exe_dir), cwd).len(),
        exists[0],
    ensures
        locate_model(script_candidates_model(Some(exe_dir), cwd), exists) == Ok::<
            Seq<char>,
            ErrModel,
        >(parent_model(exe_dir)->Some_0 + "/Resources/_up_/src-python/main.py"@),
{
    let cands = script_candidates_model(Some(exe_dir), cwd);
    assert(cands[0] == parent_model(exe_dir)->Some_0 + "/Resources/_up_/src-python/main.py"@);
}

} // verus!
