//! The environment resolver: choosing the interpreter executable and
//! composing the shared-library search path for the child process.
//!
//! Both resolutions are pure decisions over plain values. The surrounding
//! binary reads the environment variables and checks which candidate
//! paths exist on disk; the functions here fix the candidate order and
//! what is selected or composed from those findings.

use crate::textutil::concat_str;
use vstd::prelude::*;

verus! {

/// The interpreter candidates, in preference order: the explicit
/// override when one is set, then the known per-user virtual-environment
/// locations under the home directory.
pub open spec fn interpreter_candidates_model(
    override_path: Option<Seq<char>>,
    home: Option<Seq<char>>,
) -> Seq<Seq<char>> {
    let o: Seq<Seq<char>> = match override_path {
        Some(p) => seq![p],
        None => Seq::empty(),
    };
    let h: Seq<Seq<char>> = match home {
        Some(hm) => seq![
            hm + "/.venv-py312/bin/python3"@,
            hm + "/.venv/bin/python3"@,
            hm + "/venv/bin/python3"@,
        ],
        None => Seq::empty(),
    };
    o + h
}

/// Builds the ranked interpreter candidate list from the override
/// variable's value and the home directory, when either is set.
pub fn interpreter_candidates(override_path: &Option<String>, home: &Option<String>) -> (r: Vec<
    String,
>)
    ensures
        r.deep_view() == interpreter_candidates_model(override_path.deep_view(), home.deep_view()),
{
    let mut r: Vec<String> = Vec::new();
    if let Some(p) = override_path {
        r.push(p.clone());
    }
    if let Some(hm) = home {
        r.push(concat_str(hm.as_str(), "/.venv-py312/bin/python3"));
        r.push(concat_str(hm.as_str(), "/.venv/bin/python3"));
        r.push(concat_str(hm.as_str(), "/venv/bin/python3"));
    }
    proof {
        assert(r.deep_view() =~= interpreter_candidates_model(
            override_path.deep_view(),
            home.deep_view(),
        ));
    }
    r
}

/// The first candidate marked as existing, walking both lists in step.
pub open spec fn first_existing(cands: Seq<Seq<char>>, exists: Seq<bool>) -> Option<Seq<char>>
    decreases cands.len(),
{
    if cands.len() == 0 || exists.len() == 0 {
        None
    } else if exists[0] {
        Some(cands[0])
    } else {
        first_existing(cands.drop_first(), exists.drop_first())
    }
}

/// The first candidate whose existence flag is set, or `None` when none
/// is. `exists[i]` answers whether `cands[i]` exists on disk.
pub fn pick_first_existing(cands: &Vec<String>, exists: &Vec<bool>) -> (r: Option<String>)
    requires
        cands@.len() == exists@.len(),
    ensures
        r.deep_view() == first_existing(cands.deep_view(), exists@),
{
    let mut i: usize = 0;
    proof {
        assert(cands.deep_view().skip(0) =~= cands.deep_view());
        assert(exists@.skip(0) =~= exists@);
    }
    while i < cands.len()
        invariant
            i <= cands@.len(),
            cands@.len() == exists@.len(),
            first_existing(cands.deep_view(), exists@) == first_existing(
                cands.deep_view().skip(i as int),
                exists@.skip(i as int),
            ),
        decreases cands@.len() - i,
    {
        proof {
            assert(cands.deep_view().skip(i as int)[0] == cands@[i as int]@);
            assert(exists@.skip(i as int)[0] == exists@[i as int]);
            assert(cands.deep_view().skip(i as int).drop_first() =~= cands.deep_view().skip(
                i + 1 as int,
            ));
            assert(exists@.skip(i as int).drop_first() =~= exists@.skip(i + 1 as int));
        }
        if exists[i] {
            return Some(cands[i].clone());
        }
        i = i + 1;
    }
    None
}

/// What the interpreter resolution yields: the first existing candidate,
/// or the bare interpreter name resolved through the search path when no
/// candidate was verified to exist.
pub open spec fn resolve_interpreter_model(cands: Seq<Seq<char>>, exists: Seq<bool>) -> Seq<char> {
    match first_existing(cands, exists) {
        Some(p) => p,
        None => "python3"@,
    }
}

/// Chooses the interpreter: the first existing candidate, else the bare
/// name `python3`, always left to the spawn attempt to validate.
pub fn resolve_interpreter(cands: &Vec<String>, exists: &Vec<bool>) -> (r: String)
    requires
        cands@.len() == exists@.len(),
    ensures
        r@ == resolve_interpreter_model(cands.deep_view(), exists@),
{
    match pick_first_existing(cands, exists) {
        Some(p) => p,
        None => ("python3").to_owned(),
    }
}

/// The accelerator-library directory candidates, in order: the per-user
/// locations under the home directory, then the system-wide ones.
pub open spec fn library_dir_candidates_model(home: Option<Seq<char>>) -> Seq<Seq<char>> {
    let h: Seq<Seq<char>> = match home {
        Some(hm) => seq![hm + "/cudnn/lib"@, hm + "/miniconda3/lib"@, hm + "/anaconda3/lib"@],
        None => Seq::empty(),
    };
    h + seq!["/usr/local/cuda/lib64"@, "/usr/local/cuda/lib"@]
}

/// Builds the ranked library directory candidate list.
pub fn library_dir_candidates(home: &Option<String>) -> (r: Vec<String>)
    ensures
        r.deep_view() == library_dir_candidates_model(home.deep_view()),
{
    let mut r: Vec<String> = Vec::new();
    if let Some(hm) = home {
        r.push(concat_str(hm.as_str(), "/cudnn/lib"));
        r.push(concat_str(hm.as_str(), "/miniconda3/lib"));
        r.push(concat_str(hm.as_str(), "/anaconda3/lib"));
    }
    r.push(("/usr/local/cuda/lib64").to_owned());
    r.push(("/usr/local/cuda/lib").to_owned());
    proof {
        assert(r.deep_view() =~= library_dir_candidates_model(home.deep_view()));
    }
    r
}

/// The candidates marked as existing, in their original order.
pub open spec fn kept(dirs: Seq<Seq<char>>, exists: Seq<bool>) -> Seq<Seq<char>>
    decreases dirs.len(),
{
    if dirs.len() == 0 || exists.len() == 0 {
        Seq::empty()
    } else if exists[0] {
        seq![dirs[0]] + kept(dirs.drop_first(), exists.drop_first())
    } else {
        kept(dirs.drop_first(), exists.drop_first())
    }
}

/// The strings of `l` joined with the platform path separator.
pub open spec fn joined(l: Seq<Seq<char>>) -> Seq<char>
    decreases l.len(),
{
    if l.len() == 0 {
        Seq::empty()
    } else if l.len() == 1 {
        l[0]
    } else {
        l[0] + seq![':'] + joined(l.drop_first())
    }
}

/// What the library-path construction yields: the existing candidate
/// directories joined with `:`, with any pre-existing value of the same
/// variable appended unchanged after them (alone when no candidate
/// exists), so external configuration is never dropped.
pub open spec fn lib_path_model(
    dirs: Seq<Seq<char>>,
    exists: Seq<bool>,
    prior: Option<Seq<char>>,
) -> Seq<char> {
    let j = joined(kept(dirs, exists));
    match prior {
        None => j,
        Some(p) => if j.len() == 0 {
            p
        } else {
            j + seq![':'] + p
        },
    }
}

fn kept_from(dirs: &Vec<String>, exists: &Vec<bool>, i: usize) -> (r: Vec<String>)
    requires
        dirs@.len() == exists@.len(),
        i <= dirs@.len(),
    ensures
        r.deep_view() == kept(dirs.deep_view().skip(i as int), exists@.skip(i as int)),
    decreases dirs@.len() - i,
{
    if i == dirs.len() {
        Vec::new()
    } else {
        proof {
            assert(dirs.deep_view().skip(i as int)[0] == dirs@[i as int]@);
            assert(exists@.skip(i as int)[0] == exists@[i as int]);
            assert(dirs.deep_view().skip(i as int).drop_first() =~= dirs.deep_view().skip(
                i + 1 as int,
            ));
            assert(exists@.skip(i as int).drop_first() =~= exists@.skip(i + 1 as int));
        }
        let mut rest = kept_from(dirs, exists, i + 1);
        if exists[i] {
            rest.insert(0, dirs[i].clone());
            proof {
                assert(rest.deep_view() =~= seq![dirs@[i as int]@] + rest.deep_view().skip(1));
            }
        }
        rest
    }
}

fn joined_from(l: &Vec<String>, i: usize) -> (r: String)
    requires
        i <= l@.len(),
    ensures
        r@ == joined(l.deep_view().skip(i as int)),
    decreases l@.len() - i,
{
    if i == l.len() {
        String::new()
    } else if i + 1 == l.len() {
        proof {
            assert(l.deep_view().skip(i as int)[0] == l@[i as int]@);
        }
        l[i].clone()
    } else {
        proof {
            assert(l.deep_view().skip(i as int)[0] == l@[i as int]@);
            assert(l.deep_view().skip(i as int).drop_first() =~= l.deep_view().skip(i + 1 as int));
        }
        let rest = joined_from(l, i + 1);
        let mut out = l[i].clone();
        crate::textutil::push_char(&mut out, ':');
        out.append(rest.as_str());
        proof {
            assert(out@ =~= l@[i as int]@ + seq![':'] + rest@);
        }
        out
    }
}

/// Composes the shared-library search path, exactly as `lib_path_model`
/// describes. `exists[i]` answers whether `dirs[i]` exists on disk, and
/// `prior` is the variable's pre-existing value, if any.
pub fn build_library_path(dirs: &Vec<String>, exists: &Vec<bool>, prior: &Option<String>) -> (r:
    String)
    requires
        dirs@.len() == exists@.len(),
    ensures
        r@ == lib_path_model(dirs.deep_view(), exists@, prior.deep_view()),
{
    proof {
        assert(dirs.deep_view().skip(0) =~= dirs.deep_view());
        assert(exists@.skip(0) =~= exists@);
    }
    let k = kept_from(dirs, exists, 0);
    let j = joined_from(&k, 0);
    proof {
        assert(k.deep_view().skip(0) =~= k.deep_view());
    }
    match prior {
        None => j,
        Some(p) => {
            if j.as_str().is_empty() {
                p.clone()
            } else {
                let mut out = j;
                crate::textutil::push_char(&mut out, ':');
                out.append(p.as_str());
                proof {
                    assert(out@ =~= joined(kept(dirs.deep_view(), exists@)) + seq![':'] + p@);
                }
                out
            }
        },
    }
}

/// Library-path construction is deterministic: with the same candidate
/// directories, the same existence findings and the same pre-existing
/// value, any two results are identical.
pub proof fn lemma_library_path_deterministic(
    dirs: Seq<Seq<char>>,
    exists: Seq<bool>,
    prior: Option<Seq<char>>,
    r1: Seq<char>,
    r2: Seq<char>,
)
    requires
        r1 == lib_path_model(dirs, exists, prior),
        r2 == lib_path_model(dirs, exists, prior),
    ensures
        r1 == r2,
{
}

/// A pre-existing value of the variable always survives as a suffix of
/// the composed path, untouched.
pub proof fn lemma_prior_preserved(dirs: Seq<Seq<char>>, exists: Seq<bool>, p: Seq<char>)
    ensures
        p.is_suffix_of(lib_path_model(dirs, exists, Some(p))),
{
    let j = joined(kept(dirs, exists));
    let r = lib_path_model(dirs, exists, Some(p));
    if j.len() == 0 {
        assert(p =~= r.subrange(r.len() - p.len(), r.len() as int));
    } else {
        assert(r == j + seq![':'] + p);
        assert(p =~= r.subrange(r.len() - p.len(), r.len() as int));
    }
}

} // verus!
