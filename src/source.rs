use vstd::prelude::*;
use vstd::string::*;

use crate::batch::JobOutcome;
use crate::filter::{filter_packages, lemma_working_set, working_set, PackageFilter};
use crate::package::Package;

verus! {

/// The three results of checking a package's cached source artifact.
#[derive(Clone, Copy, Debug, PartialEq, Eq, Structural)]
pub enum Verification {
    /// Present, and its recomputed hash equals the recorded one.
    Verified,
    /// Present, but its recomputed hash differs from the recorded one.
    Mismatch,
    /// Not present in the cache.
    Missing,
}

/// The verdict on an artifact whose recomputed hash is `recomputed` (`None` when
/// the artifact is absent) against the recorded hash `expected`.
pub open spec fn spec_classify(recomputed: Option<Seq<char>>, expected: Seq<char>) -> Verification {
    match recomputed {
        None => Verification::Missing,
        Some(h) => if h == expected {
            Verification::Verified
        } else {
            Verification::Mismatch
        },
    }
}

/// Classifies the cached artifact of `pkg`, given the hash recomputed from it, or
/// `None` when the cache does not hold it.
pub fn classify_source(pkg: &Package, recomputed: Option<String>) -> (r: Verification)
    ensures
        r == spec_classify(
            match recomputed {
                Some(h) => Some(h@),
                None => None,
            },
            pkg.source_hash@,
        ),
{
    match recomputed {
        None => Verification::Missing,
        Some(h) => if h == pkg.source_hash {
            Verification::Verified
        } else {
            Verification::Mismatch
        },
    }
}

/// `prefix` followed by `rest`.
fn joined(prefix: &str, rest: &str) -> (r: String)
    ensures
        r@ == prefix@ + rest@,
{
    let mut r = String::from_str(prefix);
    r.append(rest);
    r
}

/// The report line of one verified artifact at `path`.
pub open spec fn spec_verification_line(v: Verification, path: Seq<char>) -> Seq<char> {
    match v {
        Verification::Verified => "Ok: "@ + path,
        Verification::Mismatch => "Hash Mismatch: "@ + path,
        Verification::Missing => "Source missing: "@ + path,
    }
}

pub fn verification_line(v: Verification, path: &String) -> (r: String)
    ensures
        r@ == spec_verification_line(v, path@),
{
    match v {
        Verification::Verified => joined("Ok: ", path.as_str()),
        Verification::Mismatch => joined("Hash Mismatch: ", path.as_str()),
        Verification::Missing => joined("Source missing: ", path.as_str()),
    }
}

/// The outcome of checking the artifact of `pkg` at `path`, given the hash
/// recomputed from it (`None` when absent): the verdict, and a job outcome that
/// succeeds only on a verified artifact and carries the report line as output.
pub fn verification_outcome(pkg: &Package, path: &String, recomputed: Option<String>) -> (r: (
    Verification,
    JobOutcome,
))
    ensures
        r.0 == spec_classify(
            match recomputed {
                Some(h) => Some(h@),
                None => None,
            },
            pkg.source_hash@,
        ),
        r.1.success == (r.0 == Verification::Verified),
        r.1.stdout@ == spec_verification_line(r.0, path@),
        r.1.stderr@ == Seq::<char>::empty(),
        r.1.name@ == pkg.name@,
        r.1.version@ == pkg.version@,
{
    let v = classify_source(pkg, recomputed);
    let line = verification_line(v, path);
    let success = match v {
        Verification::Verified => true,
        _ => false,
    };
    let o = JobOutcome {
        name: pkg.name.clone(),
        version: pkg.version.clone(),
        success,
        stdout: line,
        stderr: String::new(),
    };
    (v, o)
}

/// The line `<name> <version> -> <target>` for a package.
pub open spec fn spec_package_line(p: Package, target: Seq<char>) -> Seq<char> {
    p.name@ + " "@ + p.version@ + " -> "@ + target
}

pub fn package_line(p: &Package, target: &String) -> (r: String)
    ensures
        r@ == spec_package_line(*p, target@),
{
    let mut r = p.name.clone();
    r.append(" ");
    r.append(p.version.as_str());
    r.append(" -> ");
    r.append(target.as_str());
    r
}

/// The lines for the first `n` packages whose artifact is absent, each naming the
/// path where the artifact was expected.
pub open spec fn missing_lines(
    pkgs: Seq<Package>,
    present: Seq<bool>,
    paths: Seq<String>,
    n: int,
) -> Seq<Seq<char>>
    decreases n,
{
    if n <= 0 {
        Seq::empty()
    } else if !present[n - 1] {
        missing_lines(pkgs, present, paths, n - 1).push(spec_package_line(pkgs[n - 1], paths[n - 1]@))
    } else {
        missing_lines(pkgs, present, paths, n - 1)
    }
}

/// Lists the packages whose artifact is absent from the cache: `present[i]` tells
/// whether the artifact of `pkgs[i]` exists, `paths[i]` where it is expected.
pub fn list_missing(pkgs: &Vec<Package>, present: &Vec<bool>, paths: &Vec<String>) -> (r: Vec<String>)
    requires
        present@.len() == pkgs@.len(),
        paths@.len() == pkgs@.len(),
    ensures
        r@.map_values(|s: String| s@) == missing_lines(pkgs@, present@, paths@, pkgs@.len() as int),
{
    let mut r: Vec<String> = Vec::new();
    let mut i: usize = 0;
    while i < pkgs.len()
        invariant
            0 <= i <= pkgs@.len(),
            present@.len() == pkgs@.len(),
            paths@.len() == pkgs@.len(),
            r@.map_values(|s: String| s@) == missing_lines(pkgs@, present@, paths@, i as int),
        decreases pkgs@.len() - i,
    {
        let ghost before = r@;
        if !present[i] {
            let line = package_line(&pkgs[i], &paths[i]);
            r.push(line);
            assert(r@.map_values(|s: String| s@) =~= before.map_values(|s: String| s@).push(line@));
        }
        i = i + 1;
    }
    r
}

/// Maps positions of a working set to the `<name> <version> -> <url>` lines.
pub open spec fn url_lines_of(pkgs: Seq<Package>, ws: Seq<int>) -> Seq<Seq<char>> {
    ws.map_values(|i: int| spec_package_line(pkgs[i], pkgs[i].source_url@))
}

/// The source URL line of every package that `f` selects, in repository order.
pub fn url(pkgs: &Vec<Package>, f: &PackageFilter) -> (r: Vec<String>)
    ensures
        r@.map_values(|s: String| s@) == url_lines_of(pkgs@, working_set(pkgs@, *f, pkgs@.len() as int)),
{
    let ws = filter_packages(pkgs, f);
    let ghost wsi = ws@.map_values(|i: usize| i as int);
    proof {
        lemma_working_set(pkgs@, *f, pkgs@.len() as int);
        assert forall|j: int| 0 <= j < ws@.len() implies ws@[j] < pkgs@.len() by {
            assert(wsi[j] == ws@[j] as int);
        }
    }
    let mut r: Vec<String> = Vec::new();
    let mut k: usize = 0;
    while k < ws.len()
        invariant
            0 <= k <= ws@.len(),
            wsi == ws@.map_values(|i: usize| i as int),
            wsi == working_set(pkgs@, *f, pkgs@.len() as int),
            forall|j: int| 0 <= j < ws@.len() ==> ws@[j] < pkgs@.len(),
            r@.map_values(|s: String| s@) == url_lines_of(pkgs@, wsi.subrange(0, k as int)),
        decreases ws@.len() - k,
    {
        let ghost before = r@;
        let p = &pkgs[ws[k]];
        let line = package_line(p, &p.source_url);
        r.push(line);
        assert(wsi.subrange(0, k + 1) =~= wsi.subrange(0, k as int).push(ws@[k as int] as int));
        assert(r@.map_values(|s: String| s@) =~= before.map_values(|s: String| s@).push(line@));
        k = k + 1;
    }
    assert(wsi.subrange(0, ws@.len() as int) =~= wsi);
    r
}

} // verus!
