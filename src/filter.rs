use vstd::prelude::*;
use vstd::string::*;

use crate::package::Package;

verus! {

/// A version constraint of the form `=<version>`: matches exactly that version.
#[derive(Debug)]
pub struct VersionConstraint {
    version: String,
}

/// A version constraint whose text could not be read.
#[derive(Debug)]
pub struct FilterError {
    pub input: String,
}

/// Whether `text` is a well-formed constraint: `=` followed by a non-empty version.
pub open spec fn is_constraint_text(text: Seq<char>) -> bool {
    text.len() >= 2 && text[0] == '='
}

impl VersionConstraint {
    /// The exact version this constraint accepts.
    pub closed spec fn spec_version(&self) -> Seq<char> {
        self.version@
    }

    pub open spec fn spec_matches(&self, v: Seq<char>) -> bool {
        v == self.spec_version()
    }

    /// Reads a constraint such as `=1.0`.
    pub fn new(text: String) -> (r: Result<VersionConstraint, FilterError>)
        ensures
            match r {
                Ok(c) => is_constraint_text(text@) && c.spec_version() == text@.drop_first(),
                Err(e) => !is_constraint_text(text@) && e.input@ == text@,
            },
    {
        let s = text.as_str();
        let n = s.unicode_len();
        if n >= 2 && s.get_char(0) == '=' {
            let rest = s.substring_char(1, n);
            assert(rest@ =~= text@.drop_first());
            Ok(VersionConstraint { version: rest.to_owned() })
        } else {
            Err(FilterError { input: text })
        }
    }

    pub fn matches(&self, v: &String) -> (r: bool)
        ensures
            r == self.spec_matches(v@),
    {
        *v == self.version
    }
}

/// The active predicates of a working set; an absent predicate accepts everything.
#[derive(Debug)]
pub struct PackageFilter {
    pub name: Option<String>,
    pub version: Option<VersionConstraint>,
}

impl PackageFilter {
    /// The name predicate alone.
    pub open spec fn name_ok(&self, p: Package) -> bool {
        match self.name {
            Some(n) => p.name@ == n@,
            None => true,
        }
    }

    /// The version predicate alone.
    pub open spec fn version_ok(&self, p: Package) -> bool {
        match self.version {
            Some(c) => c.spec_matches(p.version@),
            None => true,
        }
    }

    /// A package is selected when every active predicate holds of it.
    pub open spec fn spec_matches(&self, p: Package) -> bool {
        self.name_ok(p) && self.version_ok(p)
    }

    pub fn matches(&self, p: &Package) -> (r: bool)
        ensures
            r == self.spec_matches(*p),
    {
        let name_ok = match &self.name {
            Some(n) => p.name == *n,
            None => true,
        };
        let version_ok = match &self.version {
            Some(c) => c.matches(&p.version),
            None => true,
        };
        name_ok && version_ok
    }
}

/// Positions, in order, of the first `n` packages of `pkgs` that `f` selects.
pub open spec fn working_set(pkgs: Seq<Package>, f: PackageFilter, n: int) -> Seq<int>
    decreases n,
{
    if n <= 0 {
        Seq::empty()
    } else if f.spec_matches(pkgs[n - 1]) {
        working_set(pkgs, f, n - 1).push(n - 1)
    } else {
        working_set(pkgs, f, n - 1)
    }
}

/// The positions of the packages that `f` selects, in repository order.
pub fn filter_packages(pkgs: &Vec<Package>, f: &PackageFilter) -> (r: Vec<usize>)
    ensures
        r@.map_values(|i: usize| i as int) == working_set(pkgs@, *f, pkgs@.len() as int),
{
    let mut r: Vec<usize> = Vec::new();
    let mut i: usize = 0;
    while i < pkgs.len()
        invariant
            0 <= i <= pkgs@.len(),
            r@.map_values(|i: usize| i as int) == working_set(pkgs@, *f, i as int),
        decreases pkgs@.len() - i,
    {
        let ghost before = r@;
        if f.matches(&pkgs[i]) {
            r.push(i);
            assert(r@.map_values(|i: usize| i as int) =~= before.map_values(|i: usize| i as int).push(
                i as int,
            ));
        }
        i = i + 1;
    }
    r
}

/// The versions of the packages named `name`, in repository order.
pub open spec fn versions_named(pkgs: Seq<Package>, name: Seq<char>, n: int) -> Seq<Seq<char>>
    decreases n,
{
    if n <= 0 {
        Seq::empty()
    } else if pkgs[n - 1].name@ == name {
        versions_named(pkgs, name, n - 1).push(pkgs[n - 1].version@)
    } else {
        versions_named(pkgs, name, n - 1)
    }
}

/// Lists the version of every package called `name`.
pub fn versions_of(pkgs: &Vec<Package>, name: &String) -> (r: Vec<String>)
    ensures
        r@.map_values(|s: String| s@) == versions_named(pkgs@, name@, pkgs@.len() as int),
{
    let mut r: Vec<String> = Vec::new();
    let mut i: usize = 0;
    while i < pkgs.len()
        invariant
            0 <= i <= pkgs@.len(),
            r@.map_values(|s: String| s@) == versions_named(pkgs@, name@, i as int),
        decreases pkgs@.len() - i,
    {
        let ghost before = r@;
        if pkgs[i].name == *name {
            let v = pkgs[i].version.clone();
            r.push(v);
            assert(r@.map_values(|s: String| s@) =~= before.map_values(|s: String| s@).push(v@));
        }
        i = i + 1;
    }
    r
}

/// A working set lists each selected package once, in repository order, and
/// nothing else: with a name predicate only packages of that name, with a version
/// constraint exactly the packages of that version, and with both, those that
/// satisfy both.
pub proof fn lemma_working_set(pkgs: Seq<Package>, f: PackageFilter, n: int)
    requires
        0 <= n <= pkgs.len(),
    ensures
        forall|k: int|
            0 <= k < working_set(pkgs, f, n).len() ==> {
                let i = #[trigger] working_set(pkgs, f, n)[k];
                &&& 0 <= i < n
                &&& f.name matches Some(name) ==> pkgs[i].name@ == name@
                &&& f.version matches Some(c) ==> pkgs[i].version@ == c.spec_version()
            },
        forall|i: int|
            0 <= i < n ==> (working_set(pkgs, f, n).contains(i) <==> (f.name_ok(pkgs[i])
                && f.version_ok(pkgs[i]))),
        forall|k1: int, k2: int|
            0 <= k1 < k2 < working_set(pkgs, f, n).len() ==> working_set(pkgs, f, n)[k1]
                < working_set(pkgs, f, n)[k2],
    decreases n,
{
    if n > 0 {
        lemma_working_set(pkgs, f, n - 1);
        let prev = working_set(pkgs, f, n - 1);
        let cur = working_set(pkgs, f, n);
        if f.spec_matches(pkgs[n - 1]) {
            assert forall|i: int| 0 <= i < n implies (cur.contains(i) <==> f.spec_matches(pkgs[i])) by {
                if i < n - 1 {
                    if cur.contains(i) {
                        let k = choose|k: int| 0 <= k < cur.len() && cur[k] == i;
                        assert(k < prev.len());
                        assert(prev[k] == i);
                    }
                    if prev.contains(i) {
                        let k = choose|k: int| 0 <= k < prev.len() && prev[k] == i;
                        assert(cur[k] == i);
                    }
                } else {
                    assert(cur[cur.len() - 1] == i);
                }
            }
        } else {
            assert forall|i: int| 0 <= i < n implies (cur.contains(i) <==> f.spec_matches(pkgs[i])) by {
                if i == n - 1 && cur.contains(i) {
                    let k = choose|k: int| 0 <= k < cur.len() && cur[k] == i;
                    assert(prev[k] < n - 1);
                }
            }
        }
    }
}

} // verus!
