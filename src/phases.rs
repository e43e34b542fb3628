use vstd::prelude::*;

use crate::package::{contains_name, names_of, Package};

verus! {

/// The two ways a package's phases can disagree with the configured phases.
#[derive(Clone, Copy, Debug, PartialEq, Eq, Structural)]
pub enum PhaseViolation {
    /// The package declares a phase that the configuration does not list.
    NotConfigured,
    /// The configuration lists a phase that the package does not declare.
    NotDeclared,
}

/// A rejected preflight: which package, which phase, and in which direction.
#[derive(Debug)]
pub struct PreflightError {
    pub violation: PhaseViolation,
    pub phase: String,
    pub package_name: String,
    pub package_version: String,
}

/// The first element of `a` that `b` does not contain.
pub open spec fn first_not_in(a: Seq<Seq<char>>, b: Seq<Seq<char>>) -> Option<Seq<char>>
    decreases a.len(),
{
    if a.len() == 0 {
        None
    } else if !b.contains(a[0]) {
        Some(a[0])
    } else {
        first_not_in(a.drop_first(), b)
    }
}

/// The preflight verdict on declared phases `declared` against configured phases
/// `configured`: the first declared phase that is not configured, else the first
/// configured phase that is not declared, else nothing.
pub open spec fn preflight(declared: Seq<Seq<char>>, configured: Seq<Seq<char>>) -> Option<
    (PhaseViolation, Seq<char>),
> {
    match first_not_in(declared, configured) {
        Some(p) => Some((PhaseViolation::NotConfigured, p)),
        None => match first_not_in(configured, declared) {
            Some(p) => Some((PhaseViolation::NotDeclared, p)),
            None => None,
        },
    }
}

/// `first_not_in` finds nothing exactly when every element of `a` is in `b`.
pub proof fn lemma_first_not_in_none(a: Seq<Seq<char>>, b: Seq<Seq<char>>)
    ensures
        first_not_in(a, b) is None <==> (forall|x: Seq<char>| a.contains(x) ==> b.contains(x)),
        first_not_in(a, b) matches Some(p) ==> a.contains(p) && !b.contains(p),
    decreases a.len(),
{
    if a.len() > 0 {
        lemma_first_not_in_none(a.drop_first(), b);
        assert(a.contains(a[0]));
        if b.contains(a[0]) {
            assert forall|x: Seq<char>| a.contains(x) && x != a[0] implies a.drop_first().contains(x) by {
                let k = choose|k: int| 0 <= k < a.len() && a[k] == x;
                assert(a.drop_first()[k - 1] == x);
            }
            assert forall|x: Seq<char>| a.drop_first().contains(x) implies a.contains(x) by {
                let k = choose|k: int| 0 <= k < a.len() - 1 && a.drop_first()[k] == x;
                assert(a[k + 1] == x);
            }
        }
    }
}

/// The position of the first name in `a` that `b` does not hold.
fn find_first_not_in(a: &[String], b: &[String]) -> (r: Option<usize>)
    ensures
        match r {
            Some(i) => i < a@.len() && first_not_in(names_of(a@), names_of(b@)) == Some(
                a@[i as int]@,
            ),
            None => first_not_in(names_of(a@), names_of(b@)) is None,
        },
{
    let ghost na = names_of(a@);
    let ghost nb = names_of(b@);
    let mut i: usize = 0;
    assert(na.subrange(0, na.len() as int) =~= na);
    while i < a.len()
        invariant
            0 <= i <= a@.len(),
            na == names_of(a@),
            nb == names_of(b@),
            first_not_in(na, nb) == first_not_in(na.subrange(i as int, na.len() as int), nb),
        decreases a@.len() - i,
    {
        let ghost rest = na.subrange(i as int, na.len() as int);
        assert(rest[0] == a@[i as int]@);
        if !contains_name(b, &a[i]) {
            return Some(i);
        }
        assert(rest.drop_first() =~= na.subrange(i + 1, na.len() as int));
        i = i + 1;
    }
    assert(na.subrange(i as int, na.len() as int).len() == 0);
    None
}

/// Checks that the phases `pkg` declares and the configured phases agree as sets.
/// A declared phase that is not configured is reported first; only when there is
/// none is a configured phase that is not declared reported.
pub fn all_phases_available(pkg: &Package, available_phases: &[String]) -> (r: Result<
    (),
    PreflightError,
>)
    ensures
        match r {
            Ok(()) => preflight(pkg.phase_names(), names_of(available_phases@)) is None,
            Err(e) => preflight(pkg.phase_names(), names_of(available_phases@)) == Some(
                (e.violation, e.phase@),
            ) && e.package_name@ == pkg.name@ && e.package_version@ == pkg.version@,
        },
{
    let declared = pkg.phases.as_slice();
    match find_first_not_in(declared, available_phases) {
        Some(i) => {
            return Err(
                PreflightError {
                    violation: PhaseViolation::NotConfigured,
                    phase: declared[i].clone(),
                    package_name: pkg.name.clone(),
                    package_version: pkg.version.clone(),
                },
            );
        },
        None => {},
    }
    match find_first_not_in(available_phases, declared) {
        Some(j) => Err(
            PreflightError {
                violation: PhaseViolation::NotDeclared,
                phase: available_phases[j].clone(),
                package_name: pkg.name.clone(),
                package_version: pkg.version.clone(),
            },
        ),
        None => Ok(()),
    }
}

/// When the declared and configured phase sets differ, the preflight rejects the
/// package; and whenever some declared phase is not configured, the violation it
/// reports is of that kind, so a missing declaration is reported only when every
/// declared phase is configured.
pub proof fn lemma_preflight_rejects_differing_sets(
    declared: Seq<Seq<char>>,
    configured: Seq<Seq<char>>,
)
    requires
        declared.to_set() != configured.to_set(),
    ensures
        preflight(declared, configured) is Some,
        (exists|x: Seq<char>| declared.contains(x) && !configured.contains(x)) ==> preflight(
            declared,
            configured,
        ).unwrap().0 == PhaseViolation::NotConfigured,
        preflight(declared, configured).unwrap().0 == PhaseViolation::NotDeclared ==> (forall|
            x: Seq<char>,
        | declared.contains(x) ==> configured.contains(x)),
{
    lemma_first_not_in_none(declared, configured);
    lemma_first_not_in_none(configured, declared);
    if preflight(declared, configured) is None {
        assert(declared.to_set() =~= configured.to_set());
    }
}

} // verus!
