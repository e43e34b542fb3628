use vstd::prelude::*;
use vstd::string::*;

use crate::batch::JobOutcome;
use crate::package::Package;
use crate::phases::{all_phases_available, preflight, PhaseViolation, PreflightError};
use crate::package::names_of;

verus! {

/// The text that reports a phase violation of the package `name` at `version`.
pub open spec fn violation_message(
    violation: PhaseViolation,
    phase: Seq<char>,
    name: Seq<char>,
    version: Seq<char>,
) -> Seq<char> {
    match violation {
        PhaseViolation::NotConfigured => "Phase '"@ + phase + "' available in "@ + name + " "@
            + version + ", but not in config"@,
        PhaseViolation::NotDeclared => "Phase '"@ + phase + "' not configured in "@ + name + " "@
            + version,
    }
}

impl PreflightError {
    /// The text of the rejection.
    pub open spec fn spec_message(&self) -> Seq<char> {
        violation_message(self.violation, self.phase@, self.package_name@, self.package_version@)
    }

    pub fn message(&self) -> (r: String)
        ensures
            r@ == self.spec_message(),
    {
        let mut r = String::from_str("Phase '");
        r.append(self.phase.as_str());
        match self.violation {
            PhaseViolation::NotConfigured => {
                r.append("' available in ");
                r.append(self.package_name.as_str());
                r.append(" ");
                r.append(self.package_version.as_str());
                r.append(", but not in config");
            },
            PhaseViolation::NotDeclared => {
                r.append("' not configured in ");
                r.append(self.package_name.as_str());
                r.append(" ");
                r.append(self.package_version.as_str());
            },
        }
        r
    }
}

impl JobOutcome {
    /// The outcome of a package whose job ran and exited, successfully or not.
    pub fn exited(pkg: &Package, success: bool, stdout: String, stderr: String) -> (r: JobOutcome)
        ensures
            r.name@ == pkg.name@,
            r.version@ == pkg.version@,
            r.success == success,
            r.stdout@ == stdout@,
            r.stderr@ == stderr@,
    {
        JobOutcome { name: pkg.name.clone(), version: pkg.version.clone(), success, stdout, stderr }
    }

    /// The outcome of a package rejected by its preflight: a failure, with the
    /// rejection as its error text.
    pub fn rejected(e: &PreflightError) -> (r: JobOutcome)
        ensures
            r.name@ == e.package_name@,
            r.version@ == e.package_version@,
            !r.success,
            r.stdout@ == Seq::<char>::empty(),
            r.stderr@ == e.spec_message(),
    {
        JobOutcome {
            name: e.package_name.clone(),
            version: e.package_version.clone(),
            success: false,
            stdout: String::new(),
            stderr: e.message(),
        }
    }
}

/// The first step of one package's lint job: whether its script is to be run, or
/// the job has already ended with a failed outcome because the preflight rejected it.
pub enum LintStep {
    Execute,
    Done(JobOutcome),
}

/// Runs the preflight of `pkg` against the configured phases, and decides the
/// first step of its lint job. A rejection is this package's failure alone.
pub fn start_lint_job(pkg: &Package, available_phases: &[String]) -> (r: LintStep)
    ensures
        match r {
            LintStep::Execute => preflight(pkg.phase_names(), names_of(available_phases@)) is None,
            LintStep::Done(o) => {
                &&& preflight(pkg.phase_names(), names_of(available_phases@)) matches Some(
                    (v, phase),
                ) && o.stderr@ == violation_message(v, phase, pkg.name@, pkg.version@)
                &&& !o.success
                &&& o.name@ == pkg.name@
                &&& o.version@ == pkg.version@
            },
        },
{
    match all_phases_available(pkg, available_phases) {
        Ok(()) => LintStep::Execute,
        Err(e) => LintStep::Done(JobOutcome::rejected(&e)),
    }
}

} // verus!
