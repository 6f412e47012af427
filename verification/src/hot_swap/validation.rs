//! The validation pipeline: five probes of a staged candidate, and the report
//! that their outcomes make.
//!
//! Three probes are blocking (compatibility, security, test vectors): the
//! failure of one is an error and the candidate does not pass. Two are
//! advisory (performance, memory): the failure of one is a warning.

use vstd::prelude::*;

verus! {

/// A performance score below this many basis points draws a warning.
pub const PERFORMANCE_THRESHOLD: u32 = 8_000;

/// What the five probes of a candidate found, in the order in which the
/// pipeline reads them. The performance score is in basis points.
#[derive(Debug, Clone, Copy, PartialEq, Eq, Structural)]
pub struct ProbeOutcomes {
    pub compatibility: bool,
    pub performance: u32,
    pub security: bool,
    pub test_vectors: bool,
    pub memory: bool,
}

/// The report of one staging attempt.
#[derive(Debug)]
pub struct ValidationResults {
    pub compatibility_check: bool,
    pub performance_benchmark: u32,
    pub security_validation: bool,
    pub test_vectors_passed: bool,
    pub memory_requirements_met: bool,
    pub errors: Vec<String>,
    pub warnings: Vec<String>,
}

/// The mathematical content of a [`ValidationResults`].
pub struct ValidationResultsView {
    pub compatibility_check: bool,
    pub performance_benchmark: u32,
    pub security_validation: bool,
    pub test_vectors_passed: bool,
    pub memory_requirements_met: bool,
    pub errors: Seq<Seq<char>>,
    pub warnings: Seq<Seq<char>>,
}

/// The texts that a list of strings holds.
pub open spec fn texts(list: Seq<String>) -> Seq<Seq<char>> {
    list.map_values(|s: String| s@)
}

impl View for ValidationResults {
    type V = ValidationResultsView;

    open spec fn view(&self) -> ValidationResultsView {
        ValidationResultsView {
            compatibility_check: self.compatibility_check,
            performance_benchmark: self.performance_benchmark,
            security_validation: self.security_validation,
            test_vectors_passed: self.test_vectors_passed,
            memory_requirements_met: self.memory_requirements_met,
            errors: texts(self.errors@),
            warnings: texts(self.warnings@),
        }
    }
}

impl ValidationResultsView {
    /// The candidate passed: every blocking check holds and no error was
    /// noted.
    pub open spec fn is_successful(self) -> bool {
        self.compatibility_check && self.security_validation && self.test_vectors_passed
            && self.errors.len() == 0
    }
}

/// The note that a check leaves: its text if it failed, nothing if it passed.
pub open spec fn noted(failed: bool, text: Seq<char>) -> Seq<Seq<char>> {
    if failed {
        seq![text]
    } else {
        seq![]
    }
}

/// The report that the pipeline makes of `outcomes`.
pub open spec fn validation_report(outcomes: ProbeOutcomes) -> ValidationResultsView {
    ValidationResultsView {
        compatibility_check: outcomes.compatibility,
        performance_benchmark: outcomes.performance,
        security_validation: outcomes.security,
        test_vectors_passed: outcomes.test_vectors,
        memory_requirements_met: outcomes.memory,
        errors: noted(!outcomes.compatibility, "Compatibility check failed"@) + noted(
            !outcomes.security,
            "Security validation failed"@,
        ) + noted(!outcomes.test_vectors, "Test vectors failed"@),
        warnings: noted(
            outcomes.performance < PERFORMANCE_THRESHOLD,
            "Performance below expected threshold"@,
        ) + noted(!outcomes.memory, "High memory usage detected"@),
    }
}

/// Appends `text` to `list` if `failed`.
fn note(list: &mut Vec<String>, failed: bool, text: &str)
    ensures
        texts(final(list)@) == texts(old(list)@) + noted(failed, text@),
{
    if failed {
        list.push(text.to_string());
        assert(texts(list@) =~= texts(old(list)@) + noted(failed, text@));
    } else {
        assert(texts(list@) =~= texts(old(list)@) + noted(failed, text@));
    }
}

/// Reads the outcomes of the five probes in their fixed order and makes the
/// report: a failed blocking check is noted as an error, a failed advisory
/// check as a warning.
pub fn validate(outcomes: &ProbeOutcomes) -> (report: ValidationResults)
    ensures
        report@ == validation_report(*outcomes),
{
    let mut errors: Vec<String> = Vec::new();
    let mut warnings: Vec<String> = Vec::new();
    assert(texts(errors@) =~= Seq::empty());
    assert(texts(warnings@) =~= Seq::empty());
    note(&mut errors, !outcomes.compatibility, "Compatibility check failed");
    note(
        &mut warnings,
        outcomes.performance < PERFORMANCE_THRESHOLD,
        "Performance below expected threshold",
    );
    note(&mut errors, !outcomes.security, "Security validation failed");
    note(&mut errors, !outcomes.test_vectors, "Test vectors failed");
    note(&mut warnings, !outcomes.memory, "High memory usage detected");
    let report = ValidationResults {
        compatibility_check: outcomes.compatibility,
        performance_benchmark: outcomes.performance,
        security_validation: outcomes.security,
        test_vectors_passed: outcomes.test_vectors,
        memory_requirements_met: outcomes.memory,
        errors,
        warnings,
    };
    assert(report@.errors =~= validation_report(*outcomes).errors);
    assert(report@.warnings =~= validation_report(*outcomes).warnings);
    report
}

/// Tells whether a report lets its candidate pass.
pub fn is_validation_successful(results: &ValidationResults) -> (r: bool)
    ensures
        r == results@.is_successful(),
{
    results.compatibility_check && results.security_validation && results.test_vectors_passed
        && results.errors.len() == 0
}

/// A copy of a list of strings.
fn copy_texts(list: &Vec<String>) -> (copy: Vec<String>)
    ensures
        texts(copy@) == texts(list@),
{
    let mut copy: Vec<String> = Vec::new();
    let mut i: usize = 0;
    while i < list.len()
        invariant
            i <= list.len(),
            copy@.len() == i,
            forall|j: int| 0 <= j < i ==> copy@[j]@ == list@[j]@,
        decreases list.len() - i,
    {
        copy.push(list[i].clone());
        i += 1;
    }
    assert(texts(copy@) =~= texts(list@));
    copy
}

impl Clone for ValidationResults {
    fn clone(&self) -> (copy: Self)
        ensures
            copy@ == self@,
    {
        ValidationResults {
            compatibility_check: self.compatibility_check,
            performance_benchmark: self.performance_benchmark,
            security_validation: self.security_validation,
            test_vectors_passed: self.test_vectors_passed,
            memory_requirements_met: self.memory_requirements_met,
            errors: copy_texts(&self.errors),
            warnings: copy_texts(&self.warnings),
        }
    }
}

/// A report passes exactly if the three blocking checks passed. What the
/// advisory checks found changes the warnings and nothing else: with any
/// other performance score and memory finding the errors are the same, and
/// the candidate passes or fails as before.
pub proof fn lemma_success_is_blocking_checks(
    outcomes: ProbeOutcomes,
    performance: u32,
    memory: bool,
)
    ensures
        validation_report(outcomes).is_successful() <==> (outcomes.compatibility
            && outcomes.security && outcomes.test_vectors),
        validation_report(ProbeOutcomes { performance, memory, ..outcomes }).errors
            == validation_report(outcomes).errors,
        validation_report(ProbeOutcomes { performance, memory, ..outcomes }).is_successful()
            == validation_report(outcomes).is_successful(),
{
}

} // verus!
