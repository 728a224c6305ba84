//! What was compiled since the client was last told.
//!
//! Every response reports whether a compilation ran since the response before
//! it and which modules it compiled. Reporting empties the record, so that a
//! compilation is reported once.

use camino::Utf8PathBuf;
use vstd::prelude::*;

verus! {

/// `camino::Utf8PathBuf`: a path that is valid UTF-8. The library carries
/// such paths and never looks into them.
#[verifier::external_type_specification]
#[verifier::external_body]
pub struct ExUtf8PathBuf(Utf8PathBuf);

/// Whether a compilation ran, as a response reports it.
#[derive(Debug, PartialEq, Eq)]
pub enum Compilation {
    /// A compilation ran; these modules were compiled.
    Yes(Vec<Utf8PathBuf>),
    /// No compilation ran.
    No,
}

impl Compilation {
    /// Whether a compilation ran, and the modules that were compiled.
    pub open spec fn report(self) -> (bool, Seq<Utf8PathBuf>) {
        match self {
            Compilation::Yes(modules) => (true, modules@),
            Compilation::No => (false, Seq::empty()),
        }
    }
}

/// The record of the compilations that no response has reported yet.
#[derive(Debug, PartialEq, Eq)]
pub struct CompilationFeedback {
    pub modules: Vec<Utf8PathBuf>,
    pub compiled: bool,
}

/// What a response reports for a record: the modules, if a compilation ran.
pub open spec fn reported(compiled: bool, modules: Seq<Utf8PathBuf>) -> (bool, Seq<Utf8PathBuf>) {
    if compiled {
        (true, modules)
    } else {
        (false, Seq::empty())
    }
}

impl CompilationFeedback {
    /// The record before any compilation.
    pub fn new() -> (feedback: CompilationFeedback)
        ensures
            !feedback.compiled,
            feedback.modules@ == Seq::<Utf8PathBuf>::empty(),
    {
        CompilationFeedback { modules: Vec::new(), compiled: false }
    }

    /// Notes that a compilation ran and compiled `modules`.
    pub fn record(&mut self, modules: Vec<Utf8PathBuf>)
        ensures
            final(self).compiled,
            final(self).modules@ == old(self).modules@ + modules@,
    {
        let mut modules = modules;
        self.compiled = true;
        self.modules.append(&mut modules);
    }

    /// Hands out what is to be reported and empties the record.
    pub fn drain_feedback(&mut self) -> (compilation: Compilation)
        ensures
            compilation.report() == reported(old(self).compiled, old(self).modules@),
            compilation is Yes == old(self).compiled,
            !final(self).compiled,
            final(self).modules@ == Seq::<Utf8PathBuf>::empty(),
    {
        let mut modules: Vec<Utf8PathBuf> = Vec::new();
        std::mem::swap(&mut self.modules, &mut modules);
        if self.compiled {
            self.compiled = false;
            Compilation::Yes(modules)
        } else {
            Compilation::No
        }
    }
}

/// Reporting twice in a row, with no compilation in between, reports nothing
/// the second time: a report leaves the record empty, and the report made of
/// an empty record says that no compilation ran and names no module.
pub proof fn lemma_second_drain_reports_nothing()
    ensures
        reported(false, Seq::empty()) == (false, Seq::<Utf8PathBuf>::empty()),
{
}

} // verus!
