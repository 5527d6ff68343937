//! What a client is told after each request: the diagnostics that have come
//! up since it was last told anything.

use crate::diagnostic::{views, Diagnostic, DiagnosticView};
use crate::error::Error;
use crate::warning::Warning;
use vstd::prelude::*;

verus! {

/// The diagnostics to show, in order, and the files of the modules that were
/// compiled again, whose earlier diagnostics no longer hold.
#[derive(Debug, Clone, Default, PartialEq, Eq)]
pub struct Feedback {
    pub diagnostics: Vec<Diagnostic>,
    pub compiled: Vec<String>,
}

/// What the diagnostics of a run of warnings say, one for each warning, in
/// the order of the warnings.
pub open spec fn warned(warnings: Seq<Warning>) -> Seq<DiagnosticView> {
    warnings.map_values(|w: Warning| w.diagnostic())
}

/// What the diagnostics of a feedback say: that of the error first, if a
/// request failed, then those of the warnings.
pub open spec fn reported(error: Option<Error>, warnings: Seq<Warning>) -> Seq<DiagnosticView> {
    match error {
        Some(error) => seq![error.diagnostic()] + warned(warnings),
        None => warned(warnings),
    }
}

/// Turns what has come up since the last feedback into the next one.
#[derive(Debug, Clone, Copy, Default)]
pub struct FeedbackBookKeeper;

impl FeedbackBookKeeper {
    /// The feedback after a request that went well.
    pub fn diagnostics(&self, compiled: Vec<String>, warnings: Vec<Warning>) -> (feedback: Feedback)
        ensures
            feedback.compiled == compiled,
            views(feedback.diagnostics@) == reported(None, warnings@),
    {
        let mut feedback = Feedback { diagnostics: Vec::new(), compiled };
        assert(views(feedback.diagnostics@) =~= Seq::<DiagnosticView>::empty());
        append_warnings(&mut feedback, &warnings);
        assert(Seq::<DiagnosticView>::empty() + warned(warnings@) =~= warned(warnings@));
        feedback
    }

    /// The feedback after a request that failed with `error`.
    pub fn diagnostics_with_error(
        &self,
        error: Error,
        compiled: Vec<String>,
        warnings: Vec<Warning>,
    ) -> (feedback: Feedback)
        ensures
            feedback.compiled == compiled,
            views(feedback.diagnostics@) == reported(Some(error), warnings@),
    {
        let mut diagnostics: Vec<Diagnostic> = Vec::new();
        diagnostics.push(error.to_diagnostic());
        let mut feedback = Feedback { diagnostics, compiled };
        assert(views(feedback.diagnostics@) =~= seq![error.diagnostic()]);
        append_warnings(&mut feedback, &warnings);
        feedback
    }
}

fn append_warnings(feedback: &mut Feedback, warnings: &Vec<Warning>)
    ensures
        final(feedback).compiled == old(feedback).compiled,
        views(final(feedback).diagnostics@) == views(old(feedback).diagnostics@) + warned(warnings@),
{
    let ghost before = views(feedback.diagnostics@);
    let mut i: usize = 0;
    assert(warned(warnings@.take(0)) =~= Seq::<DiagnosticView>::empty());
    assert(before + Seq::<DiagnosticView>::empty() =~= before);
    while i < warnings.len()
        invariant
            i <= warnings@.len(),
            feedback.compiled == old(feedback).compiled,
            before == views(old(feedback).diagnostics@),
            views(feedback.diagnostics@) == before + warned(warnings@.take(i as int)),
        decreases warnings@.len() - i,
    {
        let ghost shown = feedback.diagnostics@;
        let diagnostic = warnings[i].to_diagnostic();
        feedback.diagnostics.push(diagnostic);
        proof {
            assert(views(feedback.diagnostics@) =~= views(shown).push(diagnostic@));
            assert(warned(warnings@.take(i + 1)) =~= warned(warnings@.take(i as int)).push(
                warnings@[i as int].diagnostic(),
            ));
            assert(before + warned(warnings@.take(i + 1)) =~= (before + warned(
                warnings@.take(i as int),
            )).push(warnings@[i as int].diagnostic()));
        }
        i += 1;
    }
    assert(warnings@.take(warnings@.len() as int) =~= warnings@);
}

} // verus!
