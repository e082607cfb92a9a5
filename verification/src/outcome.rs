//! Termination outcomes: the error a module reports, the classification of
//! the first stop the supervisor observes, and the supervisor's own errors.

use vstd::prelude::*;

verus! {

/// A descriptive failure reported by a module's `run`.
#[derive(Debug)]
pub struct ModuleError {
    pub detail: String,
}

/// What a module posts on its result channel when it finishes.
pub type ModuleResult = Result<(), ModuleError>;

/// How the first observed termination is classified: a module that returned
/// success stopped gracefully; one that returned an error stopped
/// unexpectedly, and the error's detail is kept.
#[derive(Debug)]
pub enum StopClass {
    Graceful,
    Unexpected { detail: String },
}

/// The first termination the supervisor observed: which module stopped and
/// how its outcome was classified.
#[derive(Debug)]
pub struct StopEvent {
    pub module: String,
    pub class: StopClass,
}

/// Errors of the supervisor itself. A module's own failure is never one of
/// these: it is absorbed into a recorded `StopEvent`.
#[derive(Debug)]
pub enum WaitError {
    /// `wait` was called again after the cancellation controller was
    /// already consumed by an earlier call.
    ControllerAlreadyTaken,
    /// A ready select operation could not be mapped back to a registration:
    /// a defect in the supervisor's own bookkeeping.
    UnknownSelectIndex { index: usize },
    /// The selected module's result channel closed without a value ever
    /// being posted: its execution died before reaching the post.
    ReceiveFailed { module: String },
}

/// The classification a result earns: success is a graceful stop, a reported
/// error is an unexpected stop carrying the error's detail.
pub open spec fn classify_spec(module: String, res: ModuleResult) -> StopEvent {
    StopEvent {
        module: module,
        class: match res {
            Ok(_) => StopClass::Graceful,
            Err(e) => StopClass::Unexpected { detail: e.detail },
        },
    }
}

/// Law: a module that returns success earns a graceful-stop classification;
/// one that returns an error earns an unexpected-stop classification
/// carrying that error's detail; and the classification always names the
/// module it is about.
pub proof fn lemma_classification_is_exact(module: String, res: ModuleResult)
    ensures
        classify_spec(module, res).module == module,
        res is Ok ==> classify_spec(module, res).class is Graceful,
        res matches Err(e) ==> classify_spec(module, res).class == (StopClass::Unexpected {
            detail: e.detail,
        }),
{
}

/// Classifies one module's posted result, exactly as `classify_spec` says.
pub fn classify(module: String, res: ModuleResult) -> (ev: StopEvent)
    ensures
        ev == classify_spec(module, res),
{
    match res {
        Ok(_) => StopEvent { module, class: StopClass::Graceful },
        Err(e) => StopEvent { module, class: StopClass::Unexpected { detail: e.detail } },
    }
}

} // verus!
