//! The one-time start-up of the Lean runtime and of the compiled Lean model.
//!
//! The library decides; the caller performs the runtime calls that each
//! decision names and reports their results back.
use vstd::prelude::*;
use crate::object::{lean_object, lean_io_mk_world, DecRef, dec_ref_outcome, dec_outcome};

verus! {

/// Where the start-up stands.
#[derive(Clone, Copy, Debug, PartialEq, Eq, Structural)]
pub enum InitPhase {
    /// Nothing has been started yet.
    NotStarted,
    /// The runtime is being started and the model's initializer is running.
    InProgress,
    /// The runtime and the model are ready for use.
    Ready,
    /// The model's initializer reported an error; the runtime is not usable.
    Poisoned,
}

/// What a call of [`lean_initialize_once`] asks of its caller.
#[derive(Clone, Copy, Debug, PartialEq, Eq, Structural)]
pub enum InitRequest {
    /// Start the runtime, run the model's initializer with these arguments,
    /// and hand its result to [`lean_initialize_finish`].
    Start { builtin: u8, world: usize },
    /// Another start-up is under way: wait for it.
    Busy,
    /// The runtime is ready: there is nothing to do.
    AlreadyDone,
    /// An earlier start-up failed: the call fails too.
    Poisoned,
}

/// How the model's initializer ended, and how to release its result.
#[derive(Clone, Copy, Debug, PartialEq, Eq, Structural)]
pub enum InitOutcome {
    /// Success: release the result, then mark the end of initialization.
    Succeeded { release: DecRef },
    /// Failure: show the error carried by the result, release it, and fail.
    Failed { release: DecRef },
}

/// The state of the one-time start-up.
pub struct LeanInit {
    phase: InitPhase,
}

/// The phase after a call of `lean_initialize_once` in phase `p`, and what
/// that call asks of its caller.
pub open spec fn once_step(p: InitPhase) -> (InitPhase, InitRequest) {
    match p {
        InitPhase::NotStarted => (InitPhase::InProgress, InitRequest::Start { builtin: 1, world: 1 }),
        InitPhase::InProgress => (InitPhase::InProgress, InitRequest::Busy),
        InitPhase::Ready => (InitPhase::Ready, InitRequest::AlreadyDone),
        InitPhase::Poisoned => (InitPhase::Poisoned, InitRequest::Poisoned),
    }
}

/// The phase after the model's initializer returned an `IO` result whose
/// header is `result`.
pub open spec fn finish_phase(result: lean_object) -> InitPhase {
    if result.m_tag == 0 {
        InitPhase::Ready
    } else {
        InitPhase::Poisoned
    }
}

impl LeanInit {
    /// The current phase.
    pub closed spec fn phase(&self) -> InitPhase {
        self.phase
    }

    /// A start-up that has not begun.
    pub fn new() -> (r: LeanInit)
        ensures
            r.phase() == InitPhase::NotStarted,
    {
        LeanInit { phase: InitPhase::NotStarted }
    }

    /// The current phase.
    pub fn current_phase(&self) -> (p: InitPhase)
        ensures
            p == self.phase(),
    {
        self.phase
    }
}

/// Starts the Lean runtime and the model once: the first call asks its
/// caller to run the initializer (with `builtin` 1 and the `IO` world token,
/// as Lean executables do); later calls ask for nothing once the start-up
/// succeeded, and fail once it failed.
pub fn lean_initialize_once(init: &mut LeanInit) -> (r: InitRequest)
    ensures
        (final(init).phase(), r) == once_step(old(init).phase()),
{
    match init.phase {
        InitPhase::NotStarted => {
            init.phase = InitPhase::InProgress;
            InitRequest::Start { builtin: 1, world: lean_io_mk_world() }
        },
        InitPhase::InProgress => InitRequest::Busy,
        InitPhase::Ready => InitRequest::AlreadyDone,
        InitPhase::Poisoned => InitRequest::Poisoned,
    }
}

/// Ends the start-up with the result of the model's initializer: the value
/// word `result_word` and its header `result`. An `IO` result with tag zero
/// is a success: its reference is released and the runtime is ready. Any
/// other is a failure: the value is released as a possibly scalar value and
/// the start-up is poisoned.
pub fn lean_initialize_finish(init: &mut LeanInit, result_word: usize, result: &mut lean_object) -> (r: InitOutcome)
    requires
        old(init).phase() == InitPhase::InProgress,
    ensures
        final(init).phase() == finish_phase(*old(result)),
        old(result).m_tag == 0 ==> r == (InitOutcome::Succeeded { release: dec_ref_outcome(*old(result)).1 })
            && *final(result) == dec_ref_outcome(*old(result)).0,
        old(result).m_tag != 0 ==> r == (InitOutcome::Failed { release: dec_outcome(result_word, *old(result)).1 })
            && *final(result) == dec_outcome(result_word, *old(result)).0,
{
    if result.lean_io_result_is_ok() {
        let release = result.lean_dec_ref();
        init.phase = InitPhase::Ready;
        InitOutcome::Succeeded { release }
    } else {
        let release = crate::object::lean_dec(result_word, result);
        init.phase = InitPhase::Poisoned;
        InitOutcome::Failed { release }
    }
}

/// The model's initializer is asked for at most once: only a start-up that
/// has not begun hands out a start request, and no call or result ever
/// brings the start-up back to that phase.
pub proof fn lemma_initializer_runs_at_most_once(p: InitPhase, result: lean_object)
    ensures
        once_step(p).1 is Start <==> p == InitPhase::NotStarted,
        once_step(p).0 != InitPhase::NotStarted,
        finish_phase(result) != InitPhase::NotStarted,
{
}

/// Once the start-up has ended, later calls change nothing: a ready runtime
/// stays ready and asks for nothing; a failed start-up stays failed.
pub proof fn lemma_finished_start_up_is_stable(p: InitPhase)
    requires
        p == InitPhase::Ready || p == InitPhase::Poisoned,
    ensures
        once_step(p).0 == p,
        p == InitPhase::Ready ==> once_step(p).1 == InitRequest::AlreadyDone,
        p == InitPhase::Poisoned ==> once_step(p).1 == InitRequest::Poisoned,
{
}

} // verus!
