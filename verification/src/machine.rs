//! The compile/link/invoke protocol: a state machine over the active
//! routine slot.
//!
//! Compilation is synchronous on the single thread of control, so no
//! partial result is ever observable: one call applies the external
//! compiler's outcome whole. A successful compile installs its routine
//! under a fresh version number; a failed compile discards the previously
//! active routine and surfaces the diagnostic — the stale-routine policy is
//! explicit here and stated in the contracts. Frames are bracketed so that
//! invocation is not reentrant and a compile cannot complete inside a
//! frame.

use vstd::prelude::*;

use crate::buffer::apply_writes;
use crate::buffer::first_oob;
use crate::buffer::writes_in_bounds;
use crate::buffer::SlotWrite;
use crate::buffer::StateBuffer;
use crate::errors::BoundaryError;
use crate::errors::CompilePhase;

verus! {

/// The observable states of the protocol. The compiling phase is a single
/// blocking step and is never observable between calls.
#[derive(Clone, Copy, Debug, PartialEq, Eq, Structural)]
pub enum MachineState {
    /// No successful compile yet, or the slot was cleared; frames are
    /// no-ops.
    Idle,
    /// A valid routine is active and is invoked once per frame.
    Ready,
    /// The last attempt produced a diagnostic; no routine is active.
    Failed,
}

/// A versioned reference to the native routine produced by a successful
/// compile. The version grows with every successful compile, so a holder
/// of an older handle can detect staleness.
#[derive(Clone, Copy, Debug, PartialEq, Eq, Structural)]
pub struct RoutineHandle {
    /// The native address token of the callable.
    pub addr: u64,
    /// The number of the successful compile that produced it.
    pub version: u64,
}

/// What the external compiler and linker returned for one source text.
pub enum CompileOutcome {
    /// Parse, typecheck, codegen and link all succeeded; the routine is
    /// callable at `addr`.
    Success { addr: u64 },
    /// Some phase failed with a human-readable diagnostic.
    Failure { phase: CompilePhase, diagnostic: String },
}

/// The bridge's protocol state: the active routine slot, the error
/// surface, and the state buffer that persists across recompiles.
pub struct Bridge {
    state: MachineState,
    routine: Option<RoutineHandle>,
    version: u64,
    error_text: String,
    failed_phase: Option<CompilePhase>,
    last_fault: Option<BoundaryError>,
    buffer: StateBuffer,
    in_frame: bool,
}

/// The transition a successful compile makes from `pre` to `post`: the new
/// routine is installed under the next version, the error surface is
/// cleared, and the state buffer persists unmodified.
pub open spec fn compile_success(pre: Bridge, post: Bridge, addr: u64) -> bool {
    &&& post.state() is Ready
    &&& post.routine() == Some(RoutineHandle { addr, version: (pre.version() + 1) as u64 })
    &&& post.version() == pre.version() + 1
    &&& post.error_text().len() == 0
    &&& post.failed_phase() is None
    &&& post.last_fault() is None
    &&& post.buffer_model() == pre.buffer_model()
    &&& !post.in_frame()
}

/// The transition a failed compile makes from `pre` to `post`: the
/// previously active routine is discarded (the explicit stale-routine
/// policy), the error text is exactly the failing phase's diagnostic, and
/// the state buffer persists unmodified.
pub open spec fn compile_failure(
    pre: Bridge,
    post: Bridge,
    phase: CompilePhase,
    diagnostic: Seq<char>,
) -> bool {
    &&& post.state() is Failed
    &&& post.routine() is None
    &&& post.version() == pre.version()
    &&& post.error_text() == diagnostic
    &&& post.failed_phase() == Some(phase)
    &&& post.last_fault() is None
    &&& post.buffer_model() == pre.buffer_model()
    &&& !post.in_frame()
}

impl Bridge {
    /// The observable protocol state.
    pub closed spec fn state(&self) -> MachineState {
        self.state
    }

    /// The active routine, if any.
    pub closed spec fn routine(&self) -> Option<RoutineHandle> {
        self.routine
    }

    /// How many compiles have succeeded so far.
    pub closed spec fn version(&self) -> u64 {
        self.version
    }

    /// The diagnostic of the most recent failed compile, empty otherwise.
    pub closed spec fn error_text(&self) -> Seq<char> {
        self.error_text@
    }

    /// The phase that produced the diagnostic, while in the failed state.
    pub closed spec fn failed_phase(&self) -> Option<CompilePhase> {
        self.failed_phase
    }

    /// The most recent boundary fault recorded during invocation, if any.
    pub closed spec fn last_fault(&self) -> Option<BoundaryError> {
        self.last_fault
    }

    /// The state buffer's contents.
    pub closed spec fn buffer_model(&self) -> Seq<u64> {
        self.buffer@
    }

    /// A frame's invocation window is open.
    pub closed spec fn in_frame(&self) -> bool {
        self.in_frame
    }

    /// Well-formedness: a routine is active exactly in the ready state,
    /// the active routine carries the current version, and a phase is
    /// recorded exactly in the failed state.
    pub closed spec fn wf(&self) -> bool {
        &&& (self.state is Ready <==> self.routine is Some)
        &&& (self.state is Failed <==> self.failed_phase is Some)
        &&& match self.routine {
            Some(rh) => rh.version == self.version,
            None => true,
        }
    }

    /// A fresh bridge: idle, an empty error surface, and a zeroed state
    /// buffer of the given arity.
    pub fn new(arity: usize) -> (r: Bridge)
        ensures
            r.wf(),
            r.state() is Idle,
            r.routine() is None,
            r.version() == 0,
            r.error_text().len() == 0,
            r.failed_phase() is None,
            r.last_fault() is None,
            r.buffer_model().len() == arity,
            forall|i: int| 0 <= i < arity ==> r.buffer_model()[i] == 0u64,
            !r.in_frame(),
    {
        Bridge {
            state: MachineState::Idle,
            routine: None,
            version: 0,
            error_text: String::new(),
            failed_phase: None,
            last_fault: None,
            buffer: StateBuffer::new(arity),
            in_frame: false,
        }
    }

    /// Applies the outcome of one synchronous compile attempt. A compile
    /// never completes inside a frame's invocation window: attempting to
    /// is a reported precondition violation that changes nothing, so the
    /// routine a running frame sees is unaffected by it.
    pub fn apply_compile(&mut self, outcome: CompileOutcome) -> (r: Result<(), BoundaryError>)
        requires
            old(self).wf(),
            old(self).version() < u64::MAX,
        ensures
            final(self).wf(),
            r is Ok <==> !old(self).in_frame(),
            match r {
                Ok(()) => match outcome {
                    CompileOutcome::Success { addr } => compile_success(
                        *old(self),
                        *final(self),
                        addr,
                    ),
                    CompileOutcome::Failure { phase, diagnostic } => compile_failure(
                        *old(self),
                        *final(self),
                        phase,
                        diagnostic@,
                    ),
                },
                Err(e) => e == BoundaryError::PreconditionViolation && *final(self) == *old(
                    self,
                ),
            },
    {
        if self.in_frame {
            return Err(BoundaryError::PreconditionViolation);
        }
        match outcome {
            CompileOutcome::Success { addr } => {
                let v = self.version + 1;
                self.version = v;
                self.routine = Some(RoutineHandle { addr, version: v });
                self.state = MachineState::Ready;
                self.error_text = String::new();
                self.failed_phase = None;
                self.last_fault = None;
            },
            CompileOutcome::Failure { phase, diagnostic } => {
                self.routine = None;
                self.state = MachineState::Failed;
                self.error_text = diagnostic;
                self.failed_phase = Some(phase);
                self.last_fault = None;
            },
        }
        Ok(())
    }

    /// Opens a frame's invocation window and hands back the routine to
    /// invoke: exactly the one from the most recently completed compile,
    /// or nothing while idle or failed. Invocation is not reentrant:
    /// opening a window inside a window is a reported precondition
    /// violation.
    pub fn begin_frame(&mut self) -> (r: Result<Option<RoutineHandle>, BoundaryError>)
        requires
            old(self).wf(),
        ensures
            final(self).wf(),
            r is Ok <==> !old(self).in_frame(),
            final(self).state() == old(self).state(),
            final(self).routine() == old(self).routine(),
            final(self).version() == old(self).version(),
            final(self).error_text() == old(self).error_text(),
            final(self).failed_phase() == old(self).failed_phase(),
            final(self).last_fault() == old(self).last_fault(),
            final(self).buffer_model() == old(self).buffer_model(),
            match r {
                Ok(rh) => rh == old(self).routine() && final(self).in_frame(),
                Err(e) => e == BoundaryError::PreconditionViolation && *final(self) == *old(
                    self,
                ),
            },
    {
        if self.in_frame {
            return Err(BoundaryError::PreconditionViolation);
        }
        self.in_frame = true;
        Ok(self.routine)
    }

    /// Closes the frame's invocation window; the next frame may then open
    /// its own. Closing without an open window is a reported precondition
    /// violation.
    pub fn end_frame(&mut self) -> (r: Result<(), BoundaryError>)
        requires
            old(self).wf(),
        ensures
            final(self).wf(),
            r is Ok <==> old(self).in_frame(),
            final(self).state() == old(self).state(),
            final(self).routine() == old(self).routine(),
            final(self).version() == old(self).version(),
            final(self).error_text() == old(self).error_text(),
            final(self).failed_phase() == old(self).failed_phase(),
            final(self).last_fault() == old(self).last_fault(),
            final(self).buffer_model() == old(self).buffer_model(),
            match r {
                Ok(()) => !final(self).in_frame(),
                Err(e) => e == BoundaryError::PreconditionViolation && *final(self) == *old(
                    self,
                ),
            },
    {
        if !self.in_frame {
            return Err(BoundaryError::PreconditionViolation);
        }
        self.in_frame = false;
        Ok(())
    }

    /// Applies the slot writes one invocation issued at the boundary, in
    /// order, inside an open frame. The resulting buffer is a function of
    /// the starting buffer and the transcript alone; the first write out
    /// of bounds stops the transcript and is reported, never applied.
    pub fn invoke_writes(&mut self, ws: &Vec<SlotWrite>) -> (r: Result<(), BoundaryError>)
        requires
            old(self).wf(),
        ensures
            final(self).wf(),
            final(self).state() == old(self).state(),
            final(self).routine() == old(self).routine(),
            final(self).version() == old(self).version(),
            final(self).error_text() == old(self).error_text(),
            final(self).failed_phase() == old(self).failed_phase(),
            final(self).last_fault() == old(self).last_fault(),
            final(self).in_frame() == old(self).in_frame(),
            !old(self).in_frame() ==> r == Err::<(), BoundaryError>(
                BoundaryError::PreconditionViolation,
            ) && final(self).buffer_model() == old(self).buffer_model(),
            old(self).in_frame() ==> {
                &&& final(self).buffer_model() == apply_writes(
                    old(self).buffer_model(),
                    ws@.take(first_oob(ws@, old(self).buffer_model().len() as nat)),
                )
                &&& (r is Ok <==> writes_in_bounds(ws@, old(self).buffer_model().len() as nat))
                &&& (r is Err ==> r == Err::<(), BoundaryError>(BoundaryError::BoundsError))
            },
    {
        if !self.in_frame {
            return Err(BoundaryError::PreconditionViolation);
        }
        self.buffer.apply_frame_writes(ws)
    }

    /// Reads one slot of the state buffer, as a UI control would.
    pub fn read_slot(&self, slot: usize) -> (r: Result<u64, BoundaryError>)
        ensures
            slot < self.buffer_model().len() ==> r == Ok::<u64, BoundaryError>(
                self.buffer_model()[slot as int],
            ),
            slot >= self.buffer_model().len() ==> r == Err::<u64, BoundaryError>(
                BoundaryError::BoundsError,
            ),
    {
        self.buffer.read_slot(slot)
    }

    /// Writes one slot of the state buffer, as a UI control would; an
    /// index past the arity is a reported bounds error.
    pub fn write_slot(&mut self, slot: usize, bits: u64) -> (r: Result<(), BoundaryError>)
        requires
            old(self).wf(),
        ensures
            final(self).wf(),
            final(self).state() == old(self).state(),
            final(self).routine() == old(self).routine(),
            final(self).version() == old(self).version(),
            final(self).error_text() == old(self).error_text(),
            final(self).failed_phase() == old(self).failed_phase(),
            final(self).last_fault() == old(self).last_fault(),
            final(self).in_frame() == old(self).in_frame(),
            slot < old(self).buffer_model().len() ==> r == Ok::<(), BoundaryError>(())
                && final(self).buffer_model() == old(self).buffer_model().update(
                slot as int,
                bits,
            ),
            slot >= old(self).buffer_model().len() ==> r == Err::<(), BoundaryError>(
                BoundaryError::BoundsError,
            ) && final(self).buffer_model() == old(self).buffer_model(),
    {
        self.buffer.write_slot(slot, bits)
    }

    /// Records a boundary fault detected during invocation, so a
    /// violation is reported rather than silently ignored.
    pub fn record_fault(&mut self, e: BoundaryError)
        requires
            old(self).wf(),
        ensures
            final(self).wf(),
            final(self).last_fault() == Some(e),
            final(self).state() == old(self).state(),
            final(self).routine() == old(self).routine(),
            final(self).version() == old(self).version(),
            final(self).error_text() == old(self).error_text(),
            final(self).failed_phase() == old(self).failed_phase(),
            final(self).buffer_model() == old(self).buffer_model(),
            final(self).in_frame() == old(self).in_frame(),
    {
        self.last_fault = Some(e);
    }

    /// The observable protocol state, for the host.
    pub fn current_state(&self) -> (r: MachineState)
        ensures
            r == self.state(),
    {
        self.state
    }

    /// The active routine, for the host's frame loop.
    pub fn current_routine(&self) -> (r: Option<RoutineHandle>)
        ensures
            r == self.routine(),
    {
        self.routine
    }

    /// The error surface's current text.
    pub fn current_error_text(&self) -> (r: &String)
        ensures
            r@ == self.error_text(),
    {
        &self.error_text
    }

    /// The most recent boundary fault, if any.
    pub fn current_fault(&self) -> (r: Option<BoundaryError>)
        ensures
            r == self.last_fault(),
    {
        self.last_fault
    }
}

/// Law: a failed compile returns the system to a state with no active
/// routine — the explicit stale-routine policy — with the error text equal
/// to the failing phase's diagnostic, and never touches the state buffer.
pub proof fn lemma_failed_compile_policy(
    pre: Bridge,
    post: Bridge,
    phase: CompilePhase,
    diagnostic: Seq<char>,
)
    requires
        compile_failure(pre, post, phase, diagnostic),
    ensures
        post.routine() is None,
        post.state() is Failed,
        post.error_text() == diagnostic,
        post.buffer_model() == pre.buffer_model(),
        post.version() == pre.version(),
{
}

/// Law: after two compiles succeed in order, the routine a frame sees next
/// is exactly the later compile's, and it is distinguishable from the
/// earlier one even at the same address, because its version is fresh.
pub proof fn lemma_latest_compile_wins(s0: Bridge, s1: Bridge, s2: Bridge, a1: u64, a2: u64)
    requires
        s0.version() + 2 <= u64::MAX,
        compile_success(s0, s1, a1),
        compile_success(s1, s2, a2),
    ensures
        s2.routine() == Some(RoutineHandle { addr: a2, version: (s0.version() + 2) as u64 }),
        s2.routine() != s1.routine(),
        s2.buffer_model() == s0.buffer_model(),
{
}

} // verus!
