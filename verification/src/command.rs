//! Command recording: encoder setup and the recording state machine.
//!
//! An encoder is created by three native calls in sequence — create a
//! command pool, allocate one primary command buffer from it, begin
//! recording with a one-time-submit hint. The setup state machine
//! below drives the shell through those calls and decides the cleanup:
//! when a later step fails, the pool that already exists is ordered
//! destroyed in the same step, so a failed setup never leaks a native
//! handle.
//!
//! A live encoder is always recording. `begin_render_pass` lends the
//! encoder out as a render-pass scope that borrows it exclusively, so
//! at most one scope is alive at a time and none can outlive the
//! encoder. `finish` consumes the encoder and yields the recorded
//! command-buffer handle.
use vstd::prelude::*;

use crate::device::Device;
use crate::Error;
use crate::NativeOp;
use crate::RHICommandEncoderRenderPass;
use crate::RHIRenderPassDescriptor;

verus! {

/// Where encoder setup stands: which native call comes next, or how
/// it ended.
#[derive(Clone, Copy, Debug, PartialEq, Eq, Structural)]
pub enum EncoderSetup {
    /// Nothing created yet; the pool comes first.
    NeedPool,
    /// The pool exists; a command buffer must be allocated from it.
    NeedBuffer { pool: u64 },
    /// Pool and buffer exist; recording must be begun on the buffer.
    NeedBegin { pool: u64, buffer: u64 },
    /// Setup is complete.
    Ready { pool: u64, buffer: u64 },
    /// Setup failed; everything it had created is already ordered
    /// destroyed.
    Aborted { error: Error },
}

/// The native call the shell must perform next for encoder setup.
#[derive(Clone, Copy, Debug, PartialEq, Eq, Structural)]
pub enum EncoderSetupAction {
    /// Create a command pool for the given queue family, with no
    /// pool flags.
    CreatePool { queue_family: u32 },
    /// Allocate one primary command buffer from the pool.
    AllocateBuffer { pool: u64 },
    /// Begin recording on the buffer with a one-time-submit hint.
    BeginBuffer { buffer: u64 },
    /// Destroy the pool (releasing its buffers with it): the cleanup
    /// a failed setup owes before reporting its error.
    DestroyPool { pool: u64 },
    /// Nothing left to perform.
    Idle,
}

/// Outcome of one native setup call: the handle it created, or the
/// failure code. Beginning a buffer creates no handle; its success
/// carries the buffer handle back unchanged.
#[derive(Clone, Copy, Debug, PartialEq, Eq, Structural)]
pub enum SetupOutcome {
    Succeeded { handle: u64 },
    Failed { code: i32 },
}

/// The pool handle a setup state has created so far, if any.
pub open spec fn setup_pool(s: EncoderSetup) -> Option<u64> {
    match s {
        EncoderSetup::NeedPool => None,
        EncoderSetup::NeedBuffer { pool } => Some(pool),
        EncoderSetup::NeedBegin { pool, .. } => Some(pool),
        EncoderSetup::Ready { pool, .. } => Some(pool),
        EncoderSetup::Aborted { .. } => None,
    }
}

/// One transition of the setup machine: from the state and the
/// outcome of the call it was waiting for, the next state and the
/// next action. Terminal states stay put and ask for nothing.
pub open spec fn spec_encoder_setup_step(s: EncoderSetup, o: SetupOutcome) -> (
    EncoderSetup,
    EncoderSetupAction,
) {
    match (s, o) {
        (EncoderSetup::NeedPool, SetupOutcome::Succeeded { handle }) => (
            EncoderSetup::NeedBuffer { pool: handle },
            EncoderSetupAction::AllocateBuffer { pool: handle },
        ),
        (EncoderSetup::NeedPool, SetupOutcome::Failed { code }) => (
            EncoderSetup::Aborted {
                error: Error::NativeCallFailed {
                    operation: NativeOp::CreateCommandPool,
                    native_code: code,
                },
            },
            EncoderSetupAction::Idle,
        ),
        (EncoderSetup::NeedBuffer { pool }, SetupOutcome::Succeeded { handle }) => (
            EncoderSetup::NeedBegin { pool, buffer: handle },
            EncoderSetupAction::BeginBuffer { buffer: handle },
        ),
        (EncoderSetup::NeedBuffer { pool }, SetupOutcome::Failed { code }) => (
            EncoderSetup::Aborted {
                error: Error::NativeCallFailed {
                    operation: NativeOp::AllocateCommandBuffer,
                    native_code: code,
                },
            },
            EncoderSetupAction::DestroyPool { pool },
        ),
        (EncoderSetup::NeedBegin { pool, buffer }, SetupOutcome::Succeeded { .. }) => (
            EncoderSetup::Ready { pool, buffer },
            EncoderSetupAction::Idle,
        ),
        (EncoderSetup::NeedBegin { pool, .. }, SetupOutcome::Failed { code }) => (
            EncoderSetup::Aborted {
                error: Error::NativeCallFailed {
                    operation: NativeOp::BeginCommandBuffer,
                    native_code: code,
                },
            },
            EncoderSetupAction::DestroyPool { pool },
        ),
        (EncoderSetup::Ready { pool, buffer }, _) => (
            EncoderSetup::Ready { pool, buffer },
            EncoderSetupAction::Idle,
        ),
        (EncoderSetup::Aborted { error }, _) => (
            EncoderSetup::Aborted { error },
            EncoderSetupAction::Idle,
        ),
    }
}

/// Start encoder setup for a device: the first action is to create a
/// command pool for the device's graphics queue family.
pub fn encoder_setup_start(device: &Device) -> (r: (EncoderSetup, EncoderSetupAction))
    ensures
        r.0 == EncoderSetup::NeedPool,
        r.1 == (EncoderSetupAction::CreatePool {
            queue_family: device.core.graphics_queue_family,
        }),
{
    (
        EncoderSetup::NeedPool,
        EncoderSetupAction::CreatePool { queue_family: device.core.graphics_queue_family },
    )
}

/// Advance encoder setup by the outcome of the last native call.
pub fn encoder_setup_step(s: EncoderSetup, o: SetupOutcome) -> (r: (
    EncoderSetup,
    EncoderSetupAction,
))
    ensures
        r == spec_encoder_setup_step(s, o),
{
    match (s, o) {
        (EncoderSetup::NeedPool, SetupOutcome::Succeeded { handle }) => (
            EncoderSetup::NeedBuffer { pool: handle },
            EncoderSetupAction::AllocateBuffer { pool: handle },
        ),
        (EncoderSetup::NeedPool, SetupOutcome::Failed { code }) => (
            EncoderSetup::Aborted {
                error: Error::NativeCallFailed {
                    operation: NativeOp::CreateCommandPool,
                    native_code: code,
                },
            },
            EncoderSetupAction::Idle,
        ),
        (EncoderSetup::NeedBuffer { pool }, SetupOutcome::Succeeded { handle }) => (
            EncoderSetup::NeedBegin { pool, buffer: handle },
            EncoderSetupAction::BeginBuffer { buffer: handle },
        ),
        (EncoderSetup::NeedBuffer { pool }, SetupOutcome::Failed { code }) => (
            EncoderSetup::Aborted {
                error: Error::NativeCallFailed {
                    operation: NativeOp::AllocateCommandBuffer,
                    native_code: code,
                },
            },
            EncoderSetupAction::DestroyPool { pool },
        ),
        (EncoderSetup::NeedBegin { pool, buffer }, SetupOutcome::Succeeded { .. }) => (
            EncoderSetup::Ready { pool, buffer },
            EncoderSetupAction::Idle,
        ),
        (EncoderSetup::NeedBegin { pool, .. }, SetupOutcome::Failed { code }) => (
            EncoderSetup::Aborted {
                error: Error::NativeCallFailed {
                    operation: NativeOp::BeginCommandBuffer,
                    native_code: code,
                },
            },
            EncoderSetupAction::DestroyPool { pool },
        ),
        (EncoderSetup::Ready { pool, buffer }, _) => (
            EncoderSetup::Ready { pool, buffer },
            EncoderSetupAction::Idle,
        ),
        (EncoderSetup::Aborted { error }, _) => (
            EncoderSetup::Aborted { error },
            EncoderSetupAction::Idle,
        ),
    }
}

/// A failed setup never leaks the pool: whenever a step moves to
/// `Aborted` from a state that had already created a pool, that very
/// step orders the pool destroyed.
pub proof fn lemma_setup_never_leaks_pool(s: EncoderSetup, o: SetupOutcome)
    requires
        setup_pool(s) is Some,
        !(s is Ready),
        spec_encoder_setup_step(s, o).0 is Aborted,
    ensures
        spec_encoder_setup_step(s, o).1 == (EncoderSetupAction::DestroyPool {
            pool: setup_pool(s)->Some_0,
        }),
{
}

/// Conclude encoder setup: a ready state yields the encoder, an
/// aborted one surfaces the error it recorded.
pub fn encoder_setup_finish(device: &Device, s: EncoderSetup) -> (r: Result<CommandEncoder, Error>)
    requires
        s is Ready || s is Aborted,
    ensures
        s matches EncoderSetup::Ready { pool, buffer } ==> (r matches Ok(enc) && enc.device
            == *device && enc.pool == pool && enc.buffer == buffer),
        s matches EncoderSetup::Aborted { error } ==> r == Err::<CommandEncoder, Error>(error),
{
    match s {
        EncoderSetup::Ready { pool, buffer } => Ok(
            CommandEncoder { device: device.clone(), pool, buffer },
        ),
        EncoderSetup::Aborted { error } => Err(error),
        _ => unreached(),
    }
}

/// A per-submission recording context. Its existence means the native
/// command buffer is in the recording state; the strong device
/// reference keeps the logical device alive while recording lasts.
pub struct CommandEncoder {
    pub device: Device,
    pub pool: u64,
    pub buffer: u64,
}

/// A render-pass recording scope. It borrows its encoder exclusively,
/// so at most one scope is alive at a time and the scope cannot
/// outlive the encoder.
pub struct CommandEncoderRenderPass<'a> {
    pub encoder: &'a mut CommandEncoder,
}

impl RHICommandEncoderRenderPass for CommandEncoderRenderPass<'_> {

}

impl CommandEncoder {
    /// Open a render-pass scope on this encoder. The scope leaves the
    /// encoder exactly as it found it.
    pub fn begin_render_pass<'a>(&'a mut self, _desc: &RHIRenderPassDescriptor) -> (r: Result<
        CommandEncoderRenderPass<'a>,
        Error,
    >)
        ensures
            r matches Ok(p) ==> *p.encoder == *old(self) && *final(self) == *final(p.encoder),
            r is Ok,
    {
        Ok(CommandEncoderRenderPass { encoder: self })
    }

    /// End recording. `end_code` is the driver's status for the
    /// native end-recording call on this encoder's buffer (`0` means
    /// success). On success the encoder turns into the recorded
    /// command-buffer handle; either way the encoder is consumed and
    /// recording is over.
    pub fn finish(self, end_code: i32) -> (r: Result<u64, Error>)
        ensures
            end_code == 0 ==> r == Ok::<u64, Error>(self.buffer),
            end_code != 0 ==> r == Err::<u64, Error>(
                Error::NativeCallFailed {
                    operation: NativeOp::EndCommandBuffer,
                    native_code: end_code,
                },
            ),
    {
        if end_code == 0 {
            Ok(self.buffer)
        } else {
            Err(
                Error::NativeCallFailed {
                    operation: NativeOp::EndCommandBuffer,
                    native_code: end_code,
                },
            )
        }
    }
}

} // verus!
