//! The texture sink: the platform texture-sharing output and the caller's
//! handle on a running session worker.
//!
//! One OS service (selected once at session start) carries the session's
//! frames to other local processes.  The service's global sender state is
//! initialized at most once per process, counts the frames handed to it,
//! and is released on teardown; the session handle is the strict stop
//! path, which signals the worker and joins it before returning.

use vstd::prelude::*;
use crate::preview::ControlChannel;
use crate::pump::Dims;

verus! {

/// Which platform texture-sharing service carries the frames.  Chosen
/// once, at session start, from the running OS.
#[derive(Clone, Copy, Debug, PartialEq, Eq, Structural)]
pub enum SinkKind {
    /// The Windows service.
    Spout,
    /// The macOS service.
    Syphon,
}

/// The one command a session worker accepts over its control channel.
#[derive(Clone, Copy, Debug, PartialEq, Eq, Structural)]
pub enum SyphonCommand {
    /// Stop rendering, drain and exit.
    Stop,
}

/// The caller's handle on a session worker: the sending half of the
/// worker's control channel, and whether the worker has been joined.
#[derive(Clone, Copy, Debug)]
pub struct SyphonHandle {
    pub chan: ControlChannel,
    /// The worker thread is known to have exited.
    pub joined: bool,
}

impl SyphonHandle {
    /// The handle returned by a successful spawn: worker running, no stop
    /// pending.
    pub fn new() -> (h: SyphonHandle)
        ensures
            !h.chan.stop_pending,
            !h.joined,
    {
        SyphonHandle { chan: ControlChannel::new(), joined: false }
    }

    /// The one state a handle is in after `stop`, whatever came before.
    pub open spec fn spec_after_stop(self) -> SyphonHandle {
        SyphonHandle { chan: ControlChannel { stop_pending: true }, joined: true }
    }

    /// Strict stop: send `Stop` and join the worker.  When this returns,
    /// no further GPU or engine access happens, so the caller may free or
    /// reinitialize the borrowed engine handle.
    pub fn stop(&mut self)
        ensures
            *final(self) == old(self).spec_after_stop(),
    {
        self.chan.send_stop();
        self.joined = true;
    }
}

/// Idempotent stop: a second stop finds the handle exactly where the
/// first one left it and changes nothing — in particular it frees
/// nothing twice.
pub proof fn lemma_handle_stop_idempotent(h: SyphonHandle)
    ensures
        h.spec_after_stop().spec_after_stop() == h.spec_after_stop(),
{
}

/// Why a session failed to start.  Each of these is fatal: playback
/// never begins and the failure is returned to the caller synchronously.
#[derive(Clone, Copy, Debug, PartialEq, Eq, Structural)]
pub enum SpawnError {
    /// The dedicated GPU context could not be created.
    ContextCreation,
    /// The engine refused to create its render context.
    RenderContextCreation,
    /// The texture-sharing server could not be created.
    ServerCreation,
}

/// The session-start decision: a handle if and only if every native
/// resource came up, else the first failure in acquisition order.
pub fn spawn_outcome(context_ok: bool, render_context_ok: bool, server_ok: bool) -> (r: Result<
    SyphonHandle,
    SpawnError,
>)
    ensures
        !context_ok ==> r == Err::<SyphonHandle, SpawnError>(SpawnError::ContextCreation),
        context_ok && !render_context_ok ==> r == Err::<SyphonHandle, SpawnError>(
            SpawnError::RenderContextCreation,
        ),
        context_ok && render_context_ok && !server_ok ==> r == Err::<SyphonHandle, SpawnError>(
            SpawnError::ServerCreation,
        ),
        context_ok && render_context_ok && server_ok ==> match r {
            Ok(h) => !h.chan.stop_pending && !h.joined,
            Err(_) => false,
        },
{
    if !context_ok {
        Err(SpawnError::ContextCreation)
    } else if !render_context_ok {
        Err(SpawnError::RenderContextCreation)
    } else if !server_ok {
        Err(SpawnError::ServerCreation)
    } else {
        Ok(SyphonHandle::new())
    }
}

/// The error string surfaced to the UI for a failed session start.
pub fn spawn_error_message(e: &SpawnError) -> (r: String)
    ensures
        r@ == match *e {
            SpawnError::ContextCreation => "failed to create the GPU context"@,
            SpawnError::RenderContextCreation => "failed to create the engine render context"@,
            SpawnError::ServerCreation => "failed to create the texture-sharing server"@,
        },
{
    match e {
        SpawnError::ContextCreation => "failed to create the GPU context".to_owned(),
        SpawnError::RenderContextCreation => "failed to create the engine render context".to_owned(),
        SpawnError::ServerCreation => "failed to create the texture-sharing server".to_owned(),
    }
}

/// The process-wide state of the platform sender library.
#[derive(Clone, Copy, Debug)]
pub struct SenderState {
    pub kind: SinkKind,
    /// The size the sender was created with, once it has been.
    pub initialized: Option<Dims>,
    /// Frames handed to the sink since the process started.
    pub frames_sent: u64,
}

impl SenderState {
    /// The sender state of a fresh process: nothing initialized, nothing
    /// sent.
    pub fn new(kind: SinkKind) -> (s: SenderState)
        ensures
            s.kind == kind,
            s.initialized is None,
            s.frames_sent == 0,
    {
        SenderState { kind, initialized: None, frames_sent: 0 }
    }
}

/// Initialize the sender once per process: the first call creates it at
/// the given size, every later call is a no-op — explicit check-and-set
/// init-once semantics.
pub fn init(sender: &mut SenderState, width: u32, height: u32)
    ensures
        final(sender).initialized == match old(sender).initialized {
            Some(d) => Some(d),
            None => Some(Dims { width, height }),
        },
        final(sender).kind == old(sender).kind,
        final(sender).frames_sent == old(sender).frames_sent,
{
    if sender.initialized.is_none() {
        sender.initialized = Some(Dims { width, height });
    }
}

/// Hand one rendered texture to the sink.  The counter saturates instead
/// of wrapping.
pub fn send(sender: &mut SenderState, texture_id: u32, width: u32, height: u32)
    ensures
        final(sender).frames_sent == if old(sender).frames_sent < u64::MAX {
            old(sender).frames_sent + 1
        } else {
            old(sender).frames_sent as int
        },
        final(sender).kind == old(sender).kind,
        final(sender).initialized == old(sender).initialized,
{
    if sender.frames_sent < u64::MAX {
        sender.frames_sent = sender.frames_sent + 1;
    }
}

/// Release the sender: after this the process no longer owns a sender
/// and a later `init` may create a new one.
pub fn release(sender: &mut SenderState)
    ensures
        final(sender).initialized is None,
        final(sender).kind == old(sender).kind,
        final(sender).frames_sent == old(sender).frames_sent,
{
    sender.initialized = None;
}

/// The common publish entry used by the worker loop: whatever the
/// platform, one rendered texture goes to the session's sink.
pub fn send_texture(sender: &mut SenderState, texture_id: u32, width: u32, height: u32)
    ensures
        final(sender).frames_sent == if old(sender).frames_sent < u64::MAX {
            old(sender).frames_sent + 1
        } else {
            old(sender).frames_sent as int
        },
        final(sender).kind == old(sender).kind,
        final(sender).initialized == old(sender).initialized,
{
    send(sender, texture_id, width, height);
}

} // verus!
