//! The control-plane state of the player: one session at a time, observed
//! and driven from the UI thread.
//!
//! The lock-protected structure the caller polls never holds GPU or
//! engine handles — only plain values.  Starting a session replaces the
//! previous one; stopping is idempotent; the status string handed to the
//! UI is a fixed function of the lifecycle state.

use vstd::prelude::*;

verus! {

/// What the UI sends to start playback.
#[derive(Clone, Debug)]
pub struct PlayRequest {
    pub url: String,
    /// Optional cap on the stream quality, e.g. `"1080p"`, `"720p"`.
    pub quality: Option<String>,
}

/// Lifecycle state of the player as the UI sees it.
#[derive(Clone, Debug)]
pub enum PlayStatus {
    Idle,
    Loading,
    Playing,
    Paused,
    Error(String),
}

/// The status string the UI receives for each lifecycle state.
pub open spec fn spec_status_label(s: PlayStatus) -> Seq<char> {
    match s {
        PlayStatus::Idle => "idle"@,
        PlayStatus::Loading => "loading"@,
        PlayStatus::Playing => "playing"@,
        PlayStatus::Paused => "paused"@,
        PlayStatus::Error(_) => "error"@,
    }
}

/// What the UI receives when it polls the player.
#[derive(Clone, Debug)]
pub struct StatusResponse {
    pub status: String,
    pub url: Option<String>,
    pub error: Option<String>,
    pub spout_active: bool,
    pub syphon_active: bool,
}

/// The mutable control-plane state: lifecycle, current source and whether
/// a texture-sharing output is up.
#[derive(Clone, Debug)]
pub struct PlayerCore {
    pub status: PlayStatus,
    pub current_url: Option<String>,
    pub output_active: bool,
}

/// The one state a player is in after a stop, whatever came before.
pub open spec fn spec_stopped() -> PlayerCore {
    PlayerCore { status: PlayStatus::Idle, current_url: None, output_active: false }
}

impl PlayerCore {
    /// A fresh player: idle, no source, no output.
    pub fn new() -> (c: PlayerCore)
        ensures
            c == spec_stopped(),
    {
        PlayerCore { status: PlayStatus::Idle, current_url: None, output_active: false }
    }

    /// A new session begins loading `url`.  Whatever session was active
    /// before is gone: the caller has already stopped its worker.
    pub fn on_play(&mut self, url: String)
        ensures
            final(self).status is Loading,
            final(self).current_url == Some(url),
            final(self).output_active,
    {
        self.status = PlayStatus::Loading;
        self.current_url = Some(url);
        self.output_active = true;
    }

    /// The session was stopped.  Always lands in the same state, so a
    /// second stop is a no-op.
    pub fn on_stop(&mut self)
        ensures
            *final(self) == spec_stopped(),
    {
        self.status = PlayStatus::Idle;
        self.current_url = None;
        self.output_active = false;
    }

    /// Resolution negotiation finished and frames are flowing.
    pub fn on_playing(&mut self)
        ensures
            final(self).status is Playing,
            final(self).current_url == old(self).current_url,
            final(self).output_active == old(self).output_active,
    {
        self.status = PlayStatus::Playing;
    }

    /// The engine reported its new pause state after a toggle.
    pub fn on_pause_state(&mut self, paused: bool)
        ensures
            final(self).status == if paused {
                PlayStatus::Paused
            } else {
                PlayStatus::Playing
            },
            final(self).current_url == old(self).current_url,
            final(self).output_active == old(self).output_active,
    {
        self.status = if paused {
            PlayStatus::Paused
        } else {
            PlayStatus::Playing
        };
    }

    /// The session aborted; the message is surfaced to the UI.
    pub fn on_error(&mut self, message: String)
        ensures
            final(self).status == PlayStatus::Error(message),
            final(self).current_url == old(self).current_url,
            !final(self).output_active,
    {
        self.status = PlayStatus::Error(message);
        self.output_active = false;
    }

    /// The response to a status poll: the label of the lifecycle state,
    /// the current source, the error message if the session aborted, and
    /// the output flags (one per platform sink, both reporting the same
    /// session output).
    pub fn status_response(&self) -> (r: StatusResponse)
        ensures
            r.status@ == spec_status_label(self.status),
            r.url == self.current_url,
            match self.status {
                PlayStatus::Error(e) => r.error == Some(e),
                _ => r.error is None,
            },
            r.spout_active == self.output_active,
            r.syphon_active == self.output_active,
    {
        let status = match &self.status {
            PlayStatus::Idle => "idle".to_owned(),
            PlayStatus::Loading => "loading".to_owned(),
            PlayStatus::Playing => "playing".to_owned(),
            PlayStatus::Paused => "paused".to_owned(),
            PlayStatus::Error(_) => "error".to_owned(),
        };
        let url = match &self.current_url {
            Some(u) => Some(u.clone()),
            None => None,
        };
        let error = match &self.status {
            PlayStatus::Error(e) => Some(e.clone()),
            _ => None,
        };
        StatusResponse {
            status,
            url,
            error,
            spout_active: self.output_active,
            syphon_active: self.output_active,
        }
    }
}

/// The state [`PlayerCore::on_stop`] leaves any player in.
pub open spec fn spec_after_stop(c: PlayerCore) -> PlayerCore {
    spec_stopped()
}

/// Idempotent stop: a second stop finds the player exactly where the
/// first one left it and changes nothing.
pub proof fn lemma_stop_idempotent(c: PlayerCore)
    ensures
        spec_after_stop(spec_after_stop(c)) == spec_after_stop(c),
{
}

} // verus!
