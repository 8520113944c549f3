//! The playback controller: a state machine over at most one session.
//!
//! The controller decides; the host owns the output device and the decode
//! stream. Each operation that touches a file takes the outcome of opening
//! it (its total duration in milliseconds, or the failure), and the host
//! mirrors the resulting state (paused flag, gain) onto its sink.
use vstd::prelude::*;
use crate::error::MusicError;
use crate::gain::{clamp_gain, clamp_unit, is_nan_bits, is_unit_gain, FULL_GAIN};

verus! {

/// The currently loaded track.
pub struct Session {
    /// The file the session was opened from.
    pub path: String,
    /// Total duration of the decoded stream in milliseconds, 0 if unknown.
    pub duration_ms: u64,
    /// Bit pattern of the `f32` gain last applied to the sink.
    pub volume: u32,
    /// Whether playback is paused.
    pub paused: bool,
}

/// The single-track player. `None` is the Stopped state; a session that is
/// not paused is Playing.
pub struct AudioPlayer {
    session: Option<Session>,
}

/// Every session carries a gain that is a number in `[0.0, 1.0]`.
pub open spec fn wf_model(m: Option<Session>) -> bool {
    m is Some ==> is_unit_gain(m->0.volume) && !is_nan_bits(m->0.volume)
}

/// State after opening `path` for playback: a fresh session at full gain,
/// playing, or Stopped when the file could not be opened.
pub open spec fn play_model(path: String, opened: Result<u64, MusicError>) -> Option<Session> {
    match opened {
        Ok(d) => Some(Session { path, duration_ms: d, volume: FULL_GAIN, paused: false }),
        Err(_) => None,
    }
}

/// State after `pause`: a session becomes paused; Stopped stays Stopped.
pub open spec fn pause_model(m: Option<Session>) -> Option<Session> {
    match m {
        Some(s) => Some(Session { paused: true, ..s }),
        None => None,
    }
}

/// State after `resume`: a session plays again; Stopped stays Stopped.
pub open spec fn resume_model(m: Option<Session>) -> Option<Session> {
    match m {
        Some(s) => Some(Session { paused: false, ..s }),
        None => None,
    }
}

/// State after `stop`: always Stopped.
pub open spec fn stop_model(m: Option<Session>) -> Option<Session> {
    None
}

/// State after `set_volume(bits)`: the session keeps the clamped gain.
pub open spec fn set_volume_model(m: Option<Session>, bits: u32) -> Option<Session> {
    match m {
        Some(s) => Some(Session { volume: clamp_unit(bits), ..s }),
        None => None,
    }
}

/// State after a seek whose reopening of the session's file gave
/// `reopened`: the same file, paused flag and gain with the new duration,
/// or Stopped on failure. Without a session nothing changes.
pub open spec fn seek_model(m: Option<Session>, reopened: Result<u64, MusicError>) -> Option<Session> {
    match m {
        Some(s) => match reopened {
            Ok(d) => Some(Session { duration_ms: d, ..s }),
            Err(_) => None,
        },
        None => None,
    }
}

/// What `seek` returns: success without a session, else the reopening's
/// outcome.
pub open spec fn seek_result(m: Option<Session>, reopened: Result<u64, MusicError>) -> Result<(), MusicError> {
    match m {
        Some(_) => match reopened {
            Ok(_) => Ok(()),
            Err(e) => Err(e),
        },
        None => Ok(()),
    }
}

/// Total duration reported for a state: 0 when Stopped.
pub open spec fn duration_of(m: Option<Session>) -> u64 {
    match m {
        Some(s) => s.duration_ms,
        None => 0,
    }
}

/// A session exists, is not paused, and its stream has not run dry.
pub open spec fn playing_of(m: Option<Session>, drained: bool) -> bool {
    m is Some && !m->0.paused && !drained
}

/// Opening a file that decodes leaves a playing session whose duration is
/// the decoded stream's total duration.
pub proof fn lemma_play_reports_duration(path: String, duration_ms: u64)
    ensures
        duration_of(play_model(path, Ok(duration_ms))) == duration_ms,
        playing_of(play_model(path, Ok(duration_ms)), false),
{
}

/// A play that fails, whatever the failure, leaves the player Stopped:
/// no duration, nothing playing.
pub proof fn lemma_failed_play_stops(path: String, e: MusicError, drained: bool)
    ensures
        play_model(path, Err(e)) is None,
        duration_of(play_model(path, Err(e))) == 0,
        !playing_of(play_model(path, Err(e)), drained),
{
}

/// After a play, pausing stops playback and resuming restarts it.
pub proof fn lemma_pause_then_resume(path: String, duration_ms: u64, drained: bool)
    ensures
        !playing_of(pause_model(play_model(path, Ok(duration_ms))), drained),
        playing_of(resume_model(pause_model(play_model(path, Ok(duration_ms)))), false),
{
}

/// Stopping twice is stopping once, from any state, and leaves no duration.
pub proof fn lemma_stop_idempotent(m: Option<Session>)
    ensures
        stop_model(stop_model(m)) == stop_model(m),
        duration_of(stop_model(m)) == 0,
        duration_of(stop_model(stop_model(m))) == 0,
{
}

/// A seek that reopens the file keeps the session's paused flag, so a
/// paused session stays paused and a playing one keeps playing.
pub proof fn lemma_seek_keeps_play_state(m: Option<Session>, duration_ms: u64)
    requires
        m is Some,
    ensures
        seek_model(m, Ok(duration_ms)) is Some,
        seek_model(m, Ok(duration_ms))->0.paused == m->0.paused,
        playing_of(seek_model(m, Ok(duration_ms)), false) == playing_of(m, false),
{
}

/// A seek keeps the gain last set: after `set_volume(v)` and a seek that
/// reopens the file, the session's gain is still the clamped `v`.
pub proof fn lemma_seek_keeps_volume(m: Option<Session>, volume: u32, duration_ms: u64)
    requires
        m is Some,
    ensures
        seek_model(set_volume_model(m, volume), Ok(duration_ms))->0.volume == clamp_unit(volume),
{
}

impl View for AudioPlayer {
    type V = Option<Session>;

    closed spec fn view(&self) -> Option<Session> {
        self.session
    }
}

impl AudioPlayer {
    /// The controller's invariant.
    pub open spec fn wf(&self) -> bool {
        wf_model(self@)
    }

    /// A player with no session.
    pub fn new() -> (r: AudioPlayer)
        ensures
            r@ is None,
            r.wf(),
    {
        AudioPlayer { session: None }
    }

    /// The current session, if any.
    pub fn session(&self) -> (r: &Option<Session>)
        ensures
            *r == self@,
    {
        &self.session
    }

    /// Starts `path`, given the outcome of opening and decoding it (its
    /// duration in milliseconds). Any earlier session is torn down first; on
    /// failure the player is left Stopped and the failure is returned.
    pub fn play(&mut self, path: String, opened: Result<u64, MusicError>) -> (r: Result<(), MusicError>)
        ensures
            final(self)@ == play_model(path, opened),
            final(self).wf(),
            r is Ok <==> opened is Ok,
            opened is Err ==> r == Err::<(), MusicError>(opened->Err_0),
    {
        self.stop();
        match opened {
            Ok(d) => {
                self.session = Some(Session { path, duration_ms: d, volume: FULL_GAIN, paused: false });
                Ok(())
            },
            Err(e) => Err(e),
        }
    }

    /// Pauses the session; a no-op when Stopped.
    pub fn pause(&mut self)
        requires
            old(self).wf(),
        ensures
            final(self)@ == pause_model(old(self)@),
            final(self).wf(),
    {
        if let Some(s) = &mut self.session {
            s.paused = true;
        }
    }

    /// Resumes the session; a no-op when Stopped.
    pub fn resume(&mut self)
        requires
            old(self).wf(),
        ensures
            final(self)@ == resume_model(old(self)@),
            final(self).wf(),
    {
        if let Some(s) = &mut self.session {
            s.paused = false;
        }
    }

    /// Ends any session; the player is Stopped afterwards.
    pub fn stop(&mut self)
        ensures
            final(self)@ == stop_model(old(self)@),
            final(self).wf(),
    {
        self.session = None;
    }

    /// Sets the gain (an `f32` bit pattern) of the session, clamped into
    /// `[0.0, 1.0]`, and returns the gain to apply to the sink. Without a
    /// session nothing is stored and `None` is returned.
    pub fn set_volume(&mut self, volume: u32) -> (r: Option<u32>)
        requires
            old(self).wf(),
        ensures
            final(self)@ == set_volume_model(old(self)@, volume),
            final(self).wf(),
            r == (if old(self)@ is Some { Some(clamp_unit(volume)) } else { None::<u32> }),
    {
        proof {
            crate::gain::lemma_clamp_settles(volume);
        }
        if let Some(s) = &mut self.session {
            let v = clamp_gain(volume);
            s.volume = v;
            Some(v)
        } else {
            None
        }
    }

    /// Records a seek, given the outcome of reopening the session's file
    /// from the start (its duration). The session keeps its file, paused
    /// flag and gain; on failure the player is left Stopped. Without a
    /// session this succeeds and changes nothing.
    pub fn seek(&mut self, reopened: Result<u64, MusicError>) -> (r: Result<(), MusicError>)
        requires
            old(self).wf(),
        ensures
            final(self)@ == seek_model(old(self)@, reopened),
            final(self).wf(),
            r == seek_result(old(self)@, reopened),
    {
        if self.session.is_none() {
            return Ok(());
        }
        match reopened {
            Ok(d) => {
                if let Some(s) = &mut self.session {
                    s.duration_ms = d;
                }
                Ok(())
            },
            Err(e) => {
                self.stop();
                Err(e)
            },
        }
    }

    /// Playback position in milliseconds. Position is not tracked: this is
    /// always 0.
    pub fn get_position(&self) -> (r: u64)
        ensures
            r == 0,
    {
        0
    }

    /// Total duration of the session in milliseconds, 0 when Stopped.
    pub fn get_duration(&self) -> (r: u64)
        ensures
            r == duration_of(self@),
    {
        match &self.session {
            Some(s) => s.duration_ms,
            None => 0,
        }
    }

    /// Whether audio is playing, given whether the sink has run out of
    /// samples (the track reached its end).
    pub fn is_playing(&self, drained: bool) -> (r: bool)
        ensures
            r == playing_of(self@, drained),
    {
        match &self.session {
            Some(s) => !s.paused && !drained,
            None => false,
        }
    }
}

impl Default for AudioPlayer {
    fn default() -> (r: AudioPlayer)
        ensures
            r@ is None,
    {
        AudioPlayer::new()
    }
}

} // verus!
