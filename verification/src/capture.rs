//! Capture session: exclusive owner of one live microphone stream and its
//! buffered samples. The hardware stream itself is driven by the surrounding
//! application; the session here is the verified lifecycle and buffer
//! ownership model that the controller relies on.

use vstd::prelude::*;
use crate::ids::fresh_id;
use crate::models::CaptureError;

verus! {

/// Sample rate of the mono PCM capture buffer, in hertz.
pub const SAMPLE_RATE_HZ: u64 = 16000;

/// Lifecycle of a recording session. The transient hardware phases (opening
/// the stream, flushing on close) complete inside `open` and `stop`; a
/// session is never left in them, so `Stopping` is never observed between
/// calls.
#[derive(Debug, Clone, Copy, PartialEq, Eq, Structural)]
pub enum CaptureState {
    Recording,
    Stopping,
    Finished,
    Aborted,
}

/// One recording session: id, device, start time, lifecycle state and the
/// buffered PCM samples. The buffer is owned exclusively by the session until
/// `stop` hands it off; afterwards the session never touches it again.
#[derive(Debug)]
pub struct CaptureSession {
    pub id: String,
    pub device_id: String,
    pub started_at: i64,
    pub state: CaptureState,
    pub buffer: Vec<i16>,
}

impl CaptureSession {
    /// A session that is no longer recording holds no samples: the buffer was
    /// either handed off (`Finished`) or discarded (`Aborted`).
    pub open spec fn wf(self) -> bool {
        !(self.state is Recording) ==> self.buffer@.len() == 0
    }

    /// Open a session on the given device. The hardware stream is acquired by
    /// the surrounding application; a failure to acquire it is reported back
    /// as a stream error and aborts the session.
    pub fn open(device_id: String, now: i64) -> (s: Self)
        ensures
            s.state is Recording,
            s.buffer@.len() == 0,
            s.device_id@ == device_id@,
            s.started_at == now,
            s.id@.len() == 36,
            s.wf(),
    {
        CaptureSession {
            id: fresh_id(),
            device_id,
            started_at: now,
            state: CaptureState::Recording,
            buffer: Vec::new(),
        }
    }

    /// Append samples delivered by the hardware callback. Safe in every
    /// state: samples arriving after the session left `Recording` are
    /// dropped, never buffered.
    pub fn append(&mut self, samples: &Vec<i16>)
        ensures
            old(self).state is Recording ==> final (self).buffer@ == old(self).buffer@ + samples@
                && final (self).state == old(self).state && final (self).id@ == old(self).id@
                && final (self).device_id@ == old(self).device_id@ && final (self).started_at
                == old(self).started_at,
            !(old(self).state is Recording) ==> *final(self) == *old(self),
    {
        match self.state {
            CaptureState::Recording => {
                self.buffer.extend_from_slice(samples.as_slice());
            },
            _ => {},
        }
    }

    /// Stop the session: flush, hand ownership of the buffer to the caller,
    /// release the stream. Fails with `CaptureAlreadyClosed` unless the
    /// session is recording.
    pub fn stop(&mut self) -> (r: Result<Vec<i16>, CaptureError>)
        ensures
            old(self).state is Recording ==> match r {
                Ok(buf) => buf@ == old(self).buffer@ && final (self).state is Finished && final (
                self).buffer@.len() == 0 && final (self).id@ == old(self).id@ && final (
                self).device_id@ == old(self).device_id@ && final (self).started_at == old(
                self).started_at,
                Err(_) => false,
            },
            !(old(self).state is Recording) ==> r == Err::<Vec<i16>, CaptureError>(
                CaptureError::CaptureAlreadyClosed,
            ) && *final(self) == *old(self),
            old(self).wf() ==> final (self).wf(),
    {
        match self.state {
            CaptureState::Recording => {
                self.state = CaptureState::Stopping;
                let buf = self.buffer.split_off(0);
                self.state = CaptureState::Finished;
                proof {
                    assert(buf@ =~= old(self).buffer@);
                    assert(self.buffer@ =~= Seq::<i16>::empty());
                }
                Ok(buf)
            },
            _ => Err(CaptureError::CaptureAlreadyClosed),
        }
    }

    /// Abort the session: discard buffered samples and release the stream.
    /// Safe to call in every state, even after the stream already failed
    /// asynchronously; a terminal session is left as it is.
    pub fn abort(&mut self)
        ensures
            old(self).state is Recording || old(self).state is Stopping ==> final (
            self).state is Aborted && final (self).buffer@.len() == 0 && final (self).id@ == old(
            self).id@ && final (self).device_id@ == old(self).device_id@ && final (
            self).started_at == old(self).started_at,
            old(self).state is Finished || old(self).state is Aborted ==> *final(self) == *old(
                self,
            ),
            old(self).wf() ==> final (self).wf(),
    {
        match self.state {
            CaptureState::Recording | CaptureState::Stopping => {
                self.buffer.clear();
                self.state = CaptureState::Aborted;
            },
            _ => {},
        }
    }

    /// How much audio the buffer holds, in milliseconds at the fixed capture
    /// sample rate.
    pub fn buffered_ms(&self) -> (r: u64)
        requires
            self.buffer@.len() * 1000 <= u64::MAX,
        ensures
            r == self.buffer@.len() * 1000 / (SAMPLE_RATE_HZ as nat),
    {
        (self.buffer.len() as u64) * 1000 / SAMPLE_RATE_HZ
    }
}

} // verus!
