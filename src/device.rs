use crate::buffer::{Buffer, BUFFER_CAPACITY};
use crate::controller_state::{ControllerState, FullState, LedState};
use crate::protocol::{HardwareSpec, WriteType};
use vstd::prelude::*;

verus! {

/// Lifecycle of a polling job.
#[derive(Clone, Copy, PartialEq, Eq, Structural, Debug)]
pub enum JobPhase {
    /// Built, not yet set up.
    Uninitialized,
    /// The device is open and its interface claimed; ticks may run.
    Active,
    /// Setup did not succeed; the job never ticks.
    Failed,
    /// Torn down.
    Terminated,
}

impl JobPhase {
    /// The phase once setup has reported whether the device was opened and claimed.
    pub open spec fn after_setup(self, opened: bool) -> JobPhase {
        if self == JobPhase::Uninitialized {
            if opened {
                JobPhase::Active
            } else {
                JobPhase::Failed
            }
        } else {
            self
        }
    }

    /// The phase after teardown.
    pub open spec fn after_teardown(self) -> JobPhase {
        JobPhase::Terminated
    }

    /// Whether tearing down from this phase must release a claimed interface.
    pub open spec fn teardown_releases(self) -> bool {
        self == JobPhase::Active
    }
}

/// Whether a freshly read report is new work: it is not empty and differs from
/// the last report that was decoded.
pub open spec fn is_new_report(last: Seq<u8>, incoming: Seq<u8>) -> bool {
    incoming.len() != 0 && incoming != last
}

/// What the decisions of a polling job depend on.
pub struct JobView {
    pub hardware: HardwareSpec,
    pub phase: JobPhase,
    /// The report most recently read.
    pub current: Seq<u8>,
    /// The report most recently decoded.
    pub last: Seq<u8>,
    /// The LED frame waiting to be written; empty once written.
    pub led_out: Seq<u8>,
}

impl JobView {
    /// The job after a read delivered `bytes`.
    pub open spec fn after_read(self, bytes: Seq<u8>) -> JobView {
        JobView { current: bytes, ..self }
    }

    /// The job after the current report was decoded: it becomes the last one.
    pub open spec fn after_decode(self) -> JobView {
        JobView { current: self.last, last: self.current, ..self }
    }
}

/// A polling job for one controller: it owns the transfer buffers and makes
/// every decision of a tick, while the caller performs the transfers and takes
/// the locks.
pub struct HidDeviceJob {
    state: FullState,
    hardware: HardwareSpec,
    read_buf: Buffer,
    last_read_buf: Buffer,
    led_buf: Buffer,
    phase: JobPhase,
}

impl View for HidDeviceJob {
    type V = JobView;

    closed spec fn view(&self) -> JobView {
        JobView {
            hardware: self.hardware,
            phase: self.phase,
            current: self.read_buf.contents(),
            last: self.last_read_buf.contents(),
            led_out: self.led_buf.contents(),
        }
    }
}

impl HidDeviceJob {
    pub closed spec fn wf(&self) -> bool {
        self.read_buf.wf() && self.last_read_buf.wf() && self.led_buf.wf()
    }

    /// The shared state that the job decodes into and takes LED frames from.
    pub closed spec fn shared(&self) -> FullState {
        self.state
    }

    fn new(state: FullState, hardware: HardwareSpec) -> (r: Self)
        ensures
            r.wf(),
            r@.hardware == hardware,
            r@.phase == JobPhase::Uninitialized,
            r@.current.len() == 0,
            r@.last.len() == 0,
            r@.led_out.len() == 0,
            r.shared() == state,
    {
        Self {
            state,
            hardware,
            read_buf: Buffer::new(),
            last_read_buf: Buffer::new(),
            led_buf: Buffer::new(),
            phase: JobPhase::Uninitialized,
        }
    }

    /// A job for `spec` that shares both regions of `state`.
    pub fn from_config(state: &FullState, spec: &HardwareSpec) -> (r: Self)
        ensures
            r.wf(),
            r@.hardware == *spec,
            r@.phase == JobPhase::Uninitialized,
            r@.current.len() == 0,
            r@.last.len() == 0,
            r@.led_out.len() == 0,
            r.shared().controller_state == state.controller_state,
            r.shared().led_state == state.led_state,
    {
        Self::new(state.share(), *spec)
    }

    pub fn hardware(&self) -> (r: HardwareSpec)
        ensures
            r == self@.hardware,
    {
        self.hardware
    }

    pub fn phase(&self) -> (r: JobPhase)
        ensures
            r == self@.phase,
    {
        self.phase
    }

    pub fn state(&self) -> (r: &FullState)
        ensures
            *r == self.shared(),
    {
        &self.state
    }

    /// Records the outcome of setup. Only a job that was never set up changes phase.
    pub fn setup_finished(&mut self, opened: bool) -> (r: bool)
        ensures
            final(self).wf() == old(self).wf(),
            final(self)@ == (JobView { phase: old(self)@.phase.after_setup(opened), ..old(self)@ }),
            final(self).shared() == old(self).shared(),
            r == (final(self)@.phase == JobPhase::Active),
    {
        if self.phase == JobPhase::Uninitialized {
            self.phase = if opened {
                JobPhase::Active
            } else {
                JobPhase::Failed
            };
        }
        self.phase == JobPhase::Active
    }

    /// Whether the job may tick.
    pub fn can_tick(&self) -> (r: bool)
        ensures
            r == (self@.phase == JobPhase::Active),
    {
        self.phase == JobPhase::Active
    }

    /// Takes the bytes of one read (empty after a timeout or error) and says
    /// whether they must be decoded.
    pub fn input_arrived(&mut self, bytes: &[u8]) -> (r: bool)
        requires
            old(self).wf(),
            old(self)@.phase == JobPhase::Active,
            bytes@.len() <= BUFFER_CAPACITY,
        ensures
            final(self).wf(),
            final(self)@ == old(self)@.after_read(bytes@),
            final(self).shared() == old(self).shared(),
            r == is_new_report(old(self)@.last, bytes@),
    {
        self.read_buf.fill_from(bytes);
        if self.read_buf.len == 0 {
            return false;
        }
        !self.read_buf.same_contents(&self.last_read_buf)
    }

    /// Decodes the current report into `controller` and makes it the last one.
    pub fn apply_input(&mut self, controller: &mut ControllerState)
        requires
            old(self).wf(),
            old(self)@.phase == JobPhase::Active,
        ensures
            final(self).wf(),
            final(self)@ == old(self)@.after_decode(),
            final(self).shared() == old(self).shared(),
            final(controller)@ == old(self)@.hardware.decode_view(
                old(self)@.current,
                old(controller)@,
            ),
    {
        self.hardware.decode(&self.read_buf, controller);
        std::mem::swap(&mut self.read_buf, &mut self.last_read_buf);
    }

    /// Consumes a pending LED pattern: encodes it into the outgoing frame and
    /// clears `dirty`, whatever later becomes of the write.
    pub fn take_led(&mut self, led: &mut LedState)
        requires
            old(self).wf(),
            old(self)@.phase == JobPhase::Active,
        ensures
            final(self).wf(),
            final(self).shared() == old(self).shared(),
            !final(led).dirty,
            final(led).led_state == old(led).led_state,
            final(led).start == old(led).start,
            final(self)@.hardware == old(self)@.hardware,
            final(self)@.phase == old(self)@.phase,
            final(self)@.current == old(self)@.current,
            final(self)@.last == old(self)@.last,
            old(led).dirty ==> old(self)@.hardware.is_led_frame(
                final(self)@.led_out,
                old(led).led_state@,
            ),
            !old(led).dirty ==> final(self)@.led_out == old(self)@.led_out,
    {
        if led.dirty {
            self.hardware.encode_led(&mut self.led_buf, led);
            led.dirty = false;
        }
    }

    /// The LED frame to write, if one is waiting.
    pub fn pending_led(&self) -> (r: Option<Vec<u8>>)
        requires
            self.wf(),
        ensures
            (r is None) == (self@.led_out.len() == 0),
            r is Some ==> r->0@ == self@.led_out,
    {
        if self.led_buf.len == 0 {
            None
        } else {
            Some(self.led_buf.to_vec())
        }
    }

    /// Records how many bytes a write reported. The device acknowledges a
    /// frame with one byte more than was sent; anything else keeps the frame
    /// for the next tick.
    pub fn led_written(&mut self, written: usize)
        requires
            old(self).wf(),
            old(self)@.phase == JobPhase::Active,
        ensures
            final(self).wf(),
            final(self).shared() == old(self).shared(),
            final(self)@ == (JobView {
                led_out: if written == old(self)@.led_out.len() + 1 {
                    Seq::<u8>::empty()
                } else {
                    old(self)@.led_out
                },
                ..old(self)@
            }),
    {
        if written == self.led_buf.len + 1 {
            self.led_buf.len = 0;
            assert(self.led_buf.contents() =~= Seq::<u8>::empty());
        }
    }

    /// Ends the job and says whether a claimed interface must be released;
    /// repeating it, or calling it after a failed setup, releases nothing.
    pub fn teardown(&mut self) -> (r: bool)
        ensures
            final(self).wf() == old(self).wf(),
            final(self).shared() == old(self).shared(),
            final(self)@ == (JobView { phase: old(self)@.phase.after_teardown(), ..old(self)@ }),
            r == old(self)@.phase.teardown_releases(),
    {
        let r = self.phase == JobPhase::Active;
        self.phase = JobPhase::Terminated;
        r
    }

    pub fn write_type(&self) -> (r: WriteType)
        ensures
            r == self@.hardware.spec_write_type(),
    {
        self.hardware.write_type()
    }
}

/// The same report read twice in a row is decoded once: whatever the first
/// read led to, the second is not new work.
pub proof fn lemma_repeated_report_decoded_once(job: JobView, bytes: Seq<u8>)
    ensures
        ({
            let first = job.after_read(bytes);
            let next = if is_new_report(job.last, bytes) {
                first.after_decode()
            } else {
                first
            };
            !is_new_report(next.last, bytes)
        }),
        bytes.len() != 0 && bytes != job.last ==> is_new_report(job.last, bytes),
{
}

/// A job whose setup failed is never active, so it never ticks.
pub proof fn lemma_failed_setup_never_ticks(phase: JobPhase)
    requires
        phase == JobPhase::Uninitialized,
    ensures
        phase.after_setup(false) == JobPhase::Failed,
        phase.after_setup(false).after_setup(true) != JobPhase::Active,
{
}

/// Teardown releases at most once: a second teardown, or one after a failed
/// setup, has nothing to release.
pub proof fn lemma_teardown_is_idempotent(phase: JobPhase)
    ensures
        !phase.after_teardown().teardown_releases(),
        !JobPhase::Uninitialized.after_setup(false).teardown_releases(),
{
}

} // verus!
