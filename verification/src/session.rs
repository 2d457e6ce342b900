//! The capture session: one recording from the selection of a region to the
//! hand-over of the captured frames.
//!
//! The session is a state machine with four states. It owns the capture
//! device and the frame buffer while it records, and it is the only place
//! where the device is acquired and released. Commands take the session by
//! `&mut`, so two of them never run at the same time; a program with several
//! threads keeps the session behind one lock.
//!
//! The capture device itself is outside this library. A command that needs it
//! takes the operation as a closure and calls it at most once, and only in the
//! state in which the operation is due.

use crate::buffer::{
    after_push, after_pushes, ascending, lemma_push_keeps_order, push_outcome, FrameBuffer,
    PushOutcome, DEFAULT_CAPACITY,
};
use crate::device::{CaptureHandle, ReleaseOutcome};
use crate::error::{acquire_failure, AcquireError, CaptureError};
use crate::frame::Frame;
use crate::region::{begin_selection, physical_region, LogicalRect, Monitor, Region, ScaleFactor};
use vstd::prelude::*;

verus! {

/// State of the capture session.
#[derive(Clone, Copy, Debug, PartialEq, Eq, Structural)]
pub enum Status {
    /// Nothing is selected.
    Idle,
    /// A region is selected and waits to be recorded.
    RegionSelected,
    /// The capture device is held and frames arrive.
    Recording,
    /// The recording has ended and its frames were handed over for editing.
    Stopped,
}

/// The commands of the session.
#[derive(Clone, Copy, Debug, PartialEq, Eq, Structural)]
pub enum Command {
    Select,
    Start,
    Capture,
    Stop,
    Cancel,
    Reset,
    Preview,
}

/// What a finished recording hands to the editor: the captured frames, oldest
/// first.
#[derive(Debug, PartialEq, Eq)]
pub struct Artifact {
    pub frames: Vec<Frame>,
}

/// The transition table: whether `command` is valid in state `status`.
pub open spec fn permits(status: Status, command: Command) -> bool {
    match command {
        Command::Select => status == Status::Idle,
        Command::Start => status == Status::RegionSelected,
        Command::Capture => status == Status::Recording,
        Command::Stop => status == Status::Recording,
        Command::Cancel => status != Status::Stopped,
        Command::Reset => status == Status::Stopped,
        Command::Preview => status == Status::Stopped,
    }
}

/// A command together with its argument and, where the command turns to the
/// capture device, with the answer of the device.
pub enum Input<D> {
    Select(Region),
    Start { permitted: bool, acquired: Result<D, AcquireError> },
    Capture(Frame),
    Stop(ReleaseOutcome),
    Cancel(ReleaseOutcome),
    Reset,
    Preview(Seq<char>),
}

impl<D> Input<D> {
    /// The command that the input carries.
    pub open spec fn command(self) -> Command {
        match self {
            Input::Select(_) => Command::Select,
            Input::Start { .. } => Command::Start,
            Input::Capture(_) => Command::Capture,
            Input::Stop(_) => Command::Stop,
            Input::Cancel(_) => Command::Cancel,
            Input::Reset => Command::Reset,
            Input::Preview(_) => Command::Preview,
        }
    }

    /// A region that is selected covers at least one pixel.
    pub open spec fn valid(self) -> bool {
        self matches Input::Select(region) ==> region.valid()
    }
}

/// The session as a mathematical value.
pub struct SessionView<D> {
    pub status: Status,
    pub region: Option<Region>,
    pub frames: Seq<Frame>,
    pub capacity: nat,
    pub device: Option<CaptureHandle<D>>,
    pub preview_path: Option<Seq<char>>,
}

impl<D> SessionView<D> {
    /// The session before anything is selected.
    pub open spec fn idle(capacity: nat) -> Self {
        SessionView {
            status: Status::Idle,
            region: None,
            frames: Seq::empty(),
            capacity,
            device: None,
            preview_path: None,
        }
    }

    /// The invariant of the session: a region is held in every state but
    /// `Idle`, the device exactly in `Recording` and bound to that region,
    /// frames only in `Recording` and a preview path only in `Stopped`; the
    /// frames fit the capacity and are in capture order.
    pub open spec fn valid(self) -> bool {
        &&& self.status == Status::Idle <==> self.region is None
        &&& self.region matches Some(region) ==> region.valid()
        &&& self.status == Status::Recording <==> self.device is Some
        &&& self.device matches Some(handle) ==> self.region == Some(handle.region)
        &&& self.status != Status::Recording ==> self.frames.len() == 0
        &&& self.status != Status::Stopped ==> self.preview_path is None
        &&& self.frames.len() <= self.capacity
        &&& ascending(self.frames)
    }

    /// The state after `input`. An input whose command the state does not
    /// permit changes nothing, and neither does a start that is refused.
    pub open spec fn step(self, input: Input<D>) -> Self {
        if !permits(self.status, input.command()) {
            self
        } else {
            match input {
                Input::Select(region) => SessionView {
                    status: Status::RegionSelected,
                    region: Some(region),
                    ..self
                },
                Input::Start { permitted, acquired } => match acquired {
                    Ok(device) if permitted => SessionView {
                        status: Status::Recording,
                        device: Some(CaptureHandle { device, region: self.region->0 }),
                        ..self
                    },
                    _ => self,
                },
                Input::Capture(frame) => SessionView {
                    frames: after_push(self.frames, self.capacity, frame),
                    ..self
                },
                Input::Stop(ReleaseOutcome::Released) => SessionView {
                    status: Status::Stopped,
                    frames: Seq::empty(),
                    device: None,
                    ..self
                },
                Input::Stop(ReleaseOutcome::TimedOut) => Self::idle(self.capacity),
                Input::Cancel(_) => Self::idle(self.capacity),
                Input::Reset => Self::idle(self.capacity),
                Input::Preview(path) => SessionView { preview_path: Some(path), ..self },
            }
        }
    }

    /// The error that `input` meets in this state, if any.
    pub open spec fn failure(self, input: Input<D>) -> Option<CaptureError> {
        if !permits(self.status, input.command()) {
            Some(CaptureError::InvalidTransition)
        } else {
            match input {
                Input::Start { permitted, acquired } => if !permitted {
                    Some(CaptureError::PermissionDenied)
                } else {
                    match acquired {
                        Ok(_) => None,
                        Err(error) => Some(acquire_failure(error)),
                    }
                },
                Input::Stop(ReleaseOutcome::TimedOut) => Some(CaptureError::DeviceReleaseTimeout),
                Input::Cancel(ReleaseOutcome::TimedOut) => if self.status == Status::Recording {
                    Some(CaptureError::DeviceReleaseTimeout)
                } else {
                    None
                },
                _ => None,
            }
        }
    }

    /// The state after every input of `inputs`, first to last.
    pub open spec fn run(self, inputs: Seq<Input<D>>) -> Self
        decreases inputs.len(),
    {
        if inputs.len() == 0 {
            self
        } else {
            self.run(inputs.drop_last()).step(inputs.last())
        }
    }
}

/// The result of a command that returns nothing on success.
pub open spec fn completion(failure: Option<CaptureError>) -> Result<(), CaptureError> {
    match failure {
        Some(error) => Err(error),
        None => Ok(()),
    }
}

/// The capture session. `D` is the handle of the capture device: whatever the
/// program needs to read frames from the device and to let go of it.
pub struct AppState<D> {
    status: Status,
    region: Option<Region>,
    frames: FrameBuffer,
    device: Option<CaptureHandle<D>>,
    preview_path: Option<String>,
}

impl<D> View for AppState<D> {
    type V = SessionView<D>;

    closed spec fn view(&self) -> SessionView<D> {
        SessionView {
            status: self.status,
            region: self.region,
            frames: self.frames@,
            capacity: self.frames.limit(),
            device: self.device,
            preview_path: match self.preview_path {
                Some(path) => Some(path@),
                None => None,
            },
        }
    }
}

impl<D> AppState<D> {
    /// The session is well formed: its view meets the session invariant.
    pub open spec fn wf(&self) -> bool {
        self@.valid()
    }

    /// An idle session whose frame buffer holds up to `capacity` frames.
    pub fn new(capacity: usize) -> (session: AppState<D>)
        ensures
            session.wf(),
            session@ == SessionView::<D>::idle(capacity as nat),
    {
        let frames = FrameBuffer::new(capacity);
        AppState { status: Status::Idle, region: None, frames, device: None, preview_path: None }
    }

    /// The current state.
    pub fn query_status(&self) -> (status: Status)
        ensures
            status == self@.status,
    {
        self.status
    }

    /// Whether `command` is valid in the current state.
    pub fn permits(&self, command: Command) -> (valid: bool)
        ensures
            valid == permits(self@.status, command),
    {
        match command {
            Command::Select => self.status == Status::Idle,
            Command::Start => self.status == Status::RegionSelected,
            Command::Capture => self.status == Status::Recording,
            Command::Stop => self.status == Status::Recording,
            Command::Cancel => self.status != Status::Stopped,
            Command::Reset => self.status == Status::Stopped,
            Command::Preview => self.status == Status::Stopped,
        }
    }

    /// The selected region.
    pub fn region(&self) -> (region: Option<Region>)
        ensures
            region == self@.region,
    {
        self.region
    }

    /// The handle of the capture device, while the session records.
    pub fn device(&self) -> (device: Option<&CaptureHandle<D>>)
        ensures
            match device {
                Some(held) => self@.device == Some(*held),
                None => self@.device is None,
            },
    {
        self.device.as_ref()
    }

    /// Number of frames buffered.
    pub fn frame_count(&self) -> (count: usize)
        ensures
            count == self@.frames.len(),
    {
        self.frames.len()
    }

    /// The largest number of frames the session buffers.
    pub fn capacity(&self) -> (capacity: usize)
        ensures
            capacity == self@.capacity,
    {
        self.frames.capacity()
    }

    /// Where the preview of the finished recording was written.
    pub fn preview_path(&self) -> (path: Option<&String>)
        ensures
            match path {
                Some(written) => self@.preview_path == Some(written@),
                None => self@.preview_path is None,
            },
    {
        self.preview_path.as_ref()
    }

    /// Selects the region that the user drew on `monitor`. A rectangle
    /// without area is refused whatever the state; otherwise the command is
    /// valid in `Idle` and leads to `RegionSelected`.
    pub fn select_region(
        &mut self,
        monitor: &Monitor,
        rect: LogicalRect,
        scale: ScaleFactor,
    ) -> (done: Result<(), CaptureError>)
        requires
            old(self).wf(),
            monitor.valid(),
            scale.valid(),
        ensures
            final(self).wf(),
            rect.zero_area() ==> done == Err::<(), CaptureError>(CaptureError::InvalidRegion)
                && final(self)@ == old(self)@,
            !rect.zero_area() ==> {
                let input = Input::<D>::Select(physical_region(*monitor, rect, scale));
                &&& final(self)@ == old(self)@.step(input)
                &&& done == completion(old(self)@.failure(input))
            },
            done is Ok ==> (final(self)@.region matches Some(region) && region.within(*monitor)),
    {
        let region = match begin_selection(monitor, rect, scale) {
            Ok(region) => region,
            Err(error) => {
                return Err(error);
            },
        };
        if self.status != Status::Idle {
            return Err(CaptureError::InvalidTransition);
        }
        self.region = Some(region);
        self.status = Status::RegionSelected;
        Ok(())
    }

    /// Starts the recording: valid in `RegionSelected`, and only with the
    /// permission of the operating system. `acquire` binds the capture device
    /// to the selected region; it is called only when both hold. If it
    /// refuses, the session stays in `RegionSelected` and holds no device.
    pub fn start_recording<F>(&mut self, permission_granted: bool, acquire: F) -> (done: Result<
        (),
        CaptureError,
    >) where F: FnOnce(Region) -> Result<D, AcquireError>
        requires
            old(self).wf(),
            old(self)@.status == Status::RegionSelected && permission_granted ==> call_requires(
                acquire,
                (old(self)@.region->0,),
            ),
        ensures
            final(self).wf(),
            old(self)@.status != Status::RegionSelected ==> final(self)@ == old(self)@ && done
                == Err::<(), CaptureError>(CaptureError::InvalidTransition),
            old(self)@.status == Status::RegionSelected && !permission_granted ==> final(self)@
                == old(self)@ && done == Err::<(), CaptureError>(CaptureError::PermissionDenied),
            old(self)@.status == Status::RegionSelected && permission_granted ==> exists|
                acquired: Result<D, AcquireError>,
            |
                {
                    &&& #[trigger] call_ensures(acquire, (old(self)@.region->0,), acquired)
                    &&& final(self)@ == old(self)@.step(Input::Start { permitted: true, acquired })
                    &&& done == completion(
                        old(self)@.failure(Input::Start { permitted: true, acquired }),
                    )
                },
    {
        match (self.status, self.region) {
            (Status::RegionSelected, Some(region)) => {
                let handle = CaptureHandle::acquire(region, permission_granted, acquire);
                self.enter_recording(handle)
            },
            _ => Err(CaptureError::InvalidTransition),
        }
    }

    /// Takes the handle that an attempt to acquire the device gave.
    fn enter_recording(&mut self, handle: Result<CaptureHandle<D>, AcquireError>) -> (done: Result<
        (),
        CaptureError,
    >)
        requires
            old(self).wf(),
            old(self)@.status == Status::RegionSelected,
            handle matches Ok(held) ==> old(self)@.region == Some(held.region),
        ensures
            final(self).wf(),
            final(self)@ == (match handle {
                Ok(held) => SessionView {
                    status: Status::Recording,
                    device: Some(held),
                    ..old(self)@
                },
                Err(_) => old(self)@,
            }),
            done == (match handle {
                Ok(_) => Ok(()),
                Err(error) => Err(acquire_failure(error)),
            }),
    {
        match handle {
            Ok(held) => {
                self.device = Some(held);
                self.status = Status::Recording;
                Ok(())
            },
            Err(error) => Err(CaptureError::from_acquire(error)),
        }
    }

    /// A start for which the device was asked beforehand: what the session
    /// does with the answer of the capture device. Valid in `RegionSelected`;
    /// in any other state the answer is dropped.
    pub fn finish_start(&mut self, acquired: Result<D, AcquireError>) -> (done: Result<
        (),
        CaptureError,
    >)
        requires
            old(self).wf(),
        ensures
            final(self).wf(),
            final(self)@ == old(self)@.step(Input::Start { permitted: true, acquired }),
            done == completion(old(self)@.failure(Input::Start { permitted: true, acquired })),
    {
        match (self.status, self.region) {
            (Status::RegionSelected, Some(region)) => {
                let handle = CaptureHandle::from_answer(region, acquired);
                self.enter_recording(handle)
            },
            _ => Err(CaptureError::InvalidTransition),
        }
    }

    /// Takes a frame from the capture device into the buffer: valid in
    /// `Recording`. The buffer decides what becomes of the frame.
    pub fn push_frame(&mut self, frame: Frame) -> (stored: Result<PushOutcome, CaptureError>)
        requires
            old(self).wf(),
        ensures
            final(self).wf(),
            final(self)@ == old(self)@.step(Input::Capture(frame)),
            stored == (if old(self)@.status == Status::Recording {
                Ok(push_outcome(old(self)@.frames, old(self)@.capacity, frame))
            } else {
                Err(CaptureError::InvalidTransition)
            }),
    {
        if self.status != Status::Recording {
            return Err(CaptureError::InvalidTransition);
        }
        let outcome = self.frames.push(frame);
        Ok(outcome)
    }

    /// Reads the next frame from the capture device into the buffer: valid in
    /// `Recording`, the only state in which `capture` is called. `None` in the
    /// result says that the device had no frame this time.
    pub fn capture_frame<F>(&mut self, capture: F) -> (stored: Result<
        Option<PushOutcome>,
        CaptureError,
    >) where F: FnOnce(&D) -> Option<Frame>
        requires
            old(self).wf(),
            old(self)@.device matches Some(held) ==> call_requires(capture, (&held.device,)),
        ensures
            final(self).wf(),
            old(self)@.status != Status::Recording ==> final(self)@ == old(self)@ && stored
                == Err::<Option<PushOutcome>, CaptureError>(CaptureError::InvalidTransition),
            old(self)@.status == Status::Recording ==> exists|captured: Option<Frame>|
                {
                    &&& #[trigger] call_ensures(capture, (&old(self)@.device->0.device,), captured)
                    &&& final(self)@ == (match captured {
                        Some(frame) => old(self)@.step(Input::Capture(frame)),
                        None => old(self)@,
                    })
                    &&& stored == Ok::<Option<PushOutcome>, CaptureError>(
                        match captured {
                            Some(frame) => Some(
                                push_outcome(old(self)@.frames, old(self)@.capacity, frame),
                            ),
                            None => None,
                        },
                    )
                },
    {
        let captured = match &self.device {
            Some(held) => held.next_frame(capture),
            None => {
                return Err(CaptureError::InvalidTransition);
            },
        };
        match captured {
            Some(frame) => {
                let outcome = self.frames.push(frame);
                Ok(Some(outcome))
            },
            None => Ok(None),
        }
    }

    /// Stops the recording: valid in `Recording`. The device is handed to
    /// `release`, which halts it and waits, no longer than its own bound, for
    /// the release to be confirmed. If it is, the session is `Stopped` and the
    /// buffered frames are returned oldest first. If it is not, the frames are
    /// discarded and the session is `Idle` again.
    pub fn stop_recording<F>(&mut self, release: F) -> (stopped: Result<
        Artifact,
        CaptureError,
    >) where F: FnOnce(D) -> ReleaseOutcome
        requires
            old(self).wf(),
            old(self)@.device matches Some(held) ==> call_requires(release, (held.device,)),
        ensures
            final(self).wf(),
            old(self)@.status != Status::Recording ==> final(self)@ == old(self)@ && stopped
                == Err::<Artifact, CaptureError>(CaptureError::InvalidTransition),
            old(self)@.status == Status::Recording ==> exists|outcome: ReleaseOutcome|
                {
                    &&& #[trigger] call_ensures(release, (old(self)@.device->0.device,), outcome)
                    &&& final(self)@ == old(self)@.step(Input::Stop(outcome))
                    &&& match stopped {
                        Ok(artifact) => outcome == ReleaseOutcome::Released && artifact.frames@
                            == old(self)@.frames,
                        Err(error) => outcome == ReleaseOutcome::TimedOut && error
                            == CaptureError::DeviceReleaseTimeout,
                    }
                },
    {
        let held = match self.device.take() {
            Some(held) => held,
            None => {
                return Err(CaptureError::InvalidTransition);
            },
        };
        let outcome = held.release(release);
        let frames = self.frames.drain();
        match outcome {
            ReleaseOutcome::Released => {
                self.status = Status::Stopped;
                Ok(Artifact { frames })
            },
            ReleaseOutcome::TimedOut => {
                self.status = Status::Idle;
                self.region = None;
                Err(CaptureError::DeviceReleaseTimeout)
            },
        }
    }

    /// Aborts: valid in every state but `Stopped`, and leads to `Idle`. While
    /// recording, the device is handed to `release` and the buffered frames
    /// are discarded; a release that is not confirmed in time is reported, and
    /// the session is `Idle` all the same.
    pub fn cancel<F>(&mut self, release: F) -> (done: Result<(), CaptureError>) where
        F: FnOnce(D) -> ReleaseOutcome,
        requires
            old(self).wf(),
            old(self)@.device matches Some(held) ==> call_requires(release, (held.device,)),
        ensures
            final(self).wf(),
            old(self)@.status == Status::Stopped ==> final(self)@ == old(self)@ && done == Err::<
                (),
                CaptureError,
            >(CaptureError::InvalidTransition),
            old(self)@.status != Status::Stopped ==> final(self)@ == SessionView::<D>::idle(
                old(self)@.capacity,
            ),
            old(self)@.status == Status::Idle || old(self)@.status == Status::RegionSelected
                ==> done == Ok::<(), CaptureError>(()),
            old(self)@.status == Status::Recording ==> exists|outcome: ReleaseOutcome|
                {
                    &&& #[trigger] call_ensures(release, (old(self)@.device->0.device,), outcome)
                    &&& final(self)@ == old(self)@.step(Input::Cancel(outcome))
                    &&& done == completion(old(self)@.failure(Input::Cancel(outcome)))
                },
    {
        if self.status == Status::Stopped {
            return Err(CaptureError::InvalidTransition);
        }
        let done = match self.device.take() {
            Some(held) => match held.release(release) {
                ReleaseOutcome::Released => Ok(()),
                ReleaseOutcome::TimedOut => Err(CaptureError::DeviceReleaseTimeout),
            },
            None => Ok(()),
        };
        self.frames.clear();
        self.region = None;
        self.status = Status::Idle;
        done
    }

    /// Ends the session after the hand-over: valid in `Stopped`, and leads to
    /// `Idle`. The region and the preview path are discarded.
    pub fn reset(&mut self) -> (done: Result<(), CaptureError>)
        requires
            old(self).wf(),
        ensures
            final(self).wf(),
            final(self)@ == old(self)@.step(Input::Reset),
            done == completion(old(self)@.failure(Input::Reset)),
    {
        if self.status != Status::Stopped {
            return Err(CaptureError::InvalidTransition);
        }
        assert(self.frames@ =~= Seq::<Frame>::empty());
        self.region = None;
        self.preview_path = None;
        self.status = Status::Idle;
        Ok(())
    }

    /// Records where the preview of the finished recording was written: valid
    /// in `Stopped`.
    pub fn set_preview_path(&mut self, path: String) -> (done: Result<(), CaptureError>)
        requires
            old(self).wf(),
        ensures
            final(self).wf(),
            final(self)@ == old(self)@.step(Input::Preview(path@)),
            done == completion(old(self)@.failure(Input::Preview(path@))),
    {
        if self.status != Status::Stopped {
            return Err(CaptureError::InvalidTransition);
        }
        self.preview_path = Some(path);
        Ok(())
    }
}

impl<D> Default for AppState<D> {
    /// An idle session with a buffer of the default capacity.
    fn default() -> (session: AppState<D>)
        ensures
            session.wf(),
            session@ == SessionView::<D>::idle(DEFAULT_CAPACITY as nat),
    {
        AppState::new(DEFAULT_CAPACITY)
    }
}

/// Every step keeps the session invariant.
pub proof fn lemma_step_keeps_invariant<D>(state: SessionView<D>, input: Input<D>)
    requires
        state.valid(),
        input.valid(),
    ensures
        state.step(input).valid(),
{
    if let Input::Capture(frame) = input {
        lemma_push_keeps_order(state.frames, state.capacity, frame);
    }
}

/// The states of the machine: whatever sequence of commands arrives, and
/// whatever the capture device answers, the session invariant holds after
/// each of them. The session is in one of its four states, it holds a region
/// in every state but `Idle` and the device exactly in `Recording`.
pub proof fn lemma_run_keeps_invariant<D>(state: SessionView<D>, inputs: Seq<Input<D>>)
    requires
        state.valid(),
        forall|i: int| 0 <= i < inputs.len() ==> (#[trigger] inputs[i]).valid(),
    ensures
        state.run(inputs).valid(),
        state.run(inputs).status == Status::Idle <==> state.run(inputs).region is None,
        state.run(inputs).status == Status::Recording <==> state.run(inputs).device is Some,
    decreases inputs.len(),
{
    if inputs.len() > 0 {
        lemma_run_keeps_invariant(state, inputs.drop_last());
        lemma_step_keeps_invariant(state.run(inputs.drop_last()), inputs.last());
    }
}

/// Invalid transitions: a command fails with `InvalidTransition` exactly when
/// the transition table does not list it for the current state, and it then
/// leaves the state as it was.
pub proof fn lemma_invalid_transition<D>(state: SessionView<D>, input: Input<D>)
    ensures
        state.failure(input) == Some(CaptureError::InvalidTransition) <==> !permits(
            state.status,
            input.command(),
        ),
        !permits(state.status, input.command()) ==> state.step(input) == state,
{
}

/// No command leaves the session half-way: one that fails leaves the state as
/// it was, but for a release that timed out, which resets the session to
/// `Idle`.
pub proof fn lemma_failure_leaves_state<D>(state: SessionView<D>, input: Input<D>)
    requires
        state.valid(),
    ensures
        state.failure(input) matches Some(error) ==> state.step(input) == (if error
            == CaptureError::DeviceReleaseTimeout {
            SessionView::<D>::idle(state.capacity)
        } else {
            state
        }),
{
}

/// What a recording gathers: a session that records and takes `captured`,
/// frame by frame, holds what its buffer makes of them, and is otherwise as it
/// was. A stop then hands out exactly these frames.
pub proof fn lemma_captures_fill_buffer<D>(state: SessionView<D>, captured: Seq<Frame>)
    requires
        state.status == Status::Recording,
    ensures
        state.run(Seq::new(captured.len(), |i: int| Input::Capture(captured[i]))) == (SessionView {
            frames: after_pushes(state.frames, state.capacity, captured),
            ..state
        }),
    decreases captured.len(),
{
    let inputs = Seq::new(captured.len(), |i: int| Input::<D>::Capture(captured[i]));
    if captured.len() == 0 {
        assert(state.run(inputs) == state);
    } else {
        let earlier = captured.drop_last();
        lemma_captures_fill_buffer(state, earlier);
        assert(inputs.drop_last() =~= Seq::new(
            earlier.len(),
            |i: int| Input::<D>::Capture(earlier[i]),
        ));
        assert(inputs.last() == Input::<D>::Capture(captured.last()));
    }
}

/// Resource release: a stop or a cancel while recording leaves the session
/// without the device and without frames, whether or not the release was
/// confirmed in time; after a cancel or a timeout the session is `Idle`.
pub proof fn lemma_device_released<D>(state: SessionView<D>, input: Input<D>)
    requires
        state.valid(),
        state.status == Status::Recording,
        input is Stop || input is Cancel,
    ensures
        state.step(input).device is None,
        state.step(input).frames.len() == 0,
        state.step(input).status != Status::Recording,
        input is Cancel || input == Input::<D>::Stop(ReleaseOutcome::TimedOut) ==> state.step(input)
            == SessionView::<D>::idle(state.capacity),
{
}

} // verus!
