//! The focused window, the shared focus state, and the decisions of the
//! background sampler that keeps that state fresh.
//!
//! The sampler itself runs on a thread of the host adapter. What it does
//! next is decided here: the adapter reports where the loop stands, and gets
//! back whether to query the window system, to sleep, or to leave.

use vstd::prelude::*;

verus! {

/// The window that holds input focus: its title and the file name of the
/// executable that owns it.
pub struct FocusedWindow {
    pub title: String,
    pub process_name: String,
}

/// A focused window as two character sequences.
pub struct FocusedWindowView {
    pub title: Seq<char>,
    pub process_name: Seq<char>,
}

impl View for FocusedWindow {
    type V = FocusedWindowView;

    open spec fn view(&self) -> FocusedWindowView {
        FocusedWindowView { title: self.title@, process_name: self.process_name@ }
    }
}

impl Clone for FocusedWindow {
    fn clone(&self) -> (copy: Self)
        ensures
            copy == *self,
    {
        FocusedWindow { title: self.title.clone(), process_name: self.process_name.clone() }
    }
}

impl FocusedWindow {
    /// A focused window with the given title and executable file name.
    pub fn new(title: String, process_name: String) -> (window: Self)
        ensures
            window.title == title,
            window.process_name == process_name,
    {
        FocusedWindow { title, process_name }
    }
}

/// The most recently observed focused window, or nothing before the first
/// successful sample.
pub struct FocusState {
    current: Option<FocusedWindow>,
}

impl View for FocusState {
    type V = Option<FocusedWindow>;

    closed spec fn view(&self) -> Option<FocusedWindow> {
        self.current
    }
}

impl FocusState {
    /// The state before any sample was taken.
    pub fn new() -> (state: Self)
        ensures
            state@ is None,
    {
        FocusState { current: None }
    }

    /// A copy of the stored window.
    pub fn read(&self) -> (snapshot: Option<FocusedWindow>)
        ensures
            snapshot == self@,
    {
        match &self.current {
            Some(window) => Some(window.clone()),
            None => None,
        }
    }

    /// Replaces the stored window.
    pub fn write(&mut self, window: FocusedWindow)
        ensures
            final(self)@ == Some(window),
    {
        self.current = Some(window);
    }

    /// Takes in the outcome of one query of the window system: a window
    /// replaces the stored one, a failed query leaves it as it was.
    pub fn record_sample(&mut self, sample: Option<FocusedWindow>)
        ensures
            final(self)@ == (match sample {
                Some(window) => Some(window),
                None => old(self)@,
            }),
    {
        match sample {
            Some(window) => {
                self.write(window);
            },
            None => {},
        }
    }
}

/// Longest time, in milliseconds, that the sampler sleeps between two
/// queries.
pub const SAMPLE_INTERVAL_MS: u64 = 1000;

/// Where the sampler loop stands when it asks what to do next.
#[derive(Debug, Clone, Copy, PartialEq, Eq, Structural)]
pub enum SamplerStage {
    /// At the head of the loop: at its start, or after a sleep ended, whether
    /// by a wake or by the interval running out.
    Resumed,
    /// A query of the window system has just been made and recorded.
    Sampled,
}

/// What the sampler loop does next.
#[derive(Debug, Clone, Copy, PartialEq, Eq, Structural)]
pub enum SamplerAction {
    /// Query the window system and record the outcome.
    Sample,
    /// Sleep until woken, for at most `millis` milliseconds.
    Park { millis: u64 },
    /// Leave the loop.
    Exit,
}

/// The running flag of the sampler and the handle by which its thread is
/// woken. `H` is whatever the host uses to wake a thread.
pub struct SamplerControl<H> {
    running: bool,
    thread: Option<H>,
}

/// The action that follows `stage` under the given running flag: a stopped
/// sampler leaves, a running one samples at the head of the loop and sleeps
/// for the interval after a sample.
pub open spec fn action_after(stage: SamplerStage, running: bool) -> SamplerAction {
    if !running {
        SamplerAction::Exit
    } else {
        match stage {
            SamplerStage::Resumed => SamplerAction::Sample,
            SamplerStage::Sampled => SamplerAction::Park { millis: SAMPLE_INTERVAL_MS },
        }
    }
}

impl<H> SamplerControl<H> {
    /// Whether the sampler is meant to run.
    pub closed spec fn running(&self) -> bool {
        self.running
    }

    /// The handle of the sampler thread, if one was registered.
    pub closed spec fn thread(&self) -> Option<H> {
        self.thread
    }

    /// A control for a sampler that was never started.
    pub fn new() -> (control: Self)
        ensures
            !control.running(),
            control.thread() is None,
    {
        SamplerControl { running: false, thread: None }
    }

    /// Reads the running flag.
    pub fn is_running(&self) -> (running: bool)
        ensures
            running == self.running(),
    {
        self.running
    }

    /// Registers the handle of the thread that runs the sampler loop.
    pub fn register_thread(&mut self, handle: H)
        ensures
            final(self).thread() == Some(handle),
            final(self).running() == old(self).running(),
    {
        self.thread = Some(handle);
    }

    /// Decides what the sampler loop does next.
    pub fn next_action(&self, stage: SamplerStage) -> (action: SamplerAction)
        ensures
            action == action_after(stage, self.running()),
    {
        if !self.running {
            SamplerAction::Exit
        } else {
            match stage {
                SamplerStage::Resumed => SamplerAction::Sample,
                SamplerStage::Sampled => SamplerAction::Park { millis: SAMPLE_INTERVAL_MS },
            }
        }
    }
}

/// Marks the sampler as running. The host then starts the thread that runs
/// the loop and registers its handle.
pub fn run_thread<H>(control: &mut SamplerControl<H>)
    ensures
        final(control).running(),
        final(control).thread() == old(control).thread(),
{
    control.running = true;
}

/// Asks for a fresh sample ahead of schedule: returns the handle that the
/// host has to wake, or nothing while no sampler thread is registered.
pub fn update_active<H>(control: &SamplerControl<H>) -> (wake: Option<&H>)
    ensures
        wake is Some == control.thread() is Some,
        wake matches Some(handle) ==> Some(*handle) == control.thread(),
{
    control.thread.as_ref()
}

/// Stops the sampler: clears the running flag and asks for one last wake,
/// so that a sleeping loop sees the flag at once.
pub fn stop_thread<H>(control: &mut SamplerControl<H>) -> (wake: Option<&H>)
    ensures
        !final(control).running(),
        final(control).thread() == old(control).thread(),
        wake is Some == old(control).thread() is Some,
        wake matches Some(handle) ==> Some(*handle) == old(control).thread(),
{
    control.running = false;
    update_active(control)
}

/// Once stopped, the sampler loop leaves at its next decision, wherever it
/// stands, and never starts another query or another sleep.
pub proof fn stopped_sampler_exits<H>(control: SamplerControl<H>, stage: SamplerStage)
    requires
        !control.running(),
    ensures
        action_after(stage, control.running()) == SamplerAction::Exit,
{
}

/// A running sampler never sleeps longer than the sampling interval, and
/// sleeps only between two queries.
pub proof fn sleep_is_bounded(stage: SamplerStage, running: bool)
    ensures
        action_after(stage, running) matches SamplerAction::Park { millis } ==> millis
            == SAMPLE_INTERVAL_MS && stage == SamplerStage::Sampled && running,
{
}

} // verus!
