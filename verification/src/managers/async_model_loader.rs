//! Async model loading infrastructure
//!
//! The state of a background model load: whether one is under way, which
//! model, and whether it was asked to stop; and the progress reports of its
//! stages. The application runs the load on its own thread, calling
//! [`AsyncModelLoader::check_cancelled`] between stages and
//! [`AsyncModelLoader::finish_load`] at the end.

use vstd::prelude::*;

verus! {

/// Progress information for model loading
#[derive(Clone, Debug)]
pub struct ModelLoadProgress {
    pub model_id: String,
    /// "initializing", "loading" or "ready"
    pub stage: String,
    pub progress_percent: u32,
}

/// A stage of a model load.
#[derive(Clone, Copy, Debug, PartialEq, Eq, Structural)]
pub enum LoadStage {
    Initializing,
    Loading,
    Ready,
}

/// The name of a stage in progress reports.
pub open spec fn stage_name(stage: LoadStage) -> Seq<char> {
    match stage {
        LoadStage::Initializing => "initializing"@,
        LoadStage::Loading => "loading"@,
        LoadStage::Ready => "ready"@,
    }
}

/// The progress, in percent, reported at a stage.
pub open spec fn stage_percent(stage: LoadStage) -> u32 {
    match stage {
        LoadStage::Initializing => 0,
        LoadStage::Loading => 50,
        LoadStage::Ready => 100,
    }
}

/// The progress report of `model_id` at a stage.
pub fn load_progress(model_id: &String, stage: LoadStage) -> (p: ModelLoadProgress)
    ensures
        p.model_id@ == model_id@,
        p.stage@ == stage_name(stage),
        p.progress_percent == stage_percent(stage),
{
    let (name, percent) = match stage {
        LoadStage::Initializing => ("initializing".to_owned(), 0u32),
        LoadStage::Loading => ("loading".to_owned(), 50u32),
        LoadStage::Ready => ("ready".to_owned(), 100u32),
    };
    ModelLoadProgress { model_id: model_id.clone(), stage: name, progress_percent: percent }
}

/// What a caller waiting for a load does next.
#[derive(Clone, Copy, Debug, PartialEq, Eq, Structural)]
pub enum WaitStep {
    /// Nothing is loading any more: the wait is over.
    Completed,
    /// The wait lasted longer than allowed.
    TimedOut,
    /// Sleep, then ask again.
    Sleep,
}

/// Async model loader
///
/// Tracks a background model load without blocking the main thread.
pub struct AsyncModelLoader {
    is_loading: bool,
    cancel_signal: bool,
    current_model: Option<String>,
    phase: u8,
}

/// The abstract state of a loader.
pub struct LoaderView {
    pub is_loading: bool,
    pub cancel_requested: bool,
    pub current_model: Option<Seq<char>>,
    /// How far the load has gone: 0 before the first report, up to 4 once
    /// the ready report has been made.
    pub phase: nat,
}

impl View for AsyncModelLoader {
    type V = LoaderView;

    closed spec fn view(&self) -> LoaderView {
        LoaderView {
            is_loading: self.is_loading,
            cancel_requested: self.cancel_signal,
            current_model: match self.current_model {
                Some(m) => Some(m@),
                None => None,
            },
            phase: self.phase as nat,
        }
    }
}

/// A loader that is not loading anything.
pub open spec fn idle_loader(v: LoaderView, cancel_requested: bool) -> bool {
    &&& !v.is_loading
    &&& v.current_model is None
    &&& v.cancel_requested == cancel_requested
    &&& v.phase == 0
}

/// What the loading thread does next.
#[derive(Clone, Debug)]
pub enum LoadAction {
    /// Report this progress.
    Report(ModelLoadProgress),
    /// Wait `ms` milliseconds (the model is being loaded).
    Pause { ms: u64 },
    /// The load was cancelled; it has ended.
    Cancelled,
    /// The load is over (or none was under way).
    Finished,
}

/// The abstract form of a loading thread's next action.
pub enum LoadActionView {
    Report(LoadStage),
    Pause(nat),
    Cancelled,
    Finished,
}

/// The loader once its load has ended.
pub open spec fn ended(v: LoaderView) -> LoaderView {
    LoaderView { is_loading: false, current_model: None, phase: 0, ..v }
}

/// One step of a load: report initializing; unless cancelled, report
/// loading; pause 100 ms while the model loads; unless cancelled, report
/// ready; then end. A cancellation found at a check ends the load.
pub open spec fn next_load(v: LoaderView) -> (LoaderView, LoadActionView) {
    if v.current_model is None {
        (v, LoadActionView::Finished)
    } else if v.phase == 0 {
        (LoaderView { phase: 1, ..v }, LoadActionView::Report(LoadStage::Initializing))
    } else if v.phase == 1 {
        if v.cancel_requested {
            (ended(v), LoadActionView::Cancelled)
        } else {
            (LoaderView { phase: 2, ..v }, LoadActionView::Report(LoadStage::Loading))
        }
    } else if v.phase == 2 {
        (LoaderView { phase: 3, ..v }, LoadActionView::Pause(100))
    } else if v.phase == 3 {
        if v.cancel_requested {
            (ended(v), LoadActionView::Cancelled)
        } else {
            (LoaderView { phase: 4, ..v }, LoadActionView::Report(LoadStage::Ready))
        }
    } else {
        (ended(v), LoadActionView::Finished)
    }
}

/// Whether an action is the one described, for a load of `model`.
pub open spec fn action_is(a: LoadAction, expected: LoadActionView, model: Seq<char>) -> bool {
    match expected {
        LoadActionView::Report(stage) => a matches LoadAction::Report(p) && p.model_id@ == model
            && p.stage@ == stage_name(stage) && p.progress_percent == stage_percent(stage),
        LoadActionView::Pause(ms) => a matches LoadAction::Pause { ms: m } && m == ms,
        LoadActionView::Cancelled => a is Cancelled,
        LoadActionView::Finished => a is Finished,
    }
}

/// Load law: a load that is not cancelled reports initializing, then
/// loading, pauses, reports ready and ends; a cancellation requested before
/// the first check ends it right after the initializing report.
pub proof fn lemma_load_stages(model: Seq<char>, cancelled: bool)
    ensures
        ({
            let v0 = LoaderView {
                is_loading: true,
                cancel_requested: cancelled,
                current_model: Some(model),
                phase: 0,
            };
            let s1 = next_load(v0);
            let s2 = next_load(s1.0);
            let s3 = next_load(s2.0);
            let s4 = next_load(s3.0);
            let s5 = next_load(s4.0);
            &&& s1.1 == LoadActionView::Report(LoadStage::Initializing)
            &&& cancelled ==> s2.1 == LoadActionView::Cancelled && idle_loader(s2.0, true)
            &&& !cancelled ==> {
                &&& s2.1 == LoadActionView::Report(LoadStage::Loading)
                &&& s3.1 == LoadActionView::Pause(100)
                &&& s4.1 == LoadActionView::Report(LoadStage::Ready)
                &&& s5.1 == LoadActionView::Finished
                &&& idle_loader(s5.0, false)
            }
        }),
{
}

impl AsyncModelLoader {
    /// Creates a new async model loader
    pub fn new() -> (l: Self)
        ensures
            idle_loader(l@, false),
    {
        AsyncModelLoader { is_loading: false, cancel_signal: false, current_model: None, phase: 0 }
    }

    /// Checks if a model is currently being loaded
    pub fn is_loading(&self) -> (b: bool)
        ensures
            b == self@.is_loading,
    {
        self.is_loading
    }

    /// Gets the currently loading model ID
    pub fn current_model(&self) -> (m: Option<String>)
        ensures
            match m {
                Some(s) => self@.current_model == Some(s@),
                None => self@.current_model is None,
            },
    {
        match &self.current_model {
            Some(s) => Some(s.clone()),
            None => None,
        }
    }

    /// Starts loading a model: `true` if loading started, `false` (changing
    /// nothing) if a load is already in progress.
    pub fn load_async(&mut self, model_id: String) -> (started: bool)
        ensures
            started == !old(self)@.is_loading,
            started ==> final(self)@ == (LoaderView {
                is_loading: true,
                cancel_requested: false,
                current_model: Some(model_id@),
                phase: 0,
            }),
            !started ==> final(self)@ == old(self)@,
    {
        if self.is_loading {
            return false;
        }
        self.is_loading = true;
        self.current_model = Some(model_id);
        self.cancel_signal = false;
        self.phase = 0;
        true
    }

    /// Cancels the current model loading operation
    pub fn cancel(&mut self)
        ensures
            final(self)@ == (LoaderView { cancel_requested: true, ..old(self)@ }),
    {
        self.cancel_signal = true;
    }

    /// Called by the loading thread between stages: when a cancellation was
    /// requested, the load ends (nothing is loading any more) and `true` is
    /// returned; otherwise nothing changes.
    pub fn check_cancelled(&mut self) -> (cancelled: bool)
        ensures
            cancelled == old(self)@.cancel_requested,
            cancelled ==> idle_loader(final(self)@, true),
            !cancelled ==> final(self)@ == old(self)@,
    {
        if self.cancel_signal {
            self.is_loading = false;
            self.current_model = None;
            self.phase = 0;
            true
        } else {
            false
        }
    }

    /// One round of waiting for the current load, `elapsed_nanos`
    /// nanoseconds after the wait began: completed once nothing is loading,
    /// timed out once more than `timeout_secs` seconds have passed, and
    /// otherwise another round after a pause.
    pub fn wait_step(&self, elapsed_nanos: u128, timeout_secs: u64) -> (step: WaitStep)
        ensures
            step == (if !self@.is_loading {
                WaitStep::Completed
            } else if elapsed_nanos > timeout_secs * 1_000_000_000 {
                WaitStep::TimedOut
            } else {
                WaitStep::Sleep
            }),
    {
        if !self.is_loading {
            WaitStep::Completed
        } else if elapsed_nanos > (timeout_secs as u128) * 1_000_000_000 {
            WaitStep::TimedOut
        } else {
            WaitStep::Sleep
        }
    }

    /// Called by the loading thread when the model is ready.
    pub fn finish_load(&mut self)
        ensures
            idle_loader(final(self)@, old(self)@.cancel_requested),
    {
        self.is_loading = false;
        self.current_model = None;
        self.phase = 0;
    }

    /// The next step of the loading thread (see [`next_load`]); the thread
    /// carries out the action it gets and asks again until the load is
    /// cancelled or finished.
    pub fn advance(&mut self) -> (a: LoadAction)
        ensures
            final(self)@ == next_load(old(self)@).0,
            old(self)@.current_model matches Some(m) ==> action_is(a, next_load(old(self)@).1, m),
            old(self)@.current_model is None ==> a is Finished,
    {
        let model = match &self.current_model {
            Some(m) => m.clone(),
            None => return LoadAction::Finished,
        };
        if self.phase == 0 {
            self.phase = 1;
            LoadAction::Report(load_progress(&model, LoadStage::Initializing))
        } else if self.phase == 1 {
            if self.check_cancelled() {
                LoadAction::Cancelled
            } else {
                self.phase = 2;
                LoadAction::Report(load_progress(&model, LoadStage::Loading))
            }
        } else if self.phase == 2 {
            self.phase = 3;
            LoadAction::Pause { ms: 100 }
        } else if self.phase == 3 {
            if self.check_cancelled() {
                LoadAction::Cancelled
            } else {
                self.phase = 4;
                LoadAction::Report(load_progress(&model, LoadStage::Ready))
            }
        } else {
            self.finish_load();
            LoadAction::Finished
        }
    }
}

} // verus!
