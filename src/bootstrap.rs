use vstd::prelude::*;

use crate::platform::{spec_is_desktop, spec_supports_effects, BuildMode, Platform};

verus! {

/// One step of startup, in the order they run.
#[derive(Clone, Copy, Debug, PartialEq, Eq, Structural)]
pub enum Step {
    /// Install the process-wide log sink.
    SetupLogging,
    /// Register the updater and spawn the detached update check.
    RegisterUpdater,
    /// Read the persisted configuration for the transparency flag.
    ReadConfig,
    /// Build the main window.
    CreateWindow,
    /// Decorate the main window with the platform effect.
    ApplyEffect,
    /// Put the empty eval channel into the managed state.
    RegisterSharedState,
}

/// Where startup stands.
#[derive(Clone, Copy, Debug, PartialEq, Eq, Structural)]
pub enum Status {
    /// The step is the one to perform next.
    Pending(Step),
    /// Every step completed.
    Ready,
    /// The step failed; startup is halted for good.
    Failed(Step),
}

/// What the host reports back after acting.
#[derive(Clone, Copy, Debug, PartialEq, Eq, Structural)]
pub enum Event {
    /// The pending step completed.
    Completed,
    /// The configuration was read, with this transparency flag.
    ConfigLoaded(bool),
    /// The pending step failed.
    StepFailed,
    /// The detached update check ended, successfully or not.
    UpdateCheckFinished(bool),
}

/// The startup state machine.
#[derive(Clone, Copy, Debug, PartialEq, Eq, Structural)]
pub struct Bootstrap {
    pub mode: BuildMode,
    pub platform: Platform,
    /// The configured transparency flag, once read.
    pub transparent: bool,
    /// Whether the main window has been built.
    pub window_created: bool,
    pub status: Status,
}

/// The updater runs in production desktop builds only.
pub open spec fn spec_updater_enabled(mode: BuildMode, platform: Platform) -> bool {
    mode == BuildMode::Production && spec_is_desktop(platform)
}

/// What follows the updater step (or its place, where it is skipped).
pub open spec fn spec_after_updater(platform: Platform) -> Status {
    match platform {
        Platform::MacOs | Platform::Windows => Status::Pending(Step::ReadConfig),
        Platform::Linux => Status::Pending(Step::CreateWindow),
        Platform::Mobile => Status::Pending(Step::RegisterSharedState),
    }
}

/// What follows a completed step.
pub open spec fn spec_after(b: Bootstrap, s: Step) -> Status {
    match s {
        Step::SetupLogging => if spec_updater_enabled(b.mode, b.platform) {
            Status::Pending(Step::RegisterUpdater)
        } else {
            spec_after_updater(b.platform)
        },
        Step::RegisterUpdater => spec_after_updater(b.platform),
        Step::ReadConfig => Status::Pending(Step::CreateWindow),
        Step::CreateWindow => if spec_supports_effects(b.platform) && b.transparent {
            Status::Pending(Step::ApplyEffect)
        } else {
            Status::Pending(Step::RegisterSharedState)
        },
        Step::ApplyEffect => Status::Pending(Step::RegisterSharedState),
        Step::RegisterSharedState => Status::Ready,
    }
}

/// The state after one event.
pub open spec fn spec_next(b: Bootstrap, e: Event) -> Bootstrap {
    match b.status {
        Status::Pending(s) => match e {
            Event::StepFailed => Bootstrap { status: Status::Failed(s), ..b },
            Event::ConfigLoaded(t) => if s == Step::ReadConfig {
                Bootstrap { transparent: t, status: spec_after(b, s), ..b }
            } else {
                b
            },
            Event::Completed => if s == Step::ReadConfig {
                b
            } else {
                Bootstrap {
                    window_created: b.window_created || s == Step::CreateWindow,
                    status: spec_after(b, s),
                    ..b
                }
            },
            Event::UpdateCheckFinished(_) => b,
        },
        _ => b,
    }
}

/// The state after a sequence of events.
pub open spec fn spec_run(b: Bootstrap, events: Seq<Event>) -> Bootstrap
    decreases events.len(),
{
    if events.len() == 0 {
        b
    } else {
        spec_run(spec_next(b, events[0]), events.drop_first())
    }
}

/// The state before any step.
pub open spec fn spec_start(mode: BuildMode, platform: Platform) -> Bootstrap {
    Bootstrap {
        mode,
        platform,
        transparent: false,
        window_created: false,
        status: Status::Pending(Step::SetupLogging),
    }
}

/// The invariant of every reachable state: on a platform with a window, the
/// effect step and the shared-state step, and readiness, come only after the
/// window was built.
pub open spec fn spec_wf(b: Bootstrap) -> bool {
    spec_is_desktop(b.platform) && (b.status == Status::Pending(Step::ApplyEffect) || b.status
        == Status::Pending(Step::RegisterSharedState) || b.status == Status::Ready)
        ==> b.window_created
}

impl Bootstrap {
    /// The state before any step.
    pub fn start(mode: BuildMode, platform: Platform) -> (r: Bootstrap)
        ensures
            r == spec_start(mode, platform),
            spec_wf(r),
    {
        Bootstrap {
            mode,
            platform,
            transparent: false,
            window_created: false,
            status: Status::Pending(Step::SetupLogging),
        }
    }

    fn after(&self, s: Step) -> (r: Status)
        ensures
            r == spec_after(*self, s),
    {
        match s {
            Step::SetupLogging => if matches!(self.mode, BuildMode::Production)
                && self.platform.is_desktop() {
                Status::Pending(Step::RegisterUpdater)
            } else {
                after_updater(self.platform)
            },
            Step::RegisterUpdater => after_updater(self.platform),
            Step::ReadConfig => Status::Pending(Step::CreateWindow),
            Step::CreateWindow => if self.platform.supports_effects() && self.transparent {
                Status::Pending(Step::ApplyEffect)
            } else {
                Status::Pending(Step::RegisterSharedState)
            },
            Step::ApplyEffect => Status::Pending(Step::RegisterSharedState),
            Step::RegisterSharedState => Status::Ready,
        }
    }

    /// Takes in what the host reports. A failure halts startup at the pending
    /// step; the end of the update check never changes where startup stands.
    pub fn handle(&mut self, e: Event)
        ensures
            *final(self) == spec_next(*old(self), e),
            spec_wf(*old(self)) ==> spec_wf(*final(self)),
    {
        if let Status::Pending(s) = self.status {
            match e {
                Event::StepFailed => {
                    self.status = Status::Failed(s);
                },
                Event::ConfigLoaded(t) => {
                    if matches!(s, Step::ReadConfig) {
                        self.transparent = t;
                        self.status = self.after(s);
                    }
                },
                Event::Completed => {
                    if !matches!(s, Step::ReadConfig) {
                        self.window_created = self.window_created || matches!(
                            s,
                            Step::CreateWindow
                        );
                        self.status = self.after(s);
                    }
                },
                Event::UpdateCheckFinished(_) => {},
            }
        }
    }

    /// The step the host should perform now, if startup is still under way.
    pub fn pending_step(&self) -> (r: Option<Step>)
        ensures
            r == (match self.status {
                Status::Pending(s) => Some(s),
                _ => None,
            }),
    {
        match self.status {
            Status::Pending(s) => Some(s),
            _ => None,
        }
    }

    pub fn is_ready(&self) -> (r: bool)
        ensures
            r == (self.status == Status::Ready),
    {
        matches!(self.status, Status::Ready)
    }
}

fn after_updater(platform: Platform) -> (r: Status)
    ensures
        r == spec_after_updater(platform),
{
    match platform {
        Platform::MacOs | Platform::Windows => Status::Pending(Step::ReadConfig),
        Platform::Linux => Status::Pending(Step::CreateWindow),
        Platform::Mobile => Status::Pending(Step::RegisterSharedState),
    }
}

/// Whatever the host reports, every state reached from a well-formed one is
/// well-formed: no shared state is registered, and startup is never ready,
/// before the main window exists.
pub proof fn lemma_run_preserves_wf(b: Bootstrap, events: Seq<Event>)
    requires
        spec_wf(b),
    ensures
        spec_wf(spec_run(b, events)),
    decreases events.len(),
{
    if events.len() > 0 {
        lemma_run_preserves_wf(spec_next(b, events[0]), events.drop_first());
    }
}

/// The end of the detached update check, successful or failed, reported at
/// any point of startup, leaves the outcome of startup unchanged.
pub proof fn lemma_update_outcome_ignored(b: Bootstrap, events: Seq<Event>, i: int, ok: bool)
    requires
        0 <= i <= events.len(),
    ensures
        spec_run(b, events.insert(i, Event::UpdateCheckFinished(ok))) == spec_run(b, events),
    decreases events.len(),
{
    let with = events.insert(i, Event::UpdateCheckFinished(ok));
    if i == 0 {
        assert(with.drop_first() =~= events);
    } else {
        assert(with[0] == events[0]);
        assert(with.drop_first() =~= events.drop_first().insert(i - 1, Event::UpdateCheckFinished(ok)));
        lemma_update_outcome_ignored(spec_next(b, events[0]), events.drop_first(), i - 1, ok);
    }
}

/// A failed step halts startup: no later event moves it on.
pub proof fn lemma_failure_is_final(b: Bootstrap, events: Seq<Event>)
    requires
        b.status is Failed,
    ensures
        spec_run(b, events) == b,
    decreases events.len(),
{
    if events.len() > 0 {
        lemma_failure_is_final(spec_next(b, events[0]), events.drop_first());
    }
}

/// Once the window is built, the effect step comes next exactly when the
/// platform supports effects and transparency is configured.
pub proof fn lemma_effect_step_iff(b: Bootstrap)
    requires
        b.status == Status::Pending(Step::CreateWindow),
    ensures
        spec_next(b, Event::Completed).status == Status::Pending(Step::ApplyEffect) <==> (
        spec_supports_effects(b.platform) && b.transparent),
{
}

} // verus!
