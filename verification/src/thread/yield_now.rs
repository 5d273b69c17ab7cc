//! Yielding to the event loop: which browser mechanism is used, and what has
//! to be cleaned up when the wait is dropped.

use vstd::prelude::*;

use crate::common::Step;
use crate::thread::global::{is_window_or_worker, GlobalKind};

verus! {

/// How long to wait when yielding to the event loop.
#[derive(Clone, Copy, Debug, PartialEq, Eq, Structural)]
pub enum YieldTime {
    /// The scheduler's `user-blocking` priority.
    UserBlocking,
    /// The scheduler's default `user-visible` priority.
    UserVisible,
    /// The scheduler's `background` priority.
    Background,
    /// Wait until the browser is idle.
    Idle,
}

/// Priority handed to `Scheduler.postTask()`.
#[derive(Clone, Copy, Debug, PartialEq, Eq, Structural)]
pub enum TaskPriority {
    /// `user-blocking`.
    UserBlocking,
    /// `user-visible`.
    UserVisible,
    /// `background`.
    Background,
}

/// Mechanism used to yield to the event loop.
#[derive(Clone, Copy, Debug, PartialEq, Eq, Structural)]
pub enum YieldStrategy {
    /// `Scheduler.postTask()`, with the priority to set on the options, if
    /// any (none means the default, `user-visible`).
    Scheduler { priority: Option<TaskPriority> },
    /// `Window.requestIdleCallback()`.
    Idle,
    /// A message through a `MessageChannel`.
    Channel,
    /// Yielding is not supported: the wait finishes at once.
    Unsupported,
}

/// What has to be released when a [`YieldNowFuture`] is dropped before
/// finishing.
#[derive(Clone, Copy, Debug, PartialEq, Eq, Structural)]
pub enum YieldCleanup {
    /// Abort the `AbortController` of the posted task.
    AbortTask,
    /// Cancel the idle callback on the window.
    CancelIdleCallback,
    /// Close the port of the message channel.
    ClosePort,
}

/// The thread has `Scheduler.postTask()`: only windows and workers have a
/// scheduler.
pub open spec fn spec_has_scheduler(global: Option<GlobalKind>, scheduler_present: bool) -> bool {
    is_window_or_worker(global) && scheduler_present
}

/// The thread has `Window.requestIdleCallback()`: only windows have it.
pub open spec fn spec_has_idle_callback(global: Option<GlobalKind>, idle_present: bool) -> bool {
    global == Some(GlobalKind::Window) && idle_present
}

/// The mechanism used for `time` on a thread of type `global`, where
/// `scheduler_present` and `idle_present` say whether the global object
/// holds `scheduler` and `requestIdleCallback`.
pub open spec fn spec_yield_strategy(
    time: YieldTime,
    global: Option<GlobalKind>,
    scheduler_present: bool,
    idle_present: bool,
) -> YieldStrategy {
    if time != YieldTime::Idle && spec_has_scheduler(global, scheduler_present) {
        YieldStrategy::Scheduler {
            priority: match time {
                YieldTime::UserBlocking => Some(TaskPriority::UserBlocking),
                YieldTime::Background => Some(TaskPriority::Background),
                _ => None,
            },
        }
    } else if time == YieldTime::Idle && spec_has_idle_callback(global, idle_present) {
        YieldStrategy::Idle
    } else if is_window_or_worker(global) {
        YieldStrategy::Channel
    } else {
        YieldStrategy::Unsupported
    }
}

/// Which mechanism yielding uses, by thread type and what the thread has:
/// - a window or worker always yields: with a scheduler through it, at the
///   priority asked for (for every time but idle), with an idle callback on
///   a window that has one (for idle), else through a message channel;
/// - any other thread can't yield at all.
pub proof fn lemma_yield_strategy(time: YieldTime, global: Option<GlobalKind>, scheduler_present: bool, idle_present: bool)
    ensures
        ({
            let strategy = spec_yield_strategy(time, global, scheduler_present, idle_present);
            let yields = global is Some && global != Some(GlobalKind::Worklet);
            &&& !yields ==> strategy == YieldStrategy::Unsupported
            &&& yields ==> strategy != YieldStrategy::Unsupported
            &&& yields && time != YieldTime::Idle && !scheduler_present ==> strategy == YieldStrategy::Channel
            &&& yields && scheduler_present && time == YieldTime::UserBlocking
                ==> strategy == (YieldStrategy::Scheduler { priority: Some(TaskPriority::UserBlocking) })
            &&& yields && scheduler_present && time == YieldTime::UserVisible
                ==> strategy == (YieldStrategy::Scheduler { priority: None })
            &&& yields && scheduler_present && time == YieldTime::Background
                ==> strategy == (YieldStrategy::Scheduler { priority: Some(TaskPriority::Background) })
            &&& (strategy == YieldStrategy::Idle <==> (time == YieldTime::Idle && global == Some(GlobalKind::Window)
                && idle_present))
            &&& yields && time == YieldTime::Idle && !(global == Some(GlobalKind::Window) && idle_present)
                ==> strategy == YieldStrategy::Channel
            &&& strategy is Scheduler ==> time != YieldTime::Idle && scheduler_present
        }),
{
}

/// Waits for yielding to the event loop to happen.
#[derive(Debug)]
pub struct YieldNowFuture {
    /// Mechanism in use; `None` once finished or dropped.
    pub state: Option<YieldStrategy>,
    /// Type of the thread the wait was started on.
    pub global: Option<GlobalKind>,
}

impl YieldNowFuture {
    /// Starts yielding to the event loop, picking the mechanism that the
    /// thread supports for the requested `time`.
    pub fn new(time: YieldTime, global: Option<GlobalKind>, scheduler_present: bool, idle_present: bool) -> (future: Self)
        ensures
            future.state == Some(spec_yield_strategy(time, global, scheduler_present, idle_present)),
            future.global == global,
            global is Some && global != Some(GlobalKind::Worklet) && time != YieldTime::Idle && !scheduler_present
                ==> future.state == Some(YieldStrategy::Channel),
            (future.state == Some(YieldStrategy::Unsupported)) <==> (global is None || global == Some(GlobalKind::Worklet)),
    {
        proof {
            lemma_yield_strategy(time, global, scheduler_present, idle_present);
        }
        let window_or_worker = crate::thread::global::window_or_worker(global);
        let has_scheduler = window_or_worker && scheduler_present;
        let has_idle = match global {
            Some(GlobalKind::Window) => idle_present,
            _ => false,
        };
        let strategy = match time {
            YieldTime::UserBlocking if has_scheduler => YieldStrategy::Scheduler {
                priority: Some(TaskPriority::UserBlocking),
            },
            YieldTime::UserVisible if has_scheduler => YieldStrategy::Scheduler { priority: None },
            YieldTime::Background if has_scheduler => YieldStrategy::Scheduler {
                priority: Some(TaskPriority::Background),
            },
            YieldTime::Idle if has_idle => YieldStrategy::Idle,
            _ => if window_or_worker {
                YieldStrategy::Channel
            } else {
                YieldStrategy::Unsupported
            },
        };
        YieldNowFuture { state: Some(strategy), global }
    }

    /// Polls the wait. `event_fired` says whether the browser has resolved
    /// the mechanism in use. Without a mechanism the wait finishes at once.
    pub fn poll(&mut self, event_fired: bool) -> (step: Step<()>)
        requires
            old(self).state is Some,
        ensures
            final(self).global == old(self).global,
            (old(self).state == Some(YieldStrategy::Unsupported) || event_fired) ==> step == Step::Ready(())
                && final(self).state is None,
            !(old(self).state == Some(YieldStrategy::Unsupported) || event_fired) ==> step == Step::<()>::Pending
                && final(self).state == old(self).state,
    {
        let strategy = self.state.unwrap();
        match strategy {
            YieldStrategy::Unsupported => {
                self.state = None;
                Step::Ready(())
            },
            _ => {
                if event_fired {
                    self.state = None;
                    Step::Ready(())
                } else {
                    Step::Pending
                }
            },
        }
    }

    /// Drops the wait, returning what has to be released in the browser.
    pub fn drop_cleanup(&mut self) -> (cleanup: Option<YieldCleanup>)
        ensures
            final(self).state is None,
            final(self).global == old(self).global,
            cleanup == match old(self).state {
                Some(YieldStrategy::Scheduler { .. }) => Some(YieldCleanup::AbortTask),
                Some(YieldStrategy::Idle) => Some(YieldCleanup::CancelIdleCallback),
                Some(YieldStrategy::Channel) => Some(YieldCleanup::ClosePort),
                _ => None,
            },
    {
        let state = self.state.take();
        match state {
            Some(YieldStrategy::Scheduler { .. }) => Some(YieldCleanup::AbortTask),
            Some(YieldStrategy::Idle) => Some(YieldCleanup::CancelIdleCallback),
            Some(YieldStrategy::Channel) => Some(YieldCleanup::ClosePort),
            _ => None,
        }
    }
}

/// An idle callback is only ever requested on a window, so cancelling it on
/// drop always finds the window it needs.
pub proof fn lemma_idle_only_on_window(
    time: YieldTime,
    global: Option<GlobalKind>,
    scheduler_present: bool,
    idle_present: bool,
)
    ensures
        spec_yield_strategy(time, global, scheduler_present, idle_present) == YieldStrategy::Idle
            ==> global == Some(GlobalKind::Window),
        spec_yield_strategy(time, global, scheduler_present, idle_present) is Scheduler
            ==> is_window_or_worker(global),
{
}

} // verus!
