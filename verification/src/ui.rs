//! Starting and stopping the toolkit, and stepping its event loop.

use vstd::prelude::*;
use crate::callback::{CallbackBridge, EventSlot};
use crate::concurrent::{Context, Job, MainQueue};
use crate::error::UIError;
use crate::ffi_tools::{is_initialized, ProcessGuard};
use crate::handle::Handle;
use crate::window::{Registry, Window};

verus! {

/// Evidence that the toolkit is running. There is at most one per process
/// guard; giving it back with [`UI::uninit`] shuts the toolkit down.
pub struct UI {
    _token: (),
}

/// How an attempt to start the toolkit ends.
#[derive(Clone, Copy, Debug, PartialEq, Eq, Structural)]
pub enum InitVerdict {
    /// The toolkit is running now.
    Started,
    /// It was running already; nothing changed.
    AlreadyInitialized,
    /// The toolkit refused to start; nothing changed.
    InitFailed,
}

/// How an attempt to start ends, given whether the toolkit was running and
/// whether its start-up call reported an error.
pub open spec fn init_verdict(running: bool, refused: bool) -> InitVerdict {
    if running {
        InitVerdict::AlreadyInitialized
    } else if refused {
        InitVerdict::InitFailed
    } else {
        InitVerdict::Started
    }
}

/// Whether the toolkit is running after an attempt to start it.
pub open spec fn running_after_init(running: bool, refused: bool) -> bool {
    running || !refused
}

/// Only one instance runs at a time. A start on a stopped toolkit that
/// raises no error succeeds; while that instance runs every further start is
/// turned down and changes nothing; once it is shut down, which leaves the
/// guard unset, a start succeeds again.
pub proof fn lemma_single_instance(refused: bool)
    ensures
        init_verdict(false, false) == InitVerdict::Started,
        running_after_init(false, false),
        init_verdict(running_after_init(false, false), refused)
            == InitVerdict::AlreadyInitialized,
        running_after_init(running_after_init(false, false), refused),
        init_verdict(false, true) == InitVerdict::InitFailed,
        !running_after_init(false, true),
{
}

impl UI {
    /// Starts the bridge, given what the toolkit's start-up call reported:
    /// `None` for success, or its error message.
    ///
    /// While the guard says that the toolkit is running the start-up call
    /// must not be made at all; `startup_error` is then ignored.
    pub fn init(guard: &mut ProcessGuard, startup_error: Option<String>) -> (started: Result<UI, UIError>)
        ensures
            final(guard)@ == running_after_init(old(guard)@, startup_error is Some),
            match init_verdict(old(guard)@, startup_error is Some) {
                InitVerdict::Started => started is Ok,
                InitVerdict::AlreadyInitialized => started matches Err(
                    UIError::MultipleInitError,
                ),
                InitVerdict::InitFailed => started matches Err(UIError::FailedInitError { error })
                    && error == startup_error.unwrap(),
            },
    {
        if is_initialized(guard) {
            return Err(UIError::MultipleInitError);
        }
        match startup_error {
            None => {
                guard.set_initialized();
                Ok(UI { _token: () })
            },
            Some(error) => Err(UIError::FailedInitError { error }),
        }
    }

    /// Gives the token back: marks the toolkit as stopped and hands out the
    /// windows that are still alive, oldest first, which the caller destroys
    /// before it makes the toolkit's shut-down call.
    ///
    /// Shutting down a toolkit that is not running is a logic error of the
    /// caller, so the contract leaves that input out.
    pub fn uninit(self, guard: &mut ProcessGuard, registry: &mut Registry) -> (remaining: Vec<Window>)
        requires
            old(guard)@,
        ensures
            !final(guard)@,
            remaining@ == old(registry)@.windows,
            final(registry)@ == old(registry)@.cleared(),
            final(registry).wf(),
    {
        let remaining = Window::destroy_all_windows(registry);
        guard.unset_initialized();
        remaining
    }

    /// Evidence of the running toolkit that may be copied and sent to other
    /// threads, to queue work from there.
    pub fn context(&self) -> (ctx: Context) {
        Context { _token: () }
    }

    /// A fresh event loop, with no tick callback.
    pub fn event_loop(&self) -> (events: EventLoop)
        ensures
            events.tick_callback() is None,
            events.loop_state() == LoopState::Idle,
    {
        EventLoop { callback: None, state: LoopState::Idle }
    }

    /// Queues a boxed closure to be called on the toolkit thread, behind
    /// everything queued before it. Does not wait for the call.
    pub fn queue_main(&self, queue: &mut MainQueue, callback: usize)
        ensures
            final(queue)@ == old(queue)@.push(Job::Call(callback)),
    {
        queue.queue(Job::Call(callback));
    }

    /// Makes the closure at `callback` the one that is called when the
    /// application is asked to quit. Hands out the closure that it replaces,
    /// if any. The event belongs to the application, not to an object: it is
    /// kept under the null address.
    pub fn on_should_quit(&self, bridge: &mut CallbackBridge, callback: usize) -> (previous: Option<usize>)
        ensures
            previous == old(bridge).handler(0, EventSlot::ShouldQuit),
            final(bridge)@ == old(bridge)@.insert((0, EventSlot::ShouldQuit), callback),
    {
        let application = Handle::from_raw(0);
        bridge.register(&application, EventSlot::ShouldQuit, callback)
    }
}

/// What one step of the event loop leaves the caller to do.
#[derive(Clone, Copy, Debug, PartialEq, Eq, Structural)]
pub struct Tick {
    /// Whether the application goes on: false once the toolkit was asked to
    /// quit.
    pub keep_running: bool,
    /// The tick callback to call now, if one is set.
    pub callback: Option<usize>,
}

/// Whether the toolkit's answer to a step says that the application goes on.
pub open spec fn keeps_running(reply: i32) -> bool {
    reply == 1
}

/// How many steps a loop makes that steps until the toolkit says to stop,
/// when the toolkit's answers are `replies`, in this order: up to and with
/// the first answer that says stop, or all of them if none does.
pub open spec fn steps_until_quit(replies: Seq<i32>) -> nat
    decreases replies.len(),
{
    if replies.len() == 0 {
        0
    } else if !keeps_running(replies[0]) {
        1
    } else {
        1 + steps_until_quit(replies.drop_first())
    }
}

/// The pause of `delay_ms` milliseconds in nanoseconds. A pause whose
/// nanoseconds do not fit in 32 bits cannot be asked for, so the contract
/// leaves it out.
pub fn delay_nanos(delay_ms: u32) -> (nanos: u32)
    requires
        delay_ms * 1_000_000 <= u32::MAX,
    ensures
        nanos == delay_ms * 1_000_000,
{
    delay_ms * 1_000_000
}

/// Where an event loop stands.
#[derive(Clone, Copy, Debug, PartialEq, Eq, Structural)]
pub enum LoopState {
    /// Between two steps.
    Idle,
    /// In a step: the toolkit has been handed control and has not answered
    /// yet. `wait` says whether it waits for an event.
    Stepping { wait: bool },
}

/// Step-wise control over the toolkit's event loop, with a callback that is
/// called after every step.
pub struct EventLoop {
    callback: Option<usize>,
    state: LoopState,
}

impl EventLoop {
    /// The boxed closure that is called after every step, if one is set.
    pub closed spec fn tick_callback(&self) -> Option<usize> {
        self.callback
    }

    /// Where the loop stands.
    pub closed spec fn loop_state(&self) -> LoopState {
        self.state
    }

    /// Where the loop stands.
    pub fn state(&self) -> (state: LoopState)
        ensures
            state == self.loop_state(),
    {
        self.state
    }

    /// Opens a step: the flag to hand to the toolkit's step call, 1 to wait
    /// for the next event, 0 to return at once. The loop is in that step
    /// until [`EventLoop::next_tick`] or [`EventLoop::next_event_tick`]
    /// closes it with the toolkit's answer.
    pub fn step(&mut self, _ctx: &UI, wait: bool) -> (flag: i32)
        ensures
            flag == (if wait { 1i32 } else { 0i32 }),
            final(self).loop_state() == (LoopState::Stepping { wait }),
            final(self).tick_callback() == old(self).tick_callback(),
    {
        self.state = LoopState::Stepping { wait };
        if wait {
            1
        } else {
            0
        }
    }

    /// The boxed closure that is called after every step, if one is set.
    pub fn callback(&self) -> (callback: Option<usize>)
        ensures
            callback == self.tick_callback(),
    {
        self.callback
    }

    /// Sets the boxed closure that is called after every step. Hands out the
    /// one that it replaces, if any.
    pub fn on_tick(&mut self, _ctx: &UI, callback: usize) -> (previous: Option<usize>)
        ensures
            previous == old(self).tick_callback(),
            final(self).tick_callback() == Some(callback),
            final(self).loop_state() == old(self).loop_state(),
    {
        let previous = self.callback;
        self.callback = Some(callback);
        previous
    }

    /// Closes a step that did not wait for an event, given the toolkit's
    /// answer to it: says whether the application goes on and which tick
    /// callback is to be called.
    pub fn next_tick(&mut self, _ctx: &UI, reply: i32) -> (tick: Tick)
        ensures
            tick.keep_running == keeps_running(reply),
            tick.callback == old(self).tick_callback(),
            final(self).tick_callback() == old(self).tick_callback(),
            final(self).loop_state() == LoopState::Idle,
    {
        self.state = LoopState::Idle;
        Tick { keep_running: reply == 1, callback: self.callback }
    }

    /// Closes a step that waited for the next event, given the toolkit's
    /// answer to it: says whether the application goes on and which tick
    /// callback is to be called.
    pub fn next_event_tick(&mut self, _ctx: &UI, reply: i32) -> (tick: Tick)
        ensures
            tick.keep_running == keeps_running(reply),
            tick.callback == old(self).tick_callback(),
            final(self).tick_callback() == old(self).tick_callback(),
            final(self).loop_state() == LoopState::Idle,
    {
        self.state = LoopState::Idle;
        Tick { keep_running: reply == 1, callback: self.callback }
    }

    /// Replays the loop that steps, waiting for events, until the toolkit
    /// says to stop, over the answers that the toolkit gave. Returns how
    /// many steps the loop made, which is also how often the tick callback
    /// is due.
    pub fn run(&mut self, ctx: &UI, replies: &Vec<i32>) -> (steps: usize)
        ensures
            steps == steps_until_quit(replies@),
            final(self).tick_callback() == old(self).tick_callback(),
            final(self).loop_state() == (if replies@.len() == 0 {
                old(self).loop_state()
            } else {
                LoopState::Idle
            }),
    {
        let mut steps: usize = 0;
        proof {
            assert(replies@.skip(0) =~= replies@);
        }
        while steps < replies.len()
            invariant
                steps <= replies@.len(),
                self.tick_callback() == old(self).tick_callback(),
                self.loop_state() == (if steps == 0 {
                    old(self).loop_state()
                } else {
                    LoopState::Idle
                }),
                steps_until_quit(replies@) == steps + steps_until_quit(replies@.skip(steps as int)),
            decreases replies@.len() - steps,
        {
            self.step(ctx, true);
            let tick = self.next_event_tick(ctx, replies[steps]);
            proof {
                let rest = replies@.skip(steps as int);
                assert(rest[0] == replies@[steps as int]);
                assert(rest.drop_first() =~= replies@.skip(steps + 1));
            }
            steps += 1;
            if !tick.keep_running {
                return steps;
            }
        }
        proof {
            assert(replies@.skip(steps as int).len() == 0);
        }
        steps
    }
}

} // verus!
