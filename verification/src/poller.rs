//! Pollers: tasks that the scheduler runs again and again.
//!
//! A poller is built in state `Starting`, registers itself and then waits.
//! Each tick of the scheduler runs its function once. A poller that was
//! stopped does not run again: at its next tick it unregisters itself, tells
//! its own thread, if it has one, to exit, and is gone.
use vstd::prelude::*;
use vstd::string::StringExecFns;
use crate::cpu_cores::CPU_MASK_SIZE;
use crate::thread::{
    spec_after_exit,
    spec_after_guard,
    RegistryView,
    Thread,
    ThreadMsg,
    ThreadRegistry,
    ThreadState,
    ThreadView,
};

verus! {

/// Where a poller is in its life.
#[derive(Debug, Clone, Copy, PartialEq, Eq, Structural)]
pub enum PollerState {
    /// Built; its registration is on its way.
    Starting,
    /// Stopped; it unregisters itself at its next tick.
    Stopped,
    /// Registered and idle.
    Waiting,
    /// Inside its poll function.
    Running,
    /// Unregistered: the scheduler knows it no more.
    Unregistered,
}

/// What a poller is, as contracts see it.
pub struct PollerView {
    /// Where the poller is in its life.
    pub state: PollerState,
    /// Whether the scheduler passes the poller over.
    pub paused: bool,
    /// How often the poll function has run.
    pub runs: nat,
    /// The thread that the poller has for itself, if any.
    pub thread: Option<Thread>,
}

impl PollerView {
    /// True where the poller may be paused and resumed.
    pub open spec fn active(self) -> bool {
        self.state == PollerState::Running || self.state == PollerState::Waiting
    }

    /// True where a tick may reach the poller: it waits or was stopped.
    pub open spec fn tickable(self) -> bool {
        self.state == PollerState::Waiting || self.state == PollerState::Stopped
    }

    /// The poller after one tick of the scheduler. A paused poller is passed
    /// over. A waiting poller runs its function once and waits again. A
    /// stopped poller unregisters itself and gives up its thread.
    pub open spec fn tick(self) -> PollerView {
        if self.paused {
            self
        } else if self.state == PollerState::Waiting {
            PollerView { runs: self.runs + 1, ..self }
        } else if self.state == PollerState::Stopped {
            PollerView { state: PollerState::Unregistered, thread: None, ..self }
        } else {
            self
        }
    }

    /// The poller after `n` ticks.
    pub open spec fn ticks(self, n: nat) -> PollerView
        decreases n,
    {
        if n == 0 {
            self
        } else {
            self.ticks((n - 1) as nat).tick()
        }
    }

    /// The poller after it was stopped.
    pub open spec fn stop(self) -> PollerView {
        PollerView { state: PollerState::Stopped, ..self }
    }
}

/// A waiting poller that is not paused and never stopped runs its function
/// exactly once for each tick.
pub proof fn lemma_ticks_run(p: PollerView, n: nat)
    requires
        p.state == PollerState::Waiting,
        !p.paused,
    ensures
        p.ticks(n) == (PollerView { runs: p.runs + n, ..p }),
    decreases n,
{
    if n > 0 {
        lemma_ticks_run(p, (n - 1) as nat);
    }
}

/// After it was stopped a poller does not run its function again, however
/// many ticks follow; the first tick that reaches it unregisters it.
pub proof fn lemma_ticks_after_stop(p: PollerView, n: nat)
    requires
        p.active(),
    ensures
        p.stop().ticks(n).runs == p.runs,
        n > 0 && !p.paused ==> p.stop().ticks(n).state == PollerState::Unregistered,
    decreases n,
{
    if n > 0 {
        lemma_ticks_after_stop(p, (n - 1) as nat);
        let q = p.stop().ticks((n - 1) as nat);
        if n == 1 {
            assert(q == p.stop());
        }
        assert(q.state == PollerState::Stopped || q.state == PollerState::Unregistered) by {
            lemma_stopped_stays(p.stop(), (n - 1) as nat);
        }
        assert(q.paused == p.paused) by {
            lemma_stopped_stays(p.stop(), (n - 1) as nat);
        }
    }
}

/// A poller that was stopped or is unregistered stays one of the two, and
/// ticks do not change whether it is paused.
pub proof fn lemma_stopped_stays(p: PollerView, n: nat)
    requires
        p.state == PollerState::Stopped || p.state == PollerState::Unregistered,
    ensures
        p.ticks(n).state == PollerState::Stopped || p.ticks(n).state == PollerState::Unregistered,
        p.ticks(n).paused == p.paused,
        p.ticks(n).runs == p.runs,
        !p.paused && n > 0 ==> p.ticks(n).state == PollerState::Unregistered,
    decreases n,
{
    if n > 0 {
        lemma_stopped_stays(p, (n - 1) as nat);
    }
}

/// The part of a poller that the scheduler drives.
pub struct PollerInner<T, F> {
    state: PollerState,
    name: Option<String>,
    interval: u64,
    data: T,
    poll_fn: F,
    thread: Option<Thread>,
    registered: bool,
    paused: bool,
    runs: Ghost<nat>,
}

impl<T, F: Fn(&T) -> i32> PollerInner<T, F> {
    /// The state, the pause flag, the count of runs and the thread.
    pub closed spec fn view(&self) -> PollerView {
        PollerView {
            state: self.state,
            paused: self.paused,
            runs: self.runs@,
            thread: self.thread,
        }
    }

    /// The name, if the poller has one.
    pub closed spec fn spec_name(&self) -> Option<Seq<char>> {
        match self.name {
            Some(n) => Some(n@),
            None => None,
        }
    }

    /// The time between two runs, in microseconds; zero for a run at every
    /// tick.
    pub closed spec fn spec_interval(&self) -> u64 {
        self.interval
    }

    /// The data that the poll function is called with.
    pub closed spec fn spec_data(&self) -> T {
        self.data
    }

    /// The poll function.
    pub closed spec fn spec_poll_fn(&self) -> F {
        self.poll_fn
    }

    /// True where two pollers were set up alike: with one name, one
    /// interval, one piece of data and one poll function.
    pub open spec fn same_setup(&self, other: &Self) -> bool {
        &&& self.spec_name() == other.spec_name()
        &&& self.spec_interval() == other.spec_interval()
        &&& self.spec_data() == other.spec_data()
        &&& self.spec_poll_fn() == other.spec_poll_fn()
    }

    /// The poll function may be called on the data, and the scheduler knows
    /// the poller exactly while it waits, runs or is stopped.
    pub closed spec fn wf(&self) -> bool {
        &&& call_requires(self.poll_fn, (&self.data,))
        &&& self.registered == (self.state == PollerState::Waiting || self.state
            == PollerState::Running || self.state == PollerState::Stopped)
    }

    /// The name to show for the poller.
    pub fn dbg_name(&self) -> (name: String)
        ensures
            name@ == match self.spec_name() {
                Some(n) => n,
                None => "<unnamed>"@,
            },
    {
        match &self.name {
            Some(s) => s.clone(),
            None => String::from_str("<unnamed>"),
        }
    }

    /// True where the poller waits or runs.
    pub fn is_active(&self) -> (b: bool)
        ensures
            b == self@.active(),
    {
        match self.state {
            PollerState::Running => true,
            PollerState::Waiting => true,
            _ => false,
        }
    }

    /// Where the poller is in its life.
    pub fn state(&self) -> (s: PollerState)
        ensures
            s == self@.state,
    {
        self.state
    }

    /// Registers the poller with the scheduler: from now on it waits for
    /// ticks. To be called once, by the thread that is to run the poller: at
    /// once by `build` for a poller without a thread of its own, else when
    /// that thread hands out the message that `build` sent it.
    pub fn register_impl(&mut self)
        requires
            old(self).wf(),
            old(self)@.state == PollerState::Starting,
        ensures
            final(self).wf(),
            final(self)@ == (PollerView { state: PollerState::Waiting, ..old(self)@ }),
            final(self).same_setup(old(self)),
    {
        self.registered = true;
        self.state = PollerState::Waiting;
    }

    /// Stops the poller: its function does not run again, and the next tick
    /// unregisters it. A poller that was stopped before is left out.
    pub fn stop(&mut self)
        requires
            old(self).wf(),
            old(self)@.active(),
        ensures
            final(self).wf(),
            final(self)@ == old(self)@.stop(),
            final(self).same_setup(old(self)),
    {
        self.state = PollerState::Stopped;
    }

    /// Takes the poller off the scheduler and tells its own thread, if it
    /// has one, to exit.
    fn unregister(&mut self, rt: &mut ThreadRegistry)
        requires
            old(self).wf(),
            old(self)@.state == PollerState::Stopped,
            old(rt).wf(),
            match old(self)@.thread {
                Some(t) => t.spec_live(old(rt)),
                None => true,
            },
        ensures
            final(self).wf(),
            final(rt).wf(),
            final(self)@ == (PollerView {
                state: PollerState::Unregistered,
                thread: None,
                ..old(self)@
            }),
            final(rt)@ == spec_exit_thread(old(rt)@, old(self)@.thread),
            final(self).same_setup(old(self)),
    {
        if self.registered {
            self.registered = false;
        }
        match self.thread.take() {
            Some(t) => {
                t.exit(rt);
            },
            None => {},
        }
        self.state = PollerState::Unregistered;
    }

    /// One tick of the scheduler. A paused poller is passed over. A waiting
    /// poller runs its function on its data once and waits again. A stopped
    /// poller does not run its function: it unregisters itself and tells its
    /// own thread, if it has one, to exit. The scheduler reaches a poller in
    /// no other state; such a poller is left out. Always gives zero.
    pub fn tick(&mut self, rt: &mut ThreadRegistry) -> (rc: i32)
        requires
            old(self).wf(),
            old(self)@.tickable(),
            old(rt).wf(),
            old(self)@.state == PollerState::Stopped ==> match old(self)@.thread {
                Some(t) => t.spec_live(old(rt)),
                None => true,
            },
        ensures
            rc == 0,
            final(self).wf(),
            final(rt).wf(),
            final(self)@ == old(self)@.tick(),
            final(rt)@ == if old(self)@.state == PollerState::Stopped && !old(self)@.paused {
                spec_exit_thread(old(rt)@, old(self)@.thread)
            } else {
                old(rt)@
            },
            old(self)@.state == PollerState::Waiting && !old(self)@.paused ==> exists|out: i32|
                call_ensures(old(self).spec_poll_fn(), (&old(self).spec_data(),), out),
            final(self).same_setup(old(self)),
    {
        if self.paused {
            return 0;
        }
        match self.state {
            PollerState::Waiting => {
                self.state = PollerState::Running;
                let out = (self.poll_fn)(&self.data);
                assert(call_ensures(old(self).spec_poll_fn(), (&old(self).spec_data(),), out));
                self.runs = Ghost((self.runs@ + 1) as nat);
                self.state = PollerState::Waiting;
            },
            _ => {
                self.unregister(rt);
            },
        }
        0
    }
}

/// The threads after the thread of a poller, if it has one, was told to
/// exit.
pub open spec fn spec_exit_thread(v: RegistryView, thread: Option<Thread>) -> RegistryView {
    match thread {
        Some(t) => RegistryView {
            threads: v.threads.update(
                t.spec_index(),
                ThreadView {
                    state: spec_after_exit(v.threads[t.spec_index()].state),
                    ..v.threads[t.spec_index()]
                },
            ),
            current: spec_after_guard(v.current, t),
            ..v
        },
        None => v,
    }
}

/// A poller as its maker holds it: it can be paused, resumed and stopped.
pub struct Poller<T, F> {
    inner: PollerInner<T, F>,
}

impl<T, F: Fn(&T) -> i32> Poller<T, F> {
    /// The part of the poller that the scheduler drives.
    pub closed spec fn view(&self) -> PollerInner<T, F> {
        self.inner
    }

    /// Stops the poller and gives up the handle. What is handed back is the
    /// part that the scheduler drives: it stays with the scheduler, whose
    /// next tick unregisters it.
    pub fn stop(self) -> (inner: PollerInner<T, F>)
        requires
            self@.wf(),
            self@@.active(),
        ensures
            inner.wf(),
            inner@ == self@@.stop(),
            inner.same_setup(&self@),
    {
        let mut inner = self.inner;
        inner.stop();
        inner
    }

    /// Makes the scheduler pass the poller over. A poller that neither waits
    /// nor runs is left out.
    pub fn pause(&mut self)
        requires
            old(self)@.wf(),
            old(self)@@.active(),
        ensures
            final(self)@.wf(),
            final(self)@@ == (PollerView { paused: true, ..old(self)@@ }),
            final(self)@.same_setup(&old(self)@),
    {
        self.inner.paused = true;
    }

    /// Makes the scheduler run the poller again. A poller that neither waits
    /// nor runs is left out.
    pub fn resume(&mut self)
        requires
            old(self)@.wf(),
            old(self)@@.active(),
        ensures
            final(self)@.wf(),
            final(self)@@ == (PollerView { paused: false, ..old(self)@@ }),
            final(self)@.same_setup(&old(self)@),
    {
        self.inner.paused = false;
    }

    /// The data that the poll function is called with.
    pub fn data(&self) -> (d: &T)
        ensures
            *d == self@.spec_data(),
    {
        &self.inner.data
    }

    /// The name of the poller, if it has one.
    pub fn name(&self) -> (name: Option<String>)
        ensures
            name.is_some() <==> self@.spec_name().is_some(),
            name.is_some() ==> Some(name.unwrap()@) == self@.spec_name(),
    {
        match &self.inner.name {
            Some(s) => Some(s.clone()),
            None => None,
        }
    }

    /// The time between two runs, in microseconds.
    pub fn interval(&self) -> (us: u64)
        ensures
            us == self@.spec_interval(),
    {
        self.inner.interval
    }

    /// The thread that the poller has for itself, if any.
    pub fn thread(&self) -> (t: Option<Thread>)
        ensures
            t == self@@.thread,
    {
        self.inner.thread
    }

    /// Where the poller is in its life.
    pub fn state(&self) -> (s: PollerState)
        ensures
            s == self@@.state,
    {
        self.inner.state
    }

    /// Finishes the registration of a poller with a thread of its own; see
    /// [`PollerInner::register_impl`].
    pub fn register_impl(&mut self)
        requires
            old(self)@.wf(),
            old(self)@@.state == PollerState::Starting,
        ensures
            final(self)@.wf(),
            final(self)@@ == (PollerView { state: PollerState::Waiting, ..old(self)@@ }),
            final(self)@.same_setup(&old(self)@),
    {
        self.inner.register_impl();
    }

    /// One tick of the scheduler; see [`PollerInner::tick`]. A poller whose
    /// handle is held was not stopped, so the tick finds it waiting.
    pub fn tick(&mut self, rt: &mut ThreadRegistry) -> (rc: i32)
        requires
            old(self)@.wf(),
            old(self)@@.state == PollerState::Waiting,
            old(rt).wf(),
        ensures
            rc == 0,
            final(self)@.wf(),
            final(rt).wf(),
            final(self)@@ == old(self)@@.tick(),
            final(rt)@ == old(rt)@,
            !old(self)@@.paused ==> exists|out: i32|
                call_ensures(old(self)@.spec_poll_fn(), (&old(self)@.spec_data(),), out),
            final(self)@.same_setup(&old(self)@),
    {
        self.inner.tick(rt)
    }
}

/// The description of a poller in the making.
pub struct PollerBuilder<T, F> {
    name: Option<String>,
    data: Option<T>,
    poll_fn: Option<F>,
    interval: u64,
    core: Option<u32>,
}

/// What a poller builder holds, as contracts see it.
pub struct PollerBuilderView<T, F> {
    /// The name, if set.
    pub name: Option<Seq<char>>,
    /// The data, if set.
    pub data: Option<T>,
    /// The poll function, if set.
    pub poll_fn: Option<F>,
    /// The time between two runs, in microseconds.
    pub interval: u64,
    /// The core to run the poller on, if set.
    pub on_core: Option<u32>,
}

impl<T: Default, F: Fn(&T) -> i32> PollerBuilder<T, F> {
    /// What the builder holds.
    pub closed spec fn view(&self) -> PollerBuilderView<T, F> {
        PollerBuilderView {
            name: match self.name {
                Some(n) => Some(n@),
                None => None,
            },
            data: self.data,
            poll_fn: self.poll_fn,
            interval: self.interval,
            on_core: self.core,
        }
    }

    /// The description of a nameless poller that runs at every tick of the
    /// thread it is built on.
    pub fn new() -> (b: Self)
        ensures
            b@ == (PollerBuilderView::<T, F> {
                name: None,
                data: None,
                poll_fn: None,
                interval: 0,
                on_core: None,
            }),
    {
        PollerBuilder { name: None, data: None, poll_fn: None, interval: 0, core: None }
    }

    /// Sets the name.
    pub fn with_name(self, name: &str) -> (b: Self)
        ensures
            b@ == (PollerBuilderView { name: Some(name@), ..self@ }),
    {
        let mut b = self;
        b.name = Some(name.to_owned());
        b
    }

    /// Sets the data that the poll function is called with. Without it the
    /// poller gets the default value of the type.
    pub fn with_data(self, data: T) -> (b: Self)
        ensures
            b@ == (PollerBuilderView { data: Some(data), ..self@ }),
    {
        let mut b = self;
        b.data = Some(data);
        b
    }

    /// Sets the poll function. A poller cannot do without one.
    pub fn with_poll_fn(self, poll_fn: F) -> (b: Self)
        ensures
            b@ == (PollerBuilderView { poll_fn: Some(poll_fn), ..self@ }),
    {
        let mut b = self;
        b.poll_fn = Some(poll_fn);
        b
    }

    /// Sets the time between two runs, in microseconds.
    pub fn with_interval(self, interval: u64) -> (b: Self)
        ensures
            b@ == (PollerBuilderView { interval, ..self@ }),
    {
        let mut b = self;
        b.interval = interval;
        b
    }

    /// Sets the core to run the poller on. Such a poller gets a thread of
    /// its own, pinned to that core.
    pub fn with_core(self, core: u32) -> (b: Self)
        ensures
            b@ == (PollerBuilderView { on_core: Some(core), ..self@ }),
    {
        let mut b = self;
        b.core = Some(core);
        b
    }

    /// The name of the thread that a poller of this description gets for
    /// itself.
    pub fn thread_name(&self) -> (name: String)
        ensures
            name@ == spec_thread_name(self@.name),
    {
        match &self.name {
            Some(n) => {
                let mut s = String::from_str("poller_thread_");
                s.append(n.as_str());
                s
            },
            None => String::from_str("poller_thread_unnamed"),
        }
    }

    /// Makes the poller. Without a core, it registers at once and waits for
    /// ticks. With a core, it gets a new thread pinned to that core and
    /// sends it the message to register; it is `Starting` until the thread
    /// hands that message out and `register_impl` is called. A builder
    /// without a poll function is left out, as is one whose thread cannot be
    /// created.
    pub fn build(self, rt: &mut ThreadRegistry) -> (p: Poller<T, F>)
        requires
            old(rt).wf(),
            self@.poll_fn.is_some(),
            forall|d: &T| call_requires(self@.poll_fn.unwrap(), (d,)),
            self@.on_core.is_some() ==> self@.on_core.unwrap() < CPU_MASK_SIZE && old(
                rt,
            )@.threads.len() < old(rt)@.capacity,
        ensures
            final(rt).wf(),
            p@.wf(),
            p@.spec_name() == self@.name,
            p@.spec_interval() == self@.interval,
            p@.spec_poll_fn() == self@.poll_fn.unwrap(),
            self@.data.is_some() ==> p@.spec_data() == self@.data.unwrap(),
            self@.data.is_none() ==> T::default.ensures((), p@.spec_data()),
            p@@.paused == false,
            p@@.runs == 0,
            self@.on_core.is_none() ==> p@@.state == PollerState::Waiting && p@@.thread.is_none()
                && final(rt)@ == old(rt)@,
            self@.on_core.is_some() ==> {
                &&& p@@.state == PollerState::Starting
                &&& p@@.thread.is_some()
                &&& p@@.thread.unwrap().spec_index() == old(rt)@.threads.len()
                &&& final(rt)@ == (RegistryView {
                    threads: old(rt)@.threads.push(
                        ThreadView {
                            name: spec_thread_name(self@.name),
                            core: self@.on_core.unwrap(),
                            state: ThreadState::Created,
                            queue: seq![ThreadMsg::RegisterPoller],
                        },
                    ),
                    ..old(rt)@
                })
            },
    {
        let thread = match self.core {
            Some(core) => Thread::new(rt, self.thread_name(), core),
            None => None,
        };
        let mut ctx = PollerInner {
            state: PollerState::Starting,
            name: self.name,
            interval: self.interval,
            data: self.data.unwrap_or_default(),
            poll_fn: self.poll_fn.unwrap(),
            thread,
            registered: false,
            paused: false,
            runs: Ghost(0),
        };
        match ctx.thread {
            Some(t) => {
                t.send_msg(rt, ThreadMsg::RegisterPoller);
                proof {
                    assert(rt@.threads =~= old(rt)@.threads.push(
                        ThreadView {
                            name: spec_thread_name(self@.name),
                            core: self@.on_core.unwrap(),
                            state: ThreadState::Created,
                            queue: seq![ThreadMsg::RegisterPoller],
                        },
                    ));
                }
            },
            None => {
                ctx.register_impl();
            },
        }
        Poller { inner: ctx }
    }
}

/// The name of the thread of a poller with the given name.
pub open spec fn spec_thread_name(name: Option<Seq<char>>) -> Seq<char> {
    match name {
        Some(n) => "poller_thread_"@ + n,
        None => "poller_thread_unnamed"@,
    }
}

} // verus!
