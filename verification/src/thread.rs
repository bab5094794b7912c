//! Cooperative threads: single-owner execution contexts that are created,
//! polled by their owner, asked to exit, and destroyed once they have
//! exited. Work reaches a thread as messages, which it hands out in the
//! order in which they were sent.
use vstd::prelude::*;
use vstd::string::StringExecFns;
use crate::cpu_cores::{CoreEnv, Cores, CPU_MASK_SIZE};
use crate::text::{decimal, spec_decimal};

verus! {

/// Where a thread is in its life.
#[derive(Debug, Clone, Copy, PartialEq, Eq, Structural)]
pub enum ThreadState {
    /// Created, not polled yet.
    Created,
    /// Polled at least once and not asked to exit.
    Running,
    /// Asked to exit; it exits at its next poll.
    Exiting,
    /// Exited: nothing is pending, and it may be destroyed.
    Exited,
    /// Destroyed: the handle names nothing any more.
    Destroyed,
}

/// A piece of work sent to a thread.
#[derive(Debug, Clone, Copy, PartialEq, Eq, Structural)]
pub enum ThreadMsg {
    /// The poller that owns the thread is to register itself.
    RegisterPoller,
    /// The caller's work with the given handle is to run.
    Call(u64),
}

/// Handle of a thread. It is a plain number, never zero, and copies freely;
/// the thread itself lives in a [`ThreadRegistry`].
#[derive(Debug, Clone, Copy, PartialEq, Eq, Structural)]
pub struct Thread {
    raw: u64,
}

/// What a thread is, as contracts see it.
pub struct ThreadView {
    /// The name given at creation.
    pub name: Seq<char>,
    /// The core the thread is pinned to.
    pub core: u32,
    /// Where the thread is in its life.
    pub state: ThreadState,
    /// The messages sent and not handed out yet, oldest first.
    pub queue: Seq<ThreadMsg>,
}

/// What a registry is, as contracts see it.
pub struct RegistryView {
    /// All threads ever created, in creation order.
    pub threads: Seq<ThreadView>,
    /// The thread that the caller acts as, if any.
    pub current: Option<Thread>,
    /// How many threads can be created in all.
    pub capacity: nat,
}

struct ThreadRecord {
    name: String,
    core: u32,
    state: ThreadState,
    queue: Vec<ThreadMsg>,
}

impl ThreadRecord {
    spec fn view(&self) -> ThreadView {
        ThreadView { name: self.name@, core: self.core, state: self.state, queue: self.queue@ }
    }
}

/// All threads of a runtime, and which of them the caller acts as.
pub struct ThreadRegistry {
    threads: Vec<ThreadRecord>,
    current: Option<Thread>,
    capacity: usize,
}

impl Thread {
    /// The number of the handle.
    pub closed spec fn spec_raw(&self) -> u64 {
        self.raw
    }

    /// The place of the thread in its registry.
    pub open spec fn spec_index(&self) -> int {
        self.spec_raw() - 1
    }

    /// The handle of the thread at a place.
    pub closed spec fn spec_at(index: int) -> Thread {
        Thread { raw: (index + 1) as u64 }
    }

    /// True where the handle names a thread of the registry that has not
    /// been destroyed.
    pub open spec fn spec_live(&self, rt: &ThreadRegistry) -> bool {
        &&& 0 <= self.spec_index() < rt@.threads.len()
        &&& rt@.threads[self.spec_index()].state != ThreadState::Destroyed
    }

    /// Handles with one number are one handle.
    pub proof fn lemma_same_raw(a: Thread, b: Thread)
        requires
            a.spec_raw() == b.spec_raw(),
        ensures
            a == b,
    {
    }

    /// Makes a handle out of its number. Zero names no thread and is left
    /// out.
    pub fn from_ptr(raw: u64) -> (t: Self)
        requires
            raw != 0,
        ensures
            t.spec_raw() == raw,
    {
        Thread { raw }
    }

    /// The number of the handle; never zero for a handle that a registry
    /// gave out.
    pub fn as_ptr(&self) -> (raw: u64)
        ensures
            raw == self.spec_raw(),
    {
        self.raw
    }

    /// Says whether the handle names a thread of the registry that has not
    /// been destroyed.
    pub fn is_live(&self, rt: &ThreadRegistry) -> (b: bool)
        ensures
            b == self.spec_live(rt),
    {
        if self.raw == 0 {
            return false;
        }
        let len = rt.threads.len();
        let i = self.raw - 1;
        if i >= len as u64 {
            return false;
        }
        match rt.threads[i as usize].state {
            ThreadState::Destroyed => false,
            _ => true,
        }
    }

    /// Creates a thread pinned to `core`. `None` where the registry holds as
    /// many threads as it can; else the new thread, in state `Created`, with
    /// nothing pending, after all earlier threads.
    pub fn new(rt: &mut ThreadRegistry, name: String, core: u32) -> (t: Option<Self>)
        requires
            old(rt).wf(),
            core < CPU_MASK_SIZE,
        ensures
            final(rt).wf(),
            t.is_some() <==> old(rt)@.threads.len() < old(rt)@.capacity,
            t.is_none() ==> final(rt)@ == old(rt)@,
            t.is_some() ==> {
                &&& t.unwrap().spec_index() == old(rt)@.threads.len()
                &&& final(rt)@ == (RegistryView {
                    threads: old(rt)@.threads.push(
                        ThreadView {
                            name: name@,
                            core,
                            state: ThreadState::Created,
                            queue: Seq::empty(),
                        },
                    ),
                    ..old(rt)@
                })
            },
    {
        if rt.threads.len() >= rt.capacity {
            return None;
        }
        let raw = (rt.threads.len() + 1) as u64;
        let rec = ThreadRecord { name, core, state: ThreadState::Created, queue: Vec::new() };
        rt.threads.push(rec);
        proof {
            assert(rt@.threads =~= old(rt)@.threads.push(rec@));
        }
        Some(Thread { raw })
    }

    /// Asks the thread to exit. A thread that is exiting or has exited stays
    /// as it is. As a side effect the caller acts as this thread afterwards,
    /// unless it acted as some thread before, which it then still does.
    pub fn exit(&self, rt: &mut ThreadRegistry)
        requires
            old(rt).wf(),
            self.spec_live(old(rt)),
        ensures
            final(rt).wf(),
            final(rt)@ == (RegistryView {
                threads: old(rt)@.threads.update(
                    self.spec_index(),
                    ThreadView {
                        state: spec_after_exit(old(rt)@.threads[self.spec_index()].state),
                        ..old(rt)@.threads[self.spec_index()]
                    },
                ),
                current: spec_after_guard(old(rt)@.current, *self),
                ..old(rt)@
            }),
    {
        let g = CurrentThreadGuard::new(rt);
        self.set_current(rt);
        rt.mark_exiting(self);
        g.restore(rt);
    }

    /// Asks the thread to exit and polls it until it has exited. Gives the
    /// messages that were pending, oldest first: they are handed out by the
    /// polls and are the caller's to run.
    pub fn wait_exit(&self, rt: &mut ThreadRegistry) -> (drained: Vec<ThreadMsg>)
        requires
            old(rt).wf(),
            self.spec_live(old(rt)),
        ensures
            final(rt).wf(),
            drained@ == old(rt)@.threads[self.spec_index()].queue,
            final(rt)@ == (RegistryView {
                threads: old(rt)@.threads.update(
                    self.spec_index(),
                    ThreadView {
                        state: ThreadState::Exited,
                        queue: Seq::empty(),
                        ..old(rt)@.threads[self.spec_index()]
                    },
                ),
                current: spec_after_guard(old(rt)@.current, *self),
                ..old(rt)@
            }),
    {
        let g = CurrentThreadGuard::new(rt);
        self.set_current(rt);
        rt.mark_exiting(self);
        let mut drained: Vec<ThreadMsg> = Vec::new();
        let ghost pending = old(rt)@.threads[self.spec_index()].queue;
        let ghost before = rt@;
        while !self.is_exited(rt)
            invariant
                rt.wf(),
                self.spec_live(rt),
                rt@.threads.len() == before.threads.len(),
                rt@.current == before.current,
                rt@.capacity == before.capacity,
                rt@.threads[self.spec_index()].state == ThreadState::Exiting
                    || rt@.threads[self.spec_index()].state == ThreadState::Exited,
                drained@ + rt@.threads[self.spec_index()].queue == pending,
                rt@.threads[self.spec_index()].state == ThreadState::Exited
                    ==> rt@.threads[self.spec_index()].queue.len() == 0,
                rt@.threads =~= before.threads.update(
                    self.spec_index(),
                    rt@.threads[self.spec_index()],
                ),
                rt@.threads[self.spec_index()].name == before.threads[self.spec_index()].name,
                rt@.threads[self.spec_index()].core == before.threads[self.spec_index()].core,
            decreases
                    (if rt@.threads[self.spec_index()].state == ThreadState::Exited {
                        0int
                    } else {
                        1int
                    }),
        {
            let mut round = self.poll(rt);
            drained.append(&mut round);
        }
        proof {
            assert(drained@ =~= pending);
            assert(rt@.threads[self.spec_index()].queue =~= Seq::<ThreadMsg>::empty());
        }
        g.restore(rt);
        proof {
            assert(rt@.threads =~= old(rt)@.threads.update(
                self.spec_index(),
                ThreadView {
                    state: ThreadState::Exited,
                    queue: Seq::empty(),
                    ..old(rt)@.threads[self.spec_index()]
                },
            ));
        }
        drained
    }

    /// Destroys a thread that has exited. A caller that acted as this thread
    /// acts as none afterwards. A thread that has not exited is left out:
    /// destroying it would pull state from under its owner.
    pub fn destroy(self, rt: &mut ThreadRegistry)
        requires
            old(rt).wf(),
            self.spec_live(old(rt)),
            old(rt)@.threads[self.spec_index()].state == ThreadState::Exited,
        ensures
            final(rt).wf(),
            !self.spec_live(final(rt)),
            final(rt)@ == (RegistryView {
                threads: old(rt)@.threads.update(
                    self.spec_index(),
                    ThreadView {
                        state: ThreadState::Destroyed,
                        ..old(rt)@.threads[self.spec_index()]
                    },
                ),
                current: if old(rt)@.current == Some(self) {
                    None
                } else {
                    old(rt)@.current
                },
                ..old(rt)@
            }),
    {
        let i = (self.raw - 1) as usize;
        rt.threads[i].state = ThreadState::Destroyed;
        let acts_as_self = match rt.current {
            Some(c) => c.raw == self.raw,
            None => false,
        };
        if acts_as_self {
            rt.current = None;
        }
        proof {
            assert(rt@.threads =~= old(rt)@.threads.update(
                self.spec_index(),
                ThreadView {
                    state: ThreadState::Destroyed,
                    ..old(rt)@.threads[self.spec_index()]
                },
            ));
        }
    }

    /// The thread that the caller acts as, if any.
    pub fn current(rt: &ThreadRegistry) -> (t: Option<Self>)
        ensures
            t == rt@.current,
    {
        rt.current
    }

    /// The first thread ever created. A registry without threads has none
    /// and is left out.
    pub fn primary(rt: &ThreadRegistry) -> (t: Self)
        requires
            rt@.threads.len() > 0,
        ensures
            t.spec_index() == 0,
    {
        Thread { raw: 1 }
    }

    /// The first thread ever created, or `None` before any was.
    pub fn primary_safe(rt: &ThreadRegistry) -> (t: Option<Self>)
        ensures
            t.is_some() <==> rt@.threads.len() > 0,
            t.is_some() ==> t.unwrap().spec_index() == 0,
    {
        if rt.threads.len() > 0 {
            Some(Thread { raw: 1 })
        } else {
            None
        }
    }

    /// The identifier of the thread: its place in creation order, counted
    /// from one.
    pub fn id(&self) -> (id: u64)
        ensures
            id == self.spec_index() + 1,
    {
        self.raw
    }

    /// The name given at creation.
    pub fn name(&self, rt: &ThreadRegistry) -> (name: String)
        requires
            rt.wf(),
            self.spec_live(rt),
        ensures
            name@ == rt@.threads[self.spec_index()].name,
    {
        let i = (self.raw - 1) as usize;
        rt.threads[i].name.clone()
    }

    /// The core the thread is pinned to.
    pub fn core_id(&self, rt: &ThreadRegistry) -> (core: u32)
        requires
            rt.wf(),
            self.spec_live(rt),
        ensures
            core == rt@.threads[self.spec_index()].core,
    {
        let i = (self.raw - 1) as usize;
        rt.threads[i].core
    }

    /// Runs one round of the thread: hands out all pending messages, oldest
    /// first, and moves the thread on: a created thread runs, an exiting one
    /// has exited.
    pub fn poll(&self, rt: &mut ThreadRegistry) -> (round: Vec<ThreadMsg>)
        requires
            old(rt).wf(),
            self.spec_live(old(rt)),
        ensures
            final(rt).wf(),
            round@ == old(rt)@.threads[self.spec_index()].queue,
            final(rt)@ == (RegistryView {
                threads: old(rt)@.threads.update(
                    self.spec_index(),
                    ThreadView {
                        state: spec_after_poll(old(rt)@.threads[self.spec_index()].state),
                        queue: Seq::empty(),
                        ..old(rt)@.threads[self.spec_index()]
                    },
                ),
                ..old(rt)@
            }),
    {
        let i = (self.raw - 1) as usize;
        let mut round: Vec<ThreadMsg> = Vec::new();
        let ghost pending = rt.threads[i as int].queue@;
        round.append(&mut rt.threads[i].queue);
        let next = match rt.threads[i].state {
            ThreadState::Created => ThreadState::Running,
            ThreadState::Exiting => ThreadState::Exited,
            s => s,
        };
        rt.threads[i].state = next;
        proof {
            assert(round@ =~= pending);
            assert(rt@.threads =~= old(rt)@.threads.update(
                self.spec_index(),
                ThreadView {
                    state: spec_after_poll(old(rt)@.threads[self.spec_index()].state),
                    queue: Seq::empty(),
                    ..old(rt)@.threads[self.spec_index()]
                },
            ));
        }
        round
    }

    /// Makes the caller act as this thread.
    pub fn set_current(&self, rt: &mut ThreadRegistry)
        requires
            old(rt).wf(),
            self.spec_live(old(rt)),
        ensures
            final(rt).wf(),
            final(rt)@ == (RegistryView { current: Some(*self), ..old(rt)@ }),
    {
        rt.current = Some(*self);
    }

    /// Makes the caller act as no thread.
    pub fn unset_current(&self, rt: &mut ThreadRegistry)
        requires
            old(rt).wf(),
        ensures
            final(rt).wf(),
            final(rt)@ == (RegistryView { current: None, ..old(rt)@ }),
    {
        rt.current = None;
    }

    /// True where the thread has exited.
    pub fn is_exited(&self, rt: &ThreadRegistry) -> (b: bool)
        requires
            rt.wf(),
            self.spec_live(rt),
        ensures
            b == (rt@.threads[self.spec_index()].state == ThreadState::Exited),
    {
        let i = (self.raw - 1) as usize;
        match rt.threads[i].state {
            ThreadState::Exited => true,
            _ => false,
        }
    }

    /// Where the thread is in its life.
    pub fn state(&self, rt: &ThreadRegistry) -> (s: ThreadState)
        requires
            rt.wf(),
            0 <= self.spec_index() < rt@.threads.len(),
        ensures
            s == rt@.threads[self.spec_index()].state,
    {
        let i = (self.raw - 1) as usize;
        rt.threads[i].state
    }

    /// Runs `f` with the caller acting as this thread. Afterwards the caller
    /// acts as the thread it acted as before; where it acted as none, it
    /// goes on acting as this one.
    pub fn with<T, F: FnOnce() -> T>(self, rt: &mut ThreadRegistry, f: F) -> (out: T)
        requires
            old(rt).wf(),
            self.spec_live(old(rt)),
            f.requires(()),
        ensures
            final(rt).wf(),
            f.ensures((), out),
            final(rt)@ == (RegistryView {
                current: spec_after_guard(old(rt)@.current, self),
                ..old(rt)@
            }),
    {
        let g = CurrentThreadGuard::new(rt);
        self.set_current(rt);
        let out = f();
        g.restore(rt);
        out
    }

    /// Sends a message to the thread. It is handed out by a later poll,
    /// after all messages sent to the thread before it.
    pub fn send_msg(&self, rt: &mut ThreadRegistry, msg: ThreadMsg)
        requires
            old(rt).wf(),
            self.spec_live(old(rt)),
            old(rt)@.threads[self.spec_index()].state != ThreadState::Exited,
        ensures
            final(rt).wf(),
            final(rt)@ == (RegistryView {
                threads: old(rt)@.threads.update(
                    self.spec_index(),
                    ThreadView {
                        queue: old(rt)@.threads[self.spec_index()].queue.push(msg),
                        ..old(rt)@.threads[self.spec_index()]
                    },
                ),
                ..old(rt)@
            }),
    {
        let i = (self.raw - 1) as usize;
        rt.threads[i].queue.push(msg);
        proof {
            assert(rt@.threads =~= old(rt)@.threads.update(
                self.spec_index(),
                ThreadView {
                    queue: old(rt)@.threads[self.spec_index()].queue.push(msg),
                    ..old(rt)@.threads[self.spec_index()]
                },
            ));
        }
    }

    /// True where the caller acts as some thread.
    pub fn is_spdk_thread(rt: &ThreadRegistry) -> (b: bool)
        ensures
            b == rt@.current.is_some(),
    {
        rt.current.is_some()
    }
}

/// The state after a request to exit.
pub open spec fn spec_after_exit(s: ThreadState) -> ThreadState {
    match s {
        ThreadState::Created | ThreadState::Running => ThreadState::Exiting,
        other => other,
    }
}

/// The state after a poll.
pub open spec fn spec_after_poll(s: ThreadState) -> ThreadState {
    match s {
        ThreadState::Created => ThreadState::Running,
        ThreadState::Exiting => ThreadState::Exited,
        other => other,
    }
}

/// Whom the caller acts as after it acted as `t` under a guard: as before
/// where it acted as a thread, else as `t`.
pub open spec fn spec_after_guard(before: Option<Thread>, t: Thread) -> Option<Thread> {
    match before {
        Some(p) => Some(p),
        None => Some(t),
    }
}

impl ThreadRegistry {
    /// The threads, the current one and the capacity.
    pub closed spec fn view(&self) -> RegistryView {
        RegistryView {
            threads: self.threads@.map_values(|r: ThreadRecord| r@),
            current: self.current,
            capacity: self.capacity as nat,
        }
    }

    /// The registry holds no more threads than it can, an exited or
    /// destroyed thread has nothing pending, and the caller acts as a live
    /// thread or as none.
    pub open spec fn wf(&self) -> bool {
        &&& self@.threads.len() <= self@.capacity
        &&& self@.capacity < u64::MAX
        &&& forall|i: int|
            0 <= i < self@.threads.len() && (#[trigger] self@.threads[i]).state
                == ThreadState::Exited ==> self@.threads[i].queue.len() == 0
        &&& match self@.current {
            Some(t) => t.spec_live(self),
            None => true,
        }
    }

    /// A registry without threads that can hold `capacity` of them.
    pub fn new(capacity: usize) -> (rt: Self)
        requires
            capacity < u64::MAX,
        ensures
            rt.wf(),
            rt@ == (RegistryView {
                threads: Seq::empty(),
                current: None,
                capacity: capacity as nat,
            }),
    {
        let rt = ThreadRegistry { threads: Vec::new(), current: None, capacity };
        proof {
            assert(rt@.threads =~= Seq::<ThreadView>::empty());
        }
        rt
    }

    /// How many threads can be created in all.
    pub fn capacity(&self) -> (n: usize)
        ensures
            n == self@.capacity,
    {
        self.capacity
    }

    /// How many threads were ever created.
    pub fn len(&self) -> (n: usize)
        ensures
            n == self@.threads.len(),
    {
        self.threads.len()
    }

    fn mark_exiting(&mut self, t: &Thread)
        requires
            old(self).wf(),
            t.spec_live(old(self)),
        ensures
            final(self).wf(),
            final(self)@ == (RegistryView {
                threads: old(self)@.threads.update(
                    t.spec_index(),
                    ThreadView {
                        state: spec_after_exit(old(self)@.threads[t.spec_index()].state),
                        ..old(self)@.threads[t.spec_index()]
                    },
                ),
                ..old(self)@
            }),
    {
        let i = (t.raw - 1) as usize;
        let next = match self.threads[i].state {
            ThreadState::Created => ThreadState::Exiting,
            ThreadState::Running => ThreadState::Exiting,
            s => s,
        };
        self.threads[i].state = next;
        proof {
            assert(self@.threads =~= old(self)@.threads.update(
                t.spec_index(),
                ThreadView {
                    state: spec_after_exit(old(self)@.threads[t.spec_index()].state),
                    ..old(self)@.threads[t.spec_index()]
                },
            ));
        }
    }
}

/// Remembers whom the caller acted as, to go back to it later.
pub struct CurrentThreadGuard {
    previous: Option<Thread>,
}

impl CurrentThreadGuard {
    /// The thread remembered.
    pub closed spec fn spec_previous(&self) -> Option<Thread> {
        self.previous
    }

    /// Remembers the thread that the caller acts as now.
    pub fn new(rt: &ThreadRegistry) -> (g: Self)
        ensures
            g.spec_previous() == rt@.current,
    {
        CurrentThreadGuard { previous: Thread::current(rt) }
    }

    /// Makes the caller act as the remembered thread again. Where none was
    /// remembered, nothing changes.
    pub fn restore(self, rt: &mut ThreadRegistry)
        requires
            old(rt).wf(),
            match self.spec_previous() {
                Some(t) => t.spec_live(old(rt)),
                None => true,
            },
        ensures
            final(rt).wf(),
            final(rt)@ == (RegistryView {
                current: match self.spec_previous() {
                    Some(t) => Some(t),
                    None => old(rt)@.current,
                },
                ..old(rt)@
            }),
    {
        match self.previous {
            Some(t) => {
                t.set_current(rt);
            },
            None => {},
        }
    }
}

/// What shows a thread: its name in quotes, the number of its handle in
/// brackets, and the core of the caller.
pub open spec fn spec_thread_info(name: Seq<char>, raw: u64, core: u32) -> Seq<char> {
    "'"@ + name + "' ("@ + spec_decimal(raw as nat) + ") [core "@ + spec_decimal(core as nat)
        + "]"@
}

/// What shows a caller that acts as no thread.
pub open spec fn spec_no_thread_info(core: u32) -> Seq<char> {
    "Non-SPDK thread [core "@ + spec_decimal(core as nat) + "]"@
}

impl Thread {
    /// Shows the thread: its name, the number of its handle, and the core
    /// that the caller runs on.
    pub fn info(&self, rt: &ThreadRegistry, env: &CoreEnv) -> (text: String)
        requires
            rt.wf(),
            self.spec_live(rt),
            env.wf(),
        ensures
            text@ == spec_thread_info(
                rt@.threads[self.spec_index()].name,
                self.spec_raw(),
                env.spec_current(),
            ),
    {
        let mut text = String::from_str("'");
        text.append(self.name(rt).as_str());
        text.append("' (");
        text.append(decimal(self.raw).as_str());
        text.append(") [core ");
        text.append(decimal(Cores::current(env) as u64).as_str());
        text.append("]");
        text
    }

    /// Shows whom the caller acts as and which core it runs on.
    pub fn current_info(rt: &ThreadRegistry, env: &CoreEnv) -> (text: String)
        requires
            rt.wf(),
            env.wf(),
        ensures
            text@ == match rt@.current {
                Some(t) => spec_thread_info(
                    rt@.threads[t.spec_index()].name,
                    t.spec_raw(),
                    env.spec_current(),
                ),
                None => spec_no_thread_info(env.spec_current()),
            },
    {
        match Thread::current(rt) {
            Some(t) => t.info(rt, env),
            None => {
                let mut text = String::from_str("Non-SPDK thread [core ");
                text.append(decimal(Cores::current(env) as u64).as_str());
                text.append("]");
                text
            },
        }
    }
}

} // verus!
