//! The CPU cores that the runtime runs on, masks over them, and the
//! round-robin choice of a core.
use vstd::prelude::*;

verus! {

/// The value that stands for "no core".
pub const NO_CORE: u32 = u32::MAX;

/// The number of cores that a [`CpuMask`] has a bit for.
pub const CPU_MASK_SIZE: u32 = 1024;

/// Which number about the cores is asked for.
#[derive(Debug, Clone, Copy, PartialEq, Eq, Structural)]
pub enum Core {
    /// How many cores there are.
    Count,
    /// The core that the caller runs on.
    Current,
    /// The first core.
    First,
    /// The last core.
    Last,
}

/// True where each entry is smaller than the next.
pub open spec fn ascending(s: Seq<u32>) -> bool {
    forall|i: int, j: int| 0 <= i < j < s.len() ==> s[i] < s[j]
}

/// The position of the first entry at or after `from` that is greater than
/// `prev`; the length where there is none.
pub open spec fn first_above(s: Seq<u32>, prev: u32, from: int) -> int
    decreases s.len() - from,
{
    if from < 0 || from >= s.len() {
        s.len() as int
    } else if s[from] > prev {
        from
    } else {
        first_above(s, prev, from + 1)
    }
}

/// In an ascending list, the first entry above the entry at `i` is its
/// neighbour.
pub proof fn lemma_first_above_neighbour(s: Seq<u32>, i: int, from: int)
    requires
        ascending(s),
        0 <= from <= i < s.len(),
    ensures
        first_above(s, s[i], from) == if i + 1 < s.len() {
            i + 1
        } else {
            s.len() as int
        },
    decreases s.len() - from,
{
    if from < i {
        assert(s[from] < s[i]);
        lemma_first_above_neighbour(s, i, from + 1);
    } else {
        assert(first_above(s, s[i], i) == first_above(s, s[i], i + 1));
        if i + 1 < s.len() {
            assert(s[i] < s[i + 1]);
        }
    }
}

/// The cores that the runtime was started on and the one the caller is on.
pub struct CoreEnv {
    cores: Vec<u32>,
    current: u32,
}

impl CoreEnv {
    /// The cores, in ascending order.
    pub closed spec fn view(&self) -> Seq<u32> {
        self.cores@
    }

    /// The core that the caller runs on.
    pub closed spec fn spec_current(&self) -> u32 {
        self.current
    }

    /// There is at least one core, the cores ascend, none is [`NO_CORE`],
    /// and the caller runs on one of them.
    pub open spec fn wf(&self) -> bool {
        &&& self@.len() > 0
        &&& self@.len() < u32::MAX
        &&& ascending(self@)
        &&& forall|i: int| 0 <= i < self@.len() ==> self@[i] != NO_CORE
        &&& self@.contains(self.spec_current())
    }

    /// The core that follows `prev`: the least core greater than `prev`, or
    /// [`NO_CORE`] where there is none.
    pub open spec fn spec_next_core(&self, prev: u32) -> u32 {
        let at = first_above(self@, prev, 0);
        if at < self@.len() {
            self@[at]
        } else {
            NO_CORE
        }
    }

    /// Makes an environment out of a list of cores and the position in it of
    /// the caller's core. `None` where the list is empty, does not ascend or
    /// holds [`NO_CORE`], or where the position is outside it.
    pub fn new(cores: Vec<u32>, current_at: usize) -> (env: Option<Self>)
        ensures
            env.is_some() <==> (cores@.len() > 0 && cores@.len() < u32::MAX && ascending(cores@)
                && (forall|i: int| 0 <= i < cores@.len() ==> cores@[i] != NO_CORE) && current_at
                < cores@.len()),
            env.is_some() ==> env.unwrap().wf() && env.unwrap()@ == cores@
                && env.unwrap().spec_current() == cores@[current_at as int],
    {
        let n = cores.len();
        if n == 0 || n >= u32::MAX as usize || current_at >= n {
            return None;
        }
        if cores[0] == NO_CORE {
            return None;
        }
        let mut i: usize = 1;
        while i < n
            invariant
                1 <= i <= n,
                n == cores@.len(),
                forall|a: int, b: int| 0 <= a < b < i ==> cores@[a] < cores@[b],
                forall|a: int| 0 <= a < i ==> cores@[a] != NO_CORE,
            decreases n - i,
        {
            if cores[i - 1] >= cores[i] || cores[i] == NO_CORE {
                return None;
            }
            proof {
                assert forall|a: int, b: int| 0 <= a < b < i + 1 implies cores@[a] < cores@[b] by {
                    if b == i && a < i - 1 {
                        assert(cores@[a] < cores@[i - 1]);
                    }
                }
            }
            i += 1;
        }
        let current = cores[current_at];
        Some(CoreEnv { cores, current })
    }

    /// The core that follows `prev`.
    pub fn next_core(&self, prev: u32) -> (next: u32)
        requires
            self.wf(),
        ensures
            next == self.spec_next_core(prev),
    {
        let mut i: usize = 0;
        while i < self.cores.len()
            invariant
                0 <= i <= self.cores@.len(),
                first_above(self@, prev, 0) == first_above(self@, prev, i as int),
            decreases self.cores@.len() - i,
        {
            if self.cores[i] > prev {
                return self.cores[i];
            }
            i += 1;
        }
        NO_CORE
    }
}

/// A number about the cores: how many there are, or which one is last.
#[derive(Debug, Clone, Copy, PartialEq, Eq, Structural)]
pub struct Cores(pub u32);

impl Cores {
    /// The number that [`Core`] asks for.
    pub open spec fn spec_get_core(env: &CoreEnv, c: Core) -> u32 {
        match c {
            Core::Count => env@.len() as u32,
            Core::Current => env.spec_current(),
            Core::First => env@[0],
            Core::Last => env@[env@.len() - 1],
        }
    }

    /// How many cores there are.
    pub fn count(env: &CoreEnv) -> (n: Self)
        requires
            env.wf(),
        ensures
            n.0 == env@.len(),
    {
        Cores(Self::get_core(env, Core::Count))
    }

    /// The first core.
    pub fn first(env: &CoreEnv) -> (c: u32)
        requires
            env.wf(),
        ensures
            c == env@[0],
    {
        Self::get_core(env, Core::First)
    }

    /// The last core.
    pub fn last(env: &CoreEnv) -> (c: Self)
        requires
            env.wf(),
        ensures
            c.0 == env@[env@.len() - 1],
    {
        Cores(Self::get_core(env, Core::Last))
    }

    /// The core that the caller runs on.
    pub fn current(env: &CoreEnv) -> (c: u32)
        requires
            env.wf(),
        ensures
            c == env.spec_current(),
            env@.contains(c),
    {
        Self::get_core(env, Core::Current)
    }

    /// The number held.
    pub fn id(&self) -> (n: u32)
        ensures
            n == self.0,
    {
        self.0
    }

    /// Looks up one number about the cores.
    pub fn get_core(env: &CoreEnv, c: Core) -> (n: u32)
        requires
            env.wf(),
        ensures
            n == Self::spec_get_core(env, c),
    {
        match c {
            Core::Count => env.cores.len() as u32,
            Core::Current => env.current,
            Core::First => env.cores[0],
            Core::Last => env.cores[env.cores.len() - 1],
        }
    }

    /// All cores, in ascending order.
    pub fn list_cores(env: &CoreEnv) -> (list: Vec<u32>)
        requires
            env.wf(),
        ensures
            list@ == env@,
    {
        let mut it = Self::count(env).into_iter();
        let mut list: Vec<u32> = Vec::new();
        loop
            invariant
                env.wf(),
                it.spec_position(env) == list@.len(),
                list@ == env@.subrange(0, list@.len() as int),
                list@.len() <= env@.len(),
            decreases env@.len() - list@.len(),
        {
            match it.next(env) {
                Some(c) => {
                    list.push(c);
                    assert(list@ =~= env@.subrange(0, list@.len() as int));
                },
                None => {
                    assert(list@ =~= env@);
                    return list;
                },
            }
        }
    }

    /// Starts a walk over all cores.
    pub fn into_iter(self) -> (it: CoreIterator)
        ensures
            it.spec_current() == NO_CORE,
    {
        CoreIterator { current: NO_CORE }
    }
}

/// A walk over the cores, from the first to the last.
pub struct CoreIterator {
    current: u32,
}

impl CoreIterator {
    /// The core that the walk handed out last; [`NO_CORE`] before the first
    /// and after the last.
    pub closed spec fn spec_current(&self) -> u32 {
        self.current
    }

    /// How many cores the walk has handed out: none before the first step,
    /// else the position after the core handed out last.
    pub open spec fn spec_position(&self, env: &CoreEnv) -> int {
        if self.spec_current() == NO_CORE {
            0
        } else {
            first_above(env@, self.spec_current(), 0)
        }
    }

    /// Hands out the next core: the first one at the start, then the core
    /// that follows the one handed out last, and `None` after the last. A
    /// walk that has ended starts over.
    pub fn next(&mut self, env: &CoreEnv) -> (c: Option<u32>)
        requires
            env.wf(),
        ensures
            old(self).spec_current() == NO_CORE ==> c == Some(env@[0]),
            old(self).spec_current() != NO_CORE ==> (env.spec_next_core(
                old(self).spec_current(),
            ) == NO_CORE ==> c.is_none()) && (env.spec_next_core(old(self).spec_current())
                != NO_CORE ==> c == Some(env.spec_next_core(old(self).spec_current()))),
            c.is_some() ==> final(self).spec_current() == c.unwrap(),
            c.is_none() ==> final(self).spec_current() == NO_CORE,
            old(self).spec_position(env) < env@.len() ==> c == Some(
                env@[old(self).spec_position(env)],
            ) && final(self).spec_position(env) == old(self).spec_position(env) + 1,
            old(self).spec_position(env) >= env@.len() ==> c.is_none(),
    {
        if self.current == NO_CORE {
            self.current = Cores::get_core(env, Core::First);
            proof {
                lemma_first_above_neighbour(env@, 0, 0);
            }
            return Some(self.current);
        }
        let ghost at = first_above(env@, self.current, 0);
        proof {
            lemma_first_above_range(env@, self.current, 0);
            if at < env@.len() {
                lemma_first_above_neighbour(env@, at, 0);
            }
        }
        self.current = env.next_core(self.current);
        if self.current == NO_CORE {
            None
        } else {
            Some(self.current)
        }
    }
}

/// Where [`first_above`] lands: at or after `from`, at most at the length,
/// and on an entry above `prev` if inside the list.
pub proof fn lemma_first_above_range(s: Seq<u32>, prev: u32, from: int)
    requires
        0 <= from <= s.len(),
    ensures
        from <= first_above(s, prev, from) <= s.len(),
        first_above(s, prev, from) < s.len() ==> s[first_above(s, prev, from)] > prev,
    decreases s.len() - from,
{
    if from < s.len() && s[from] <= prev {
        lemma_first_above_range(s, prev, from + 1);
    }
}

/// A set of cores, one bit for each of the first [`CPU_MASK_SIZE`] cores.
pub struct CpuMask {
    bits: Vec<bool>,
}

impl CpuMask {
    /// The cores in the mask.
    pub closed spec fn view(&self) -> Set<u32> {
        Set::new(|c: u32| c < self.bits@.len() && self.bits@[c as int])
    }

    /// The mask has a bit for each core it can hold.
    pub closed spec fn wf(&self) -> bool {
        self.bits@.len() == CPU_MASK_SIZE
    }

    /// The empty mask.
    pub fn new() -> (m: Self)
        ensures
            m.wf(),
            m@ == Set::<u32>::empty(),
    {
        let mut bits: Vec<bool> = Vec::new();
        let mut i: u32 = 0;
        while i < CPU_MASK_SIZE
            invariant
                i <= CPU_MASK_SIZE,
                bits@.len() == i,
                forall|k: int| 0 <= k < i ==> !bits@[k],
            decreases CPU_MASK_SIZE - i,
        {
            bits.push(false);
            i += 1;
        }
        let m = CpuMask { bits };
        assert(m@ =~= Set::<u32>::empty());
        m
    }

    /// Puts a core into the mask, or takes it out.
    pub fn set_cpu(&mut self, cpu: u32, state: bool)
        requires
            old(self).wf(),
            cpu < CPU_MASK_SIZE,
        ensures
            final(self).wf(),
            state ==> final(self)@ == old(self)@.insert(cpu),
            !state ==> final(self)@ == old(self)@.remove(cpu),
    {
        self.bits.set(cpu as usize, state);
        proof {
            if state {
                assert(self@ =~= old(self)@.insert(cpu));
            } else {
                assert(self@ =~= old(self)@.remove(cpu));
            }
        }
    }

    /// The mask of the processors that the runtime leaves alone: of the
    /// first `online` processors, those that are no core of the runtime.
    pub fn unaffinitized(online: u32, env: &CoreEnv) -> (m: Self)
        requires
            env.wf(),
            online <= CPU_MASK_SIZE,
        ensures
            m.wf(),
            m@ == Set::new(|c: u32| c < online && !env@.contains(c)),
    {
        let mut m = CpuMask::new();
        let mut i: u32 = 0;
        while i < online
            invariant
                m.wf(),
                0 <= i <= online,
                online <= CPU_MASK_SIZE,
                m@ == Set::new(|c: u32| c < i),
            decreases online - i,
        {
            m.set_cpu(i, true);
            proof {
                assert(m@ =~= Set::new(|c: u32| c < i + 1));
            }
            i += 1;
        }
        let cores = Cores::list_cores(env);
        let mut k: usize = 0;
        while k < cores.len()
            invariant
                m.wf(),
                cores@ == env@,
                0 <= k <= cores@.len(),
                m@ == Set::new(|c: u32| c < online && !env@.subrange(0, k as int).contains(c)),
            decreases cores@.len() - k,
        {
            let core = cores[k];
            if core < CPU_MASK_SIZE {
                m.set_cpu(core, false);
            }
            proof {
                let before = env@.subrange(0, k as int);
                let after = env@.subrange(0, k + 1);
                assert forall|c: u32| after.contains(c) <==> (before.contains(c) || c == core) by {
                    if after.contains(c) {
                        let at = choose|at: int| 0 <= at < after.len() && after[at] == c;
                        if at < k {
                            assert(before[at] == c);
                        }
                    }
                    if before.contains(c) {
                        let at = choose|at: int| 0 <= at < before.len() && before[at] == c;
                        assert(after[at] == c);
                    }
                    if c == core {
                        assert(after[k as int] == c);
                    }
                }
                assert(m@ =~= Set::new(|c: u32| c < online && !after.contains(c)));
            }
            k += 1;
        }
        proof {
            assert(env@.subrange(0, k as int) =~= env@);
        }
        m
    }

    /// True where the core is in the mask.
    pub fn is_set(&self, cpu: u32) -> (b: bool)
        requires
            self.wf(),
        ensures
            b == self@.contains(cpu),
    {
        cpu < CPU_MASK_SIZE && self.bits[cpu as usize]
    }
}

/// What every core selector holds: the cores and the place of the next one
/// to offer.
pub struct CoreSelectorBase {
    cores: Vec<u32>,
    next: usize,
}

impl CoreSelectorBase {
    /// The cores to choose from.
    pub closed spec fn spec_cores(&self) -> Seq<u32> {
        self.cores@
    }

    /// The place of the core that is offered next.
    pub closed spec fn spec_next(&self) -> int {
        self.next as int
    }

    /// There is a core, and the next place is inside the list.
    pub open spec fn wf(&self) -> bool {
        0 <= self.spec_next() < self.spec_cores().len()
    }

    /// A selector over all cores of the environment, starting at the first.
    pub fn new(env: &CoreEnv) -> (s: Self)
        requires
            env.wf(),
        ensures
            s.wf(),
            s.spec_cores() == env@,
            s.spec_next() == 0,
    {
        let cores = Cores::list_cores(env);
        CoreSelectorBase { cores, next: 0 }
    }
}

/// The place `steps` after `start` in a ring of `len` places.
pub open spec fn ring_at(start: int, steps: int, len: int) -> int {
    if start + steps < len {
        start + steps
    } else {
        start + steps - len
    }
}

/// What a round-robin choice comes to when `f` turns down the first `j` cores
/// offered from `start` on: with `j` short of the whole ring, the core at the
/// next place is accepted and chosen, and the turn passes to the place after
/// it; with `j` the whole ring, the core at `start` is chosen and keeps its
/// turn.
pub open spec fn filter_outcome<F: Fn(u32) -> bool>(
    f: F,
    cores: Seq<u32>,
    start: int,
    j: int,
    core: u32,
    next: int,
) -> bool {
    let len = cores.len() as int;
    &&& 0 <= j <= len
    &&& forall|i: int| 0 <= i < j ==> f.ensures((#[trigger] cores[ring_at(start, i, len)],), false)
    &&& j < len ==> {
        let at = ring_at(start, j, len);
        &&& f.ensures((cores[at],), true)
        &&& core == cores[at]
        &&& next == ring_at(at, 1, len)
    }
    &&& j == len ==> core == cores[start] && next == start
}

/// Chooses cores in turn.
pub struct RoundRobinCoreSelector(pub CoreSelectorBase);

impl RoundRobinCoreSelector {
    /// A round-robin selector over all cores of the environment.
    pub fn new(env: &CoreEnv) -> (s: Self)
        requires
            env.wf(),
        ensures
            s.0.wf(),
            s.0.spec_cores() == env@,
            s.0.spec_next() == 0,
    {
        RoundRobinCoreSelector(CoreSelectorBase::new(env))
    }

    /// Chooses the next core that `f` accepts. The cores are offered in
    /// turn, starting with the one whose turn it is; the first accepted one
    /// is chosen, and the turn passes to the core after it. Where `f`
    /// accepts none, the core whose turn it was is chosen all the same and
    /// keeps its turn.
    pub fn filter_next<F: Fn(u32) -> bool>(&mut self, f: F) -> (core: u32)
        requires
            old(self).0.wf(),
            forall|c: u32| f.requires((c,)),
        ensures
            final(self).0.wf(),
            final(self).0.spec_cores() == old(self).0.spec_cores(),
            exists|j: int| #[trigger]
                filter_outcome(
                    f,
                    old(self).0.spec_cores(),
                    old(self).0.spec_next(),
                    j,
                    core,
                    final(self).0.spec_next(),
                ),
    {
        let len = self.0.cores.len();
        let start = self.0.next;
        let mut n = start;
        let mut steps: usize = 0;
        let ghost cores = self.0.cores@;
        loop
            invariant
                self.0.cores@ == cores,
                cores == old(self).0.spec_cores(),
                len == cores.len(),
                start == old(self).0.spec_next(),
                0 <= start < len,
                0 <= steps < len,
                n == ring_at(start as int, steps as int, len as int),
                self.0.next == n,
                forall|c: u32| f.requires((c,)),
                forall|i: int|
                    0 <= i < steps ==> f.ensures(
                        (#[trigger] cores[ring_at(start as int, i, len as int)],),
                        false,
                    ),
            decreases len - steps,
        {
            self.0.next += 1;
            if self.0.next == len {
                self.0.next = 0;
            }
            if f(self.0.cores[n]) {
                assert(self.0.next == ring_at(n as int, 1, len as int));
                assert(filter_outcome(
                    f,
                    cores,
                    start as int,
                    steps as int,
                    cores[n as int],
                    self.0.next as int,
                ));
                return self.0.cores[n];
            }
            let ghost turned_down = n;
            n = self.0.next;
            steps += 1;
            assert forall|i: int| 0 <= i < steps implies f.ensures(
                (#[trigger] cores[ring_at(start as int, i, len as int)],),
                false,
            ) by {
                if i == steps - 1 {
                    assert(ring_at(start as int, i, len as int) == turned_down);
                }
            }
            if start == n {
                assert(steps == len);
                assert(filter_outcome(
                    f,
                    cores,
                    start as int,
                    len as int,
                    cores[start as int],
                    start as int,
                ));
                let kept = self.0.cores[start];
                assert(self.0.spec_next() == start as int);
                assert(kept == cores[start as int]);
                assert(filter_outcome(
                    f,
                    old(self).0.spec_cores(),
                    old(self).0.spec_next(),
                    len as int,
                    kept,
                    self.0.spec_next(),
                ));
                return kept;
            }
        }
    }
}

} // verus!
