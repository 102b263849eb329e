//! The cooperative scheduler: a ready queue, a running thread, and the
//! rotation between them.
use vstd::prelude::*;
use std::collections::VecDeque;

verus! {

/// Bytes of stack given to each spawned thread.
pub const STACK_SIZE: u32 = 4096;

/// Alignment of a thread stack.
pub const STACK_ALIGN: u32 = 16;

/// The callee-saved registers, stack pointer and instruction pointer of a
/// suspended thread: what the context switch saves and restores.
#[derive(Clone, Copy, PartialEq, Eq, Structural, Debug)]
pub struct ThreadState {
    pub edi: u32,
    pub esi: u32,
    pub ebx: u32,
    pub ebp: u32,
    pub esp: u32,
    pub eip: u32,
}

/// A thread: its saved context, and whether it is still to be scheduled.
#[derive(Clone, Copy, PartialEq, Eq, Structural, Debug)]
pub struct Thread {
    pub exec_state: ThreadState,
    pub is_alive: bool,
}

/// The cooperative scheduler: the ready queue (front first), the running
/// thread, and whether any thread has run yet.
pub struct Scheduler {
    pub ready_threads: VecDeque<Thread>,
    pub running_thread: Option<Thread>,
    pub alive: bool,
}

/// The scheduler as a value: ready queue, running thread, and whether any
/// thread has run yet.
pub type SchedModel = (Seq<Thread>, Option<Thread>, bool);

/// `t` with its saved context replaced by `saved`, when there is one.
pub open spec fn with_state(t: Thread, saved: Option<ThreadState>) -> Thread {
    match saved {
        Some(s) => Thread { exec_state: s, is_alive: t.is_alive },
        None => t,
    }
}

/// Whether a reschedule from `m` suspends the running thread, so that its
/// context must be captured first.
pub open spec fn suspends(m: SchedModel) -> bool {
    m.0.len() > 0 && m.2 && m.1 is Some && m.1->Some_0.is_alive
}

/// The scheduler after `t` is spawned: it goes to the front of the queue.
pub open spec fn spawn_model(m: SchedModel, t: Thread) -> SchedModel {
    (seq![t] + m.0, m.1, m.2)
}

/// The scheduler after a reschedule, `saved` being the context captured
/// from the running thread. With an empty queue nothing changes. Otherwise
/// a running thread that is alive goes to the back of the queue with its
/// captured context, and the front of the queue becomes the running thread.
pub open spec fn resched_model(m: SchedModel, saved: Option<ThreadState>) -> SchedModel {
    if m.0.len() == 0 {
        m
    } else {
        let q = if suspends(m) {
            m.0.push(with_state(m.1->Some_0, saved))
        } else {
            m.0
        };
        (q.drop_first(), Some(q[0]), true)
    }
}

/// The thread that `spawn_thread` creates: it starts in the trampoline at
/// `trampoline`, which finds the entry point in `ebx` and its data in `esi`,
/// on the stack that ends at `stack + STACK_SIZE`.
pub open spec fn new_thread(trampoline: u32, entry: u32, data: u32, stack: u32) -> Thread {
    Thread {
        exec_state: ThreadState {
            edi: 0,
            esi: data,
            ebx: entry,
            ebp: 0,
            esp: (stack + STACK_SIZE) as u32,
            eip: trampoline,
        },
        is_alive: true,
    }
}

/// The scheduler after `n` reschedules from `m`, the `i`-th of them
/// (counting from 0) handed the captured context `saves[i]`.
pub open spec fn resched_n(m: SchedModel, saves: Seq<Option<ThreadState>>, n: nat) -> SchedModel
    decreases n,
{
    if n == 0 {
        m
    } else {
        resched_model(resched_n(m, saves, (n - 1) as nat), saves[n - 1])
    }
}

/// A reschedule with an empty ready queue changes nothing: in particular,
/// before any thread is spawned the boot context keeps running.
pub proof fn lemma_empty_queue_reschedule_is_noop(m: SchedModel, saved: Option<ThreadState>)
    requires
        m.0.len() == 0,
    ensures
        resched_model(m, saved) == m,
        !suspends(m),
{
}

/// Threads spawned in the order `t1`, `t2`, `t3` from the boot context run
/// newest first: the first reschedule runs `t3` and leaves `t2`, `t1`
/// queued, in that order.
pub proof fn lemma_newest_spawn_runs_first(t1: Thread, t2: Thread, t3: Thread, saved: Option<ThreadState>)
    ensures
        ({
            let boot: SchedModel = (Seq::<Thread>::empty(), None::<Thread>, false);
            let m = spawn_model(spawn_model(spawn_model(boot, t1), t2), t3);
            resched_model(m, saved) == (seq![t2, t1], Some(t3), true)
        }),
{
    let boot: SchedModel = (Seq::<Thread>::empty(), None::<Thread>, false);
    let m = spawn_model(spawn_model(spawn_model(boot, t1), t2), t3);
    assert(m.0 =~= seq![t3, t2, t1]);
    assert(m.0.drop_first() =~= seq![t2, t1]);
}

proof fn lemma_rotation_prefix(m: SchedModel, saves: Seq<Option<ThreadState>>, j: nat)
    requires
        m.2,
        m.1 is Some,
        m.1->Some_0.is_alive,
        m.0.len() > 0,
        forall|i: int| 0 <= i < m.0.len() ==> (#[trigger] m.0[i]).is_alive,
        1 <= j <= m.0.len(),
        saves.len() > m.0.len(),
    ensures
        ({
            let k = m.0.len() as int;
            let r = resched_n(m, saves, j);
            &&& r.2
            &&& r.1 == Some(m.0[j - 1])
            &&& r.0.len() == k
            &&& r.0.subrange(0, k - j) == m.0.subrange(j as int, k)
            &&& r.0[k - j] == with_state(m.1->Some_0, saves[0])
            &&& forall|i: int| 0 <= i < k ==> (#[trigger] r.0[i]).is_alive
        }),
    decreases j,
{
    let k = m.0.len() as int;
    let a = m.1->Some_0;
    if j == 1 {
        assert(resched_n(m, saves, 0) == m);
        let q = m.0.push(with_state(a, saves[0]));
        let r = resched_n(m, saves, 1);
        assert(r == (q.drop_first(), Some(q[0]), true));
        assert(r.0.subrange(0, k - 1) =~= m.0.subrange(1, k));
        assert forall|i: int| 0 <= i < k implies (#[trigger] r.0[i]).is_alive by {
            assert(r.0[i] == q[i + 1]);
        }
    } else {
        lemma_rotation_prefix(m, saves, (j - 1) as nat);
        let p = resched_n(m, saves, (j - 1) as nat);
        assert(p.0.subrange(0, k - j + 1)[0] == m.0.subrange(j - 1, k)[0]);
        assert(p.0[0] == m.0[j - 1]);
        let q = p.0.push(with_state(p.1->Some_0, saves[j - 1]));
        let r = resched_n(m, saves, j);
        assert(suspends(p));
        assert(r == (q.drop_first(), Some(q[0]), true));
        assert forall|i: int| 0 <= i < k - j implies #[trigger] r.0.subrange(0, k - j)[i] == m.0.subrange(j as int, k)[i] by {
            assert(p.0.subrange(0, k - j + 1)[i + 1] == m.0.subrange(j - 1, k)[i + 1]);
        }
        assert(r.0.subrange(0, k - j) =~= m.0.subrange(j as int, k));
        assert forall|i: int| 0 <= i < k implies (#[trigger] r.0[i]).is_alive by {
            assert(r.0[i] == q[i + 1]);
        }
    }
}

/// Round robin: when a running thread and the `k` threads queued behind it
/// are all alive and no thread is spawned meanwhile, the next `k`
/// reschedules run the queued threads in queue order and the one after runs
/// the first thread again, with the context captured from it; so every
/// thread runs once before any thread runs twice.
pub proof fn lemma_round_robin(m: SchedModel, saves: Seq<Option<ThreadState>>, j: nat)
    requires
        m.2,
        m.1 is Some,
        m.1->Some_0.is_alive,
        m.0.len() > 0,
        forall|i: int| 0 <= i < m.0.len() ==> (#[trigger] m.0[i]).is_alive,
        1 <= j <= m.0.len(),
        saves.len() > m.0.len(),
    ensures
        resched_n(m, saves, j).1 == Some(m.0[j - 1]),
        resched_n(m, saves, (m.0.len() + 1) as nat).1 == Some(with_state(m.1->Some_0, saves[0])),
{
    lemma_rotation_prefix(m, saves, j);
    let k = m.0.len();
    lemma_rotation_prefix(m, saves, k);
    let p = resched_n(m, saves, k);
    assert(suspends(p));
}

impl ThreadState {
    /// All registers zero.
    pub fn new() -> (r: ThreadState)
        ensures
            r == (ThreadState { edi: 0, esi: 0, ebx: 0, ebp: 0, esp: 0, eip: 0 }),
    {
        ThreadState { edi: 0, esi: 0, ebx: 0, ebp: 0, esp: 0, eip: 0 }
    }
}

impl Thread {
    /// A thread with an empty context that is not alive.
    pub fn new() -> (r: Thread)
        ensures
            r == (Thread { exec_state: ThreadState { edi: 0, esi: 0, ebx: 0, ebp: 0, esp: 0, eip: 0 }, is_alive: false }),
    {
        Thread { exec_state: ThreadState::new(), is_alive: false }
    }
}

impl Scheduler {
    pub open spec fn model(&self) -> SchedModel {
        (self.ready_threads@, self.running_thread, self.alive)
    }

    /// No threads; the boot context runs.
    pub fn new() -> (r: Scheduler)
        ensures
            r.model() == (Seq::<Thread>::empty(), None::<Thread>, false),
    {
        Scheduler { ready_threads: VecDeque::new(), running_thread: None, alive: false }
    }

    /// Creates a thread (see `new_thread`) and puts it at the front of the
    /// ready queue, so that the newest thread runs first.
    pub fn spawn_thread(&mut self, trampoline: u32, entry: u32, data: u32, stack: u32)
        requires
            stack + STACK_SIZE <= u32::MAX,
        ensures
            final(self).model() == spawn_model(old(self).model(), new_thread(trampoline, entry, data, stack)),
    {
        let mut t = Thread::new();
        t.exec_state.eip = trampoline;
        t.exec_state.ebx = entry;
        t.exec_state.esi = data;
        t.exec_state.esp = stack + STACK_SIZE;
        t.is_alive = true;
        self.ready_threads.push_front(t);
        proof {
            assert(self.ready_threads@ =~= seq![new_thread(trampoline, entry, data, stack)] + old(self).ready_threads@);
        }
    }

    /// Whether the next reschedule suspends the running thread: its context
    /// must then be captured and handed to `reschedule`.
    pub fn needs_save(&self) -> (r: bool)
        ensures
            r == suspends(self.model()),
    {
        if self.ready_threads.len() == 0 || !self.alive {
            return false;
        }
        match &self.running_thread {
            Some(t) => t.is_alive,
            None => false,
        }
    }

    /// Switches threads. With an empty ready queue nothing changes and
    /// `None` comes back: the current context keeps running. Otherwise the
    /// running thread, if alive, goes to the back of the queue with the
    /// context `saved` captured from it, the front of the queue becomes the
    /// running thread, and its context comes back to be resumed.
    pub fn reschedule(&mut self, saved: Option<ThreadState>) -> (r: Option<ThreadState>)
        ensures
            final(self).model() == resched_model(old(self).model(), saved),
            old(self).ready_threads@.len() == 0 <==> r is None,
            r is Some ==> final(self).running_thread is Some
                && r->Some_0 == final(self).running_thread->Some_0.exec_state,
    {
        if self.ready_threads.len() == 0 {
            return None;
        }
        let suspend = self.needs_save();
        if suspend {
            match self.running_thread {
                Some(t) => {
                    let mut old_thread = t;
                    match saved {
                        Some(s) => {
                            old_thread.exec_state = s;
                        },
                        None => {},
                    }
                    self.ready_threads.push_back(old_thread);
                },
                None => {},
            }
        }
        let new_thread = match self.ready_threads.pop_front() {
            Some(t) => t,
            None => {
                return None;
            },
        };
        self.running_thread = Some(new_thread);
        self.alive = true;
        proof {
            let m = old(self).model();
            let q = if suspends(m) { m.0.push(with_state(m.1->Some_0, saved)) } else { m.0 };
            assert(self.ready_threads@ =~= q.drop_first());
        }
        Some(new_thread.exec_state)
    }

    /// Marks the running thread as terminated: the next reschedule drops
    /// it instead of queueing it again.
    pub fn thread_terminate(&mut self)
        ensures
            final(self).ready_threads@ == old(self).ready_threads@,
            final(self).alive == old(self).alive,
            old(self).running_thread is None ==> final(self).running_thread is None,
            old(self).running_thread is Some ==> final(self).running_thread == Some(Thread {
                exec_state: old(self).running_thread->Some_0.exec_state,
                is_alive: false,
            }),
    {
        match self.running_thread {
            Some(t) => {
                let mut done = t;
                done.is_alive = false;
                self.running_thread = Some(done);
            },
            None => {},
        }
    }

    /// Number of threads waiting in the ready queue.
    pub fn ready_count(&self) -> (r: usize)
        ensures
            r == self.ready_threads@.len(),
    {
        self.ready_threads.len()
    }
}

} // verus!
