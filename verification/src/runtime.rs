//! Signals, the effects that read them, and the order in which stale
//! effects run again.
//!
//! The runtime decides; its caller acts. The body of an effect is the
//! caller's code: between `register` or `run_next`, which open a run, and
//! `finish`, which closes it, the caller executes the body and reads and
//! writes signals through the runtime, which records what the run touched.

use crate::error::Error;
use crate::value::{Value, ValueView};
use vstd::prelude::*;

verus! {

/// The right to read one signal.
#[derive(Clone, Copy, Debug, PartialEq, Eq, Structural)]
pub struct Reader {
    pub signal: usize,
}

/// The right to write one signal.
#[derive(Clone, Copy, Debug, PartialEq, Eq, Structural)]
pub struct Writer {
    pub signal: usize,
}

/// The name of one registered effect.
#[derive(Clone, Copy, Debug, PartialEq, Eq, Structural)]
pub struct EffectHandle {
    pub effect: usize,
}

/// One signal, as contracts see it.
pub struct SignalView {
    /// The current value.
    pub value: ValueView,
    /// How often the signal was written, counted modulo 2^64.
    pub version: u64,
    /// The effect whose run wrote the signal last, if a run ever did.
    pub producer: Option<usize>,
    /// The effect in whose run the signal was created, if it was in one.
    pub owner: Option<usize>,
    /// Whether the signal has not been released.
    pub live: bool,
}

/// One effect, as contracts see it.
pub struct EffectView {
    /// The signals that the most recent run has read.
    pub deps: Set<usize>,
    /// Whether a signal changed that the most recent run had read.
    pub dirty: bool,
    /// Whether the effect has not been disposed.
    pub live: bool,
    /// The effect in whose run this one was registered, if it was in one.
    pub owner: Option<usize>,
    /// Whether the most recent run failed.
    pub failed: bool,
}

/// The whole runtime, as contracts see it.
pub struct RuntimeView {
    pub signals: Seq<SignalView>,
    pub effects: Seq<EffectView>,
    /// The runs that are open, the innermost last.
    pub running: Seq<usize>,
}

/// The version after one more write.
pub open spec fn next_version(version: u64) -> u64 {
    if version == u64::MAX {
        0
    } else {
        (version + 1) as u64
    }
}

impl RuntimeView {
    /// What holds of every runtime: indices point at what exists, a
    /// disposed effect reads nothing and is not dirty, and an owner is
    /// older than what it owns.
    pub open spec fn wf(self) -> bool {
        &&& forall|e: int, s: usize|
            0 <= e < self.effects.len() && #[trigger] self.effects[e].deps.contains(s) ==> s
                < self.signals.len()
        &&& forall|e: int|
            0 <= e < self.effects.len() && !(#[trigger] self.effects[e]).live
                ==> self.effects[e].deps == Set::<usize>::empty() && !self.effects[e].dirty
        &&& forall|e: int|
            0 <= e < self.effects.len() ==> (#[trigger] self.effects[e].owner matches Some(o)
                ==> o < e)
        &&& forall|s: int|
            0 <= s < self.signals.len() ==> (#[trigger] self.signals[s].producer matches Some(p)
                ==> p < self.effects.len())
        &&& forall|s: int|
            0 <= s < self.signals.len() ==> (#[trigger] self.signals[s].owner matches Some(o)
                ==> o < self.effects.len())
        &&& forall|k: int|
            0 <= k < self.running.len() ==> #[trigger] self.running[k] < self.effects.len()
    }

    /// The effect whose run is the innermost open one.
    pub open spec fn current(self) -> Option<usize> {
        if self.running.len() > 0 {
            Some(self.running.last())
        } else {
            None
        }
    }

    /// Whether `s` is a signal that has not been released.
    pub open spec fn has_signal(self, s: usize) -> bool {
        s < self.signals.len() && self.signals[s as int].live
    }

    /// Whether `e` is an effect that has not been disposed.
    pub open spec fn has_effect(self, e: usize) -> bool {
        e < self.effects.len() && self.effects[e as int].live
    }

    /// Whether effect `e` is a subscriber of signal `s`.
    pub open spec fn subscribes(self, e: usize, s: usize) -> bool {
        e < self.effects.len() && self.effects[e as int].deps.contains(s)
    }

    /// The runtime with one more signal, owned by the current run.
    pub open spec fn created(self, initial: ValueView) -> RuntimeView {
        RuntimeView {
            signals: self.signals.push(
                SignalView {
                    value: initial,
                    version: 0,
                    producer: None,
                    owner: self.current(),
                    live: true,
                },
            ),
            ..self
        }
    }

    /// The runtime after a read of `s`: the effect of the current run, if
    /// it has not been disposed, is now a subscriber.
    pub open spec fn after_read(self, s: usize) -> RuntimeView {
        match self.current() {
            Some(e) if self.effects[e as int].live => RuntimeView {
                effects: self.effects.update(
                    e as int,
                    EffectView { deps: self.effects[e as int].deps.insert(s), ..self.effects[e as int] },
                ),
                ..self
            },
            _ => self,
        }
    }

    /// The runtime after `new` was written to `s`: the signal holds it at
    /// the next version and, if a run wrote it, has that run's effect as
    /// its producer; if the value differs from the one before, every
    /// subscriber is dirty.
    pub open spec fn after_write(self, s: usize, new: ValueView) -> RuntimeView {
        let before = self.signals[s as int];
        RuntimeView {
            signals: self.signals.update(
                s as int,
                SignalView {
                    value: new,
                    version: next_version(before.version),
                    producer: match self.current() {
                        Some(e) => Some(e),
                        None => before.producer,
                    },
                    ..before
                },
            ),
            effects: Seq::new(
                self.effects.len(),
                |e: int|
                    if before.value != new && self.effects[e].deps.contains(s) {
                        EffectView { dirty: true, ..self.effects[e] }
                    } else {
                        self.effects[e]
                    },
            ),
            ..self
        }
    }

    /// Whether a write of `new` to `s` makes some effect dirty.
    pub open spec fn stirs(self, s: usize, new: ValueView) -> bool {
        self.signals[s as int].value != new && exists|e: usize| self.subscribes(e, s)
    }

    /// The runtime with one more effect, owned by the current run, whose
    /// first run is open.
    pub open spec fn registered(self) -> RuntimeView {
        RuntimeView {
            effects: self.effects.push(
                EffectView {
                    deps: Set::empty(),
                    dirty: false,
                    live: true,
                    owner: self.current(),
                    failed: false,
                },
            ),
            running: self.running.push(self.effects.len() as usize),
            ..self
        }
    }

    /// The runtime after the innermost open run has ended, well (`ok`) or
    /// not. Without an open run nothing changes.
    pub open spec fn finished(self, ok: bool) -> RuntimeView {
        match self.current() {
            Some(e) => RuntimeView {
                effects: self.effects.update(
                    e as int,
                    EffectView { failed: !ok, ..self.effects[e as int] },
                ),
                running: self.running.drop_last(),
                ..self
            },
            None => self,
        }
    }

    /// What the end of the innermost open run reports.
    pub open spec fn outcome(self, ok: bool) -> Result<(), Error> {
        match self.current() {
            Some(e) if !ok => Err(Error::EffectExecution { effect: e }),
            _ => Ok(()),
        }
    }

    /// An effect once it is disposed: it reads nothing, is not dirty and
    /// is not live.
    pub open spec fn retired(effect: EffectView) -> EffectView {
        EffectView { deps: Set::empty(), dirty: false, live: false, ..effect }
    }

    /// The runtime after effect `e` was disposed.
    pub open spec fn disposed(self, e: usize) -> RuntimeView {
        if e < self.effects.len() {
            RuntimeView {
                effects: self.effects.update(e as int, Self::retired(self.effects[e as int])),
                ..self
            }
        } else {
            self
        }
    }

    /// Whether effect `x` is `root` or was registered, directly or through
    /// other effects, in a run of `root`.
    pub open spec fn within(self, x: usize, root: usize) -> bool
        decreases x,
    {
        x == root || (x < self.effects.len() && match self.effects[x as int].owner {
            Some(o) => o < x && self.within(o, root),
            None => false,
        })
    }

    /// The runtime after the scope of `root` was disposed: every effect
    /// within it is disposed, and every signal created in a run of one of
    /// them is released.
    pub open spec fn scope_disposed(self, root: usize) -> RuntimeView {
        RuntimeView {
            signals: Seq::new(
                self.signals.len(),
                |s: int|
                    match self.signals[s].owner {
                        Some(o) if self.within(o, root) => SignalView {
                            live: false,
                            ..self.signals[s]
                        },
                        _ => self.signals[s],
                    },
            ),
            effects: Seq::new(
                self.effects.len(),
                |x: int|
                    if self.within(x as usize, root) {
                        Self::retired(self.effects[x])
                    } else {
                        self.effects[x]
                    },
            ),
            ..self
        }
    }

    /// Whether the most recent run of `x` wrote a signal that `c` reads.
    pub open spec fn feeds(self, x: usize, c: usize) -> bool {
        c < self.effects.len() && exists|s: usize|
            s < self.signals.len() && #[trigger] self.effects[c as int].deps.contains(s)
                && self.signals[s as int].producer == Some(x)
    }

    /// Whether a chain of `n` feeds leads from `d` to `c`.
    pub open spec fn reaches_in(self, d: usize, c: usize, n: nat) -> bool
        decreases n,
    {
        if n == 0 {
            false
        } else if n == 1 {
            self.feeds(d, c)
        } else {
            exists|m: usize| self.reaches_in(d, m, (n - 1) as nat) && #[trigger] self.feeds(m, c)
        }
    }

    /// Whether `e` is an effect that is dirty.
    pub open spec fn is_dirty(self, e: usize) -> bool {
        e < self.effects.len() && self.effects[e as int].dirty
    }

    /// Whether `c` is fed, directly or through other effects, by an effect
    /// that is dirty: a run of `c` now could see values that are about to
    /// change.
    pub open spec fn awaits(self, c: usize) -> bool {
        exists|d: usize, n: nat| self.is_dirty(d) && #[trigger] self.reaches_in(d, c, n)
    }

    /// Whether `e` is dirty and fed by no dirty effect.
    pub open spec fn ready(self, e: usize) -> bool {
        self.is_dirty(e) && !self.awaits(e)
    }

    /// Whether `r` is the effect to run next. While a run is open, or when
    /// no effect is dirty, there is none. Else it is the first ready
    /// effect, in the order of registration; where the feeds form a cycle
    /// and no dirty effect is ready, it is the first dirty one.
    pub open spec fn is_next(self, r: Option<usize>) -> bool {
        match r {
            None => self.running.len() > 0 || forall|e: usize| !self.is_dirty(e),
            Some(e) => {
                &&& self.running.len() == 0
                &&& self.is_dirty(e)
                &&& if exists|f: usize| self.ready(f) {
                    self.ready(e) && forall|f: usize| f < e ==> !self.ready(f)
                } else {
                    forall|f: usize| f < e ==> !self.is_dirty(f)
                }
            },
        }
    }

    /// The runtime once a new run of `e` is open: the effect has forgotten
    /// what it read before, and is not dirty.
    pub open spec fn begun(self, e: usize) -> RuntimeView {
        RuntimeView {
            effects: self.effects.update(
                e as int,
                EffectView { deps: Set::empty(), dirty: false, failed: false, ..self.effects[e as int] },
            ),
            running: self.running.push(e),
            ..self
        }
    }

    /// The runtime after the scheduler was asked for the next run.
    pub open spec fn after_next(self, r: Option<usize>) -> RuntimeView {
        match r {
            Some(e) => self.begun(e),
            None => self,
        }
    }

    /// Whether `c` reads a signal whose producer is dirty or flagged.
    spec fn fed_late(self, late: Seq<bool>, c: usize) -> bool {
        exists|x: usize|
            x < late.len() && #[trigger] self.feeds(x, c) && (self.is_dirty(x) || late[x as int])
    }

    /// Whether every flag stands for an effect that awaits.
    spec fn flags_sound(self, late: Seq<bool>) -> bool {
        forall|c: usize| c < late.len() && #[trigger] late[c as int] ==> self.awaits(c)
    }

    /// Whether the flags of the first `upto` effects miss no effect that
    /// is fed late.
    spec fn flags_closed(self, late: Seq<bool>, upto: int) -> bool {
        forall|c: usize| c < upto && #[trigger] self.fed_late(late, c) ==> late[c as int]
    }
}

/// One operation of the runtime, with what it is given.
pub enum Step {
    Create(ValueView),
    Read(usize),
    Write(usize, ValueView),
    Register,
    Finish(bool),
    /// A call of `run_next`, with the effect that it opened a run of.
    RunNext(Option<usize>),
    Dispose(usize),
    DisposeScope(usize),
}

impl RuntimeView {
    /// Whether the operation can be carried out: a signal that is read or
    /// written exists, and the scheduler opens the run of the next effect.
    pub open spec fn allows(self, step: Step) -> bool {
        match step {
            Step::Read(s) => self.has_signal(s),
            Step::Write(s, _) => self.has_signal(s),
            Step::RunNext(r) => self.is_next(r),
            _ => true,
        }
    }

    /// The runtime after the operation.
    pub open spec fn after(self, step: Step) -> RuntimeView {
        match step {
            Step::Create(initial) => self.created(initial),
            Step::Read(s) => self.after_read(s),
            Step::Write(s, new) => self.after_write(s, new),
            Step::Register => self.registered(),
            Step::Finish(ok) => self.finished(ok),
            Step::RunNext(r) => self.after_next(r),
            Step::Dispose(e) => self.disposed(e),
            Step::DisposeScope(e) => self.scope_disposed(e),
        }
    }
}

/// How many entries of `s` are `false`.
spec fn count_false(s: Seq<bool>) -> nat
    decreases s.len(),
{
    if s.len() == 0 {
        0
    } else {
        count_false(s.drop_last()) + if s.last() {
            0nat
        } else {
            1nat
        }
    }
}

proof fn lemma_count_false_update(s: Seq<bool>, i: int)
    requires
        0 <= i < s.len(),
        !s[i],
    ensures
        count_false(s.update(i, true)) + 1 == count_false(s),
    decreases s.len(),
{
    let t = s.update(i, true);
    if i == s.len() - 1 {
        assert(t.drop_last() =~= s.drop_last());
    } else {
        assert(t.drop_last() =~= s.drop_last().update(i, true));
        lemma_count_false_update(s.drop_last(), i);
    }
}

proof fn lemma_fed_late_awaits(v: RuntimeView, late: Seq<bool>, c: usize)
    requires
        v.flags_sound(late),
        v.fed_late(late, c),
    ensures
        v.awaits(c),
{
    let x = choose|x: usize|
        x < late.len() && #[trigger] v.feeds(x, c) && (v.is_dirty(x) || late[x as int]);
    if v.is_dirty(x) {
        assert(v.reaches_in(x, c, 1));
    } else {
        assert(v.awaits(x));
        let (d, n) = choose|d: usize, n: nat| v.is_dirty(d) && #[trigger] v.reaches_in(d, x, n);
        assert(n >= 1);
        assert(v.reaches_in(d, x, ((n + 1) - 1) as nat));
        assert(v.reaches_in(d, c, n + 1));
    }
}

proof fn lemma_closed_holds_reached(v: RuntimeView, late: Seq<bool>, d: usize, c: usize, n: nat)
    requires
        late.len() == v.effects.len(),
        v.flags_closed(late, late.len() as int),
        v.is_dirty(d),
        v.reaches_in(d, c, n),
    ensures
        c < late.len(),
        late[c as int],
    decreases n,
{
    if n == 0 {
    } else if n == 1 {
        assert(v.feeds(d, c));
        assert(v.fed_late(late, c));
    } else {
        let m = choose|m: usize| v.reaches_in(d, m, (n - 1) as nat) && #[trigger] v.feeds(m, c);
        lemma_closed_holds_reached(v, late, d, m, (n - 1) as nat);
        assert(v.fed_late(late, c));
    }
}

struct Cell {
    value: Value,
    version: u64,
    producer: Option<usize>,
    owner: Option<usize>,
    live: bool,
}

struct Node {
    deps: Vec<usize>,
    dirty: bool,
    live: bool,
    owner: Option<usize>,
    failed: bool,
}

impl Cell {
    spec fn model(self) -> SignalView {
        SignalView {
            value: self.value@,
            version: self.version,
            producer: self.producer,
            owner: self.owner,
            live: self.live,
        }
    }
}

impl Node {
    spec fn model(self) -> EffectView {
        EffectView {
            deps: self.deps@.to_set(),
            dirty: self.dirty,
            live: self.live,
            owner: self.owner,
            failed: self.failed,
        }
    }
}

/// The signal store and the effect scheduler.
pub struct Runtime {
    cells: Vec<Cell>,
    nodes: Vec<Node>,
    stack: Vec<usize>,
}

fn holds(list: &Vec<usize>, x: usize) -> (b: bool)
    ensures
        b == list@.to_set().contains(x),
{
    let mut i: usize = 0;
    while i < list.len()
        invariant
            i <= list.len(),
            forall|k: int| 0 <= k < i ==> list@[k] != x,
        decreases list.len() - i,
    {
        if list[i] == x {
            assert(list@.contains(x));
            return true;
        }
        i = i + 1;
    }
    false
}

impl View for Runtime {
    type V = RuntimeView;

    closed spec fn view(&self) -> RuntimeView {
        RuntimeView {
            signals: Seq::new(self.cells@.len(), |i: int| self.cells@[i].model()),
            effects: Seq::new(self.nodes@.len(), |i: int| self.nodes@[i].model()),
            running: self.stack@,
        }
    }
}

impl Runtime {
    /// What holds of every runtime that this module hands out.
    pub open spec fn wf(&self) -> bool {
        self@.wf()
    }

    /// A runtime without signals or effects.
    pub fn new() -> (rt: Runtime)
        ensures
            rt.wf(),
            rt@.signals.len() == 0,
            rt@.effects.len() == 0,
            rt@.running.len() == 0,
    {
        Runtime { cells: Vec::new(), nodes: Vec::new(), stack: Vec::new() }
    }

    fn top(&self) -> (e: Option<usize>)
        ensures
            e == self@.current(),
    {
        let n = self.stack.len();
        if n > 0 {
            Some(self.stack[n - 1])
        } else {
            None
        }
    }

    /// Creates a signal that holds `initial`, and hands out its two ends.
    pub fn create(&mut self, initial: Value) -> (ends: (Reader, Writer))
        requires
            old(self).wf(),
        ensures
            final(self).wf(),
            final(self)@ == old(self)@.created(initial@),
            ends.0.signal == old(self)@.signals.len(),
            ends.1.signal == old(self)@.signals.len(),
    {
        let id = self.cells.len();
        let owner = self.top();
        self.cells.push(Cell { value: initial, version: 0, producer: None, owner, live: true });
        proof {
            assert(self@.signals =~= old(self)@.created(initial@).signals);
            assert(self@.effects =~= old(self)@.effects);
        }
        (Reader { signal: id }, Writer { signal: id })
    }

    /// Reads a signal. In a run, the effect of the run becomes a subscriber
    /// of the signal.
    pub fn read(&mut self, reader: Reader) -> (value: Value)
        requires
            old(self).wf(),
            old(self)@.has_signal(reader.signal),
        ensures
            final(self).wf(),
            value@ == old(self)@.signals[reader.signal as int].value,
            final(self)@ == old(self)@.after_read(reader.signal),
    {
        let s = reader.signal;
        let value = self.cells[s].value.duplicate();
        match self.top() {
            Some(e) => {
                if self.nodes[e].live {
                    if !holds(&self.nodes[e].deps, s) {
                        self.nodes[e].deps.push(s);
                    }
                    proof {
                        let before = old(self).nodes@[e as int].deps@;
                        let after = self.nodes@[e as int].deps@;
                        assert(after.to_set() =~= before.to_set().insert(s)) by {
                            if before.contains(s) {
                                assert(after == before);
                            } else {
                                assert(after == before.push(s));
                                assert forall|x: usize|
                                    after.to_set().contains(x) == before.to_set().insert(
                                        s,
                                    ).contains(x) by {
                                    if before.contains(x) {
                                        let k = choose|k: int|
                                            0 <= k < before.len() && before[k] == x;
                                        assert(after[k] == x);
                                    }
                                    if x == s {
                                        assert(after[before.len() as int] == s);
                                    }
                                }
                            }
                        }
                        assert(self@.effects =~= old(self)@.after_read(s).effects);
                        assert(self@.signals =~= old(self)@.signals);
                    }
                } else {
                    proof {
                        assert(self@.effects =~= old(self)@.effects);
                        assert(self@.signals =~= old(self)@.signals);
                    }
                }
            },
            None => {
                proof {
                    assert(self@.effects =~= old(self)@.effects);
                    assert(self@.signals =~= old(self)@.signals);
                }
            },
        }
        value
    }

    /// Writes a signal: the value is replaced and the version goes up by
    /// one. Where the new value differs from the old one, every subscriber
    /// becomes dirty; the result says whether the write reached a
    /// subscriber in this way, that is whether a scheduling pass is due.
    pub fn write(&mut self, writer: Writer, new: Value) -> (due: bool)
        requires
            old(self).wf(),
            old(self)@.has_signal(writer.signal),
        ensures
            final(self).wf(),
            final(self)@ == old(self)@.after_write(writer.signal, new@),
            due == old(self)@.stirs(writer.signal, new@),
    {
        let s = writer.signal;
        let ghost goal = old(self)@.after_write(s, new@);
        let changed = !self.cells[s].value.same(&new);
        let version = self.cells[s].version;
        self.cells[s].version = if version == u64::MAX {
            0
        } else {
            version + 1
        };
        match self.top() {
            Some(e) => {
                self.cells[s].producer = Some(e);
            },
            None => {},
        }
        self.cells[s].value = new;
        proof {
            assert(self@.signals =~= goal.signals);
        }
        let mut due = false;
        let n = self.nodes.len();
        let mut i: usize = 0;
        while i < n
            invariant
                i <= n,
                n == self.nodes@.len(),
                n == old(self).nodes@.len(),
                self@.signals == goal.signals,
                self.stack@ == old(self).stack@,
                goal == old(self)@.after_write(s, new@),
                changed == (old(self)@.signals[s as int].value != new@),
                forall|j: int| 0 <= j < i ==> self.nodes@[j].model() == goal.effects[j],
                forall|j: int| i <= j < n ==> self.nodes@[j] == old(self).nodes@[j],
                due == (changed && exists|e: usize| e < i && old(self)@.subscribes(e, s)),
            decreases n - i,
        {
            if changed && holds(&self.nodes[i].deps, s) {
                self.nodes[i].dirty = true;
                due = true;
                assert(old(self)@.subscribes(i, s));
            }
            assert(self@.signals =~= goal.signals);
            i = i + 1;
        }
        proof {
            assert(self@.effects =~= goal.effects);
        }
        due
    }

    /// Registers an effect and opens its first run: the caller executes
    /// the body now and then calls `finish`.
    pub fn register(&mut self) -> (handle: EffectHandle)
        requires
            old(self).wf(),
        ensures
            final(self).wf(),
            final(self)@ == old(self)@.registered(),
            handle.effect == old(self)@.effects.len(),
    {
        let id = self.nodes.len();
        let owner = self.top();
        self.nodes.push(Node { deps: Vec::new(), dirty: false, live: true, owner, failed: false });
        self.stack.push(id);
        proof {
            assert(self.nodes@[id as int].deps@.to_set() =~= Set::<usize>::empty());
            assert(self@.effects =~= old(self)@.registered().effects);
            assert(self@.signals =~= old(self)@.signals);
        }
        EffectHandle { effect: id }
    }

    /// Closes the innermost open run. A run that did not end well is
    /// reported as an `EffectExecution` error of its effect and leaves every
    /// other effect as it was. Without an open run nothing happens.
    pub fn finish(&mut self, ok: bool) -> (r: Result<(), Error>)
        requires
            old(self).wf(),
        ensures
            final(self).wf(),
            final(self)@ == old(self)@.finished(ok),
            r == old(self)@.outcome(ok),
    {
        match self.stack.pop() {
            Some(e) => {
                self.nodes[e].failed = !ok;
                proof {
                    assert(self@.effects =~= old(self)@.finished(ok).effects);
                    assert(self@.signals =~= old(self)@.signals);
                }
                if ok {
                    Ok(())
                } else {
                    Err(Error::EffectExecution { effect: e })
                }
            },
            None => Ok(()),
        }
    }

    /// Disposes an effect: it leaves every subscriber set and never runs
    /// again. A handle of no effect changes nothing.
    pub fn dispose(&mut self, handle: EffectHandle)
        requires
            old(self).wf(),
        ensures
            final(self).wf(),
            final(self)@ == old(self)@.disposed(handle.effect),
    {
        let e = handle.effect;
        if e < self.nodes.len() {
            self.retire(e);
            proof {
                assert(self@.effects =~= old(self)@.disposed(e).effects);
                assert(self@.signals =~= old(self)@.signals);
            }
        }
    }

    fn retire(&mut self, e: usize)
        requires
            e < old(self).nodes@.len(),
        ensures
            final(self).cells == old(self).cells,
            final(self).stack == old(self).stack,
            final(self).nodes@.len() == old(self).nodes@.len(),
            final(self).nodes@[e as int].model() == RuntimeView::retired(
                old(self).nodes@[e as int].model(),
            ),
            forall|j: int|
                0 <= j < old(self).nodes@.len() && j != e ==> final(self).nodes@[j] == old(
                    self,
                ).nodes@[j],
    {
        self.nodes[e].deps = Vec::new();
        self.nodes[e].dirty = false;
        self.nodes[e].live = false;
        proof {
            assert(self.nodes@[e as int].deps@.to_set() =~= Set::<usize>::empty());
        }
    }

    /// Disposes a scope: the effect `handle` and every effect registered,
    /// directly or through others, in one of its runs, and releases every
    /// signal created in a run of one of them.
    pub fn dispose_scope(&mut self, handle: EffectHandle)
        requires
            old(self).wf(),
        ensures
            final(self).wf(),
            final(self)@ == old(self)@.scope_disposed(handle.effect),
    {
        let root = handle.effect;
        let ghost before = self@;
        let ghost goal = before.scope_disposed(root);
        let n = self.nodes.len();
        let mut doomed: Vec<bool> = Vec::new();
        let mut x: usize = 0;
        while x < n
            invariant
                x <= n,
                n == self.nodes@.len(),
                n == old(self).nodes@.len(),
                self.cells == old(self).cells,
                self.stack == old(self).stack,
                before == old(self)@,
                before.wf(),
                goal == before.scope_disposed(root),
                doomed@.len() == x,
                forall|j: int| 0 <= j < x ==> doomed@[j] == before.within(j as usize, root),
                forall|j: int| 0 <= j < x ==> self.nodes@[j].model() == goal.effects[j],
                forall|j: int| x <= j < n ==> self.nodes@[j] == old(self).nodes@[j],
            decreases n - x,
        {
            let inside = x == root || match self.nodes[x].owner {
                Some(o) => o < x && doomed[o],
                None => false,
            };
            if inside {
                self.retire(x);
            }
            doomed.push(inside);
            x = x + 1;
        }
        let m = self.cells.len();
        let mut s: usize = 0;
        while s < m
            invariant
                s <= m,
                m == self.cells@.len(),
                m == old(self).cells@.len(),
                n == self.nodes@.len(),
                n == old(self).nodes@.len(),
                self.stack == old(self).stack,
                before == old(self)@,
                before.wf(),
                goal == before.scope_disposed(root),
                doomed@.len() == n,
                forall|j: int| 0 <= j < n ==> doomed@[j] == before.within(j as usize, root),
                forall|j: int| 0 <= j < n ==> self.nodes@[j].model() == goal.effects[j],
                forall|j: int| 0 <= j < s ==> self.cells@[j].model() == goal.signals[j],
                forall|j: int| s <= j < m ==> self.cells@[j] == old(self).cells@[j],
            decreases m - s,
        {
            match self.cells[s].owner {
                Some(o) => {
                    assert(before.signals[s as int].owner == Some(o));
                    if doomed[o] {
                        self.cells[s].live = false;
                    }
                },
                None => {},
            }
            s = s + 1;
        }
        proof {
            assert(self@.effects =~= goal.effects);
            assert(self@.signals =~= goal.signals);
        }
    }

    fn fed_by_late(&self, c: usize, late: &Vec<bool>) -> (b: bool)
        requires
            self.wf(),
            c < self.nodes@.len(),
            late@.len() == self.nodes@.len(),
        ensures
            b == self@.fed_late(late@, c),
    {
        let deps = &self.nodes[c].deps;
        let mut k: usize = 0;
        while k < deps.len()
            invariant
                self.wf(),
                c < self.nodes@.len(),
                late@.len() == self.nodes@.len(),
                deps == &self.nodes@[c as int].deps,
                k <= deps@.len(),
                forall|j: int|
                    0 <= j < k ==> (self@.signals[#[trigger] deps@[j] as int].producer matches Some(
                        x,
                    ) ==> !self@.is_dirty(x) && !late@[x as int]),
            decreases deps@.len() - k,
        {
            let s = deps[k];
            assert(deps@.to_set().contains(s)) by {
                assert(deps@.contains(s));
            }
            assert(self@.effects[c as int].deps.contains(s));
            match self.cells[s].producer {
                Some(x) => {
                    assert(self@.signals[s as int].producer == Some(x));
                    if self.nodes[x].dirty || late[x] {
                        assert(self@.feeds(x, c));
                        return true;
                    }
                },
                None => {},
            }
            k = k + 1;
        }
        proof {
            assert forall|x: usize|
                x < late@.len() && #[trigger] self@.feeds(x, c) implies !(self@.is_dirty(x)
                || late@[x as int]) by {
                let s = choose|s: usize|
                    s < self@.signals.len() && #[trigger] self@.effects[c as int].deps.contains(s)
                        && self@.signals[s as int].producer == Some(x);
                assert(deps@.contains(s));
                let j = choose|j: int| 0 <= j < deps@.len() && deps@[j] == s;
                assert(self@.signals[deps@[j] as int].producer == Some(x));
            }
        }
        false
    }

    fn late_flags(&self) -> (late: Vec<bool>)
        requires
            self.wf(),
        ensures
            late@.len() == self@.effects.len(),
            forall|c: usize| c < late@.len() ==> late@[c as int] == self@.awaits(c),
    {
        let n = self.nodes.len();
        let mut late: Vec<bool> = Vec::new();
        while late.len() < n
            invariant
                late@.len() <= n,
                forall|c: int| 0 <= c < late@.len() ==> !late@[c],
            decreases n - late@.len(),
        {
            late.push(false);
        }
        let mut changed = true;
        while changed
            invariant
                self.wf(),
                n == self.nodes@.len(),
                late@.len() == n,
                self@.flags_sound(late@),
                !changed ==> self@.flags_closed(late@, n as int),
            decreases
                    count_false(late@) + if changed {
                        1nat
                    } else {
                        0nat
                    },
        {
            changed = false;
            let ghost start = late@;
            let mut c: usize = 0;
            while c < n
                invariant
                    self.wf(),
                    n == self.nodes@.len(),
                    late@.len() == n,
                    start.len() == n,
                    c <= n,
                    self@.flags_sound(late@),
                    !changed ==> late@ == start && self@.flags_closed(late@, c as int),
                    changed ==> count_false(late@) < count_false(start),
                decreases n - c,
            {
                if !late[c] && self.fed_by_late(c, &late) {
                    proof {
                        lemma_fed_late_awaits(self@, late@, c);
                        lemma_count_false_update(late@, c as int);
                        if !changed {
                            assert(late@ == start);
                        }
                    }
                    let ghost prior = late@;
                    late[c] = true;
                    proof {
                        assert(late@ == prior.update(c as int, true));
                    }
                    changed = true;
                }
                c = c + 1;
            }
        }
        proof {
            assert forall|c: usize| c < late@.len() implies late@[c as int] == self@.awaits(c) by {
                if self@.awaits(c) {
                    let (d, k) = choose|d: usize, k: nat|
                        self@.is_dirty(d) && #[trigger] self@.reaches_in(d, c, k);
                    lemma_closed_holds_reached(self@, late@, d, c, k);
                }
            }
        }
        late
    }

    /// Asks the scheduler for the next run. While a run is open, or when no
    /// effect is dirty, there is none and nothing changes. Else the run of
    /// the chosen effect is open: the caller executes the body now and then
    /// calls `finish`. As long as some dirty effect is fed by no dirty
    /// effect, the first such effect is chosen, so that no run sees a value
    /// that a pending run is about to replace; only where the feeds form a
    /// cycle is the first dirty effect chosen as it is.
    pub fn run_next(&mut self) -> (next: Option<EffectHandle>)
        requires
            old(self).wf(),
        ensures
            final(self).wf(),
            old(self)@.is_next(
                match next {
                    Some(h) => Some(h.effect),
                    None => None,
                },
            ),
            final(self)@ == old(self)@.after_next(
                match next {
                    Some(h) => Some(h.effect),
                    None => None,
                },
            ),
    {
        if self.stack.len() > 0 || !self.pending() {
            return None;
        }
        let late = self.late_flags();
        let n = self.nodes.len();
        let mut first_dirty: Option<usize> = None;
        let mut chosen: Option<usize> = None;
        let mut e: usize = 0;
        while e < n
            invariant_except_break
                chosen is None,
            invariant
                self.wf(),
                n == self.nodes@.len(),
                late@.len() == n,
                e <= n,
                forall|c: usize| c < late@.len() ==> late@[c as int] == self@.awaits(c),
                forall|f: usize| f < e ==> !self@.ready(f),
                match first_dirty {
                    Some(d) => d < e && self@.is_dirty(d) && forall|f: usize|
                        f < d ==> !self@.is_dirty(f),
                    None => forall|f: usize| f < e ==> !self@.is_dirty(f),
                },
            ensures
                match chosen {
                    Some(x) => x < n && self@.ready(x) && forall|f: usize|
                        f < x ==> !self@.ready(f),
                    None => e == n && forall|f: usize| f < n ==> !self@.ready(f),
                },
            decreases n - e,
        {
            if self.nodes[e].dirty {
                if !late[e] {
                    chosen = Some(e);
                    break ;
                }
                if first_dirty.is_none() {
                    first_dirty = Some(e);
                }
            }
            e = e + 1;
        }
        let pick = match chosen {
            Some(x) => Some(x),
            None => first_dirty,
        };
        proof {
            assert(self@.running.len() == 0);
            if chosen is None {
                assert forall|f: usize| !self@.ready(f) by {
                    if f < n {
                    } else {
                        assert(!self@.is_dirty(f));
                    }
                }
            }
            assert(self@.is_next(pick));
        }
        match pick {
            Some(x) => {
                self.nodes[x].deps = Vec::new();
                self.nodes[x].dirty = false;
                self.nodes[x].failed = false;
                self.stack.push(x);
                proof {
                    assert(self.nodes@[x as int].deps@.to_set() =~= Set::<usize>::empty());
                    assert(self@.effects =~= old(self)@.begun(x).effects);
                    assert(self@.signals =~= old(self)@.signals);
                }
                Some(EffectHandle { effect: x })
            },
            None => None,
        }
    }

    /// Whether the reader's signal exists and has not been released.
    pub fn has_signal(&self, reader: Reader) -> (b: bool)
        ensures
            b == self@.has_signal(reader.signal),
    {
        reader.signal < self.cells.len() && self.cells[reader.signal].live
    }

    /// Whether the writer's signal exists and has not been released.
    pub fn accepts(&self, writer: Writer) -> (b: bool)
        ensures
            b == self@.has_signal(writer.signal),
    {
        writer.signal < self.cells.len() && self.cells[writer.signal].live
    }

    /// The value of a signal, read without becoming a subscriber.
    pub fn peek(&self, reader: Reader) -> (value: Value)
        requires
            self@.has_signal(reader.signal),
        ensures
            value@ == self@.signals[reader.signal as int].value,
    {
        self.cells[reader.signal].value.duplicate()
    }

    /// The version of a signal: how often it was written, modulo 2^64.
    pub fn version(&self, reader: Reader) -> (version: u64)
        requires
            self@.has_signal(reader.signal),
        ensures
            version == self@.signals[reader.signal as int].version,
    {
        self.cells[reader.signal].version
    }

    /// Whether the handle names an effect that has not been disposed.
    pub fn is_live(&self, handle: EffectHandle) -> (b: bool)
        ensures
            b == self@.has_effect(handle.effect),
    {
        handle.effect < self.nodes.len() && self.nodes[handle.effect].live
    }

    /// Whether the handle names an effect that is dirty.
    pub fn is_dirty(&self, handle: EffectHandle) -> (b: bool)
        ensures
            b == self@.is_dirty(handle.effect),
    {
        handle.effect < self.nodes.len() && self.nodes[handle.effect].dirty
    }

    /// Whether the handle names an effect whose most recent run failed.
    pub fn has_failed(&self, handle: EffectHandle) -> (b: bool)
        ensures
            b == (handle.effect < self@.effects.len() && self@.effects[handle.effect as int].failed),
    {
        handle.effect < self.nodes.len() && self.nodes[handle.effect].failed
    }

    /// Whether the effect is a subscriber of the signal.
    pub fn subscribes(&self, handle: EffectHandle, reader: Reader) -> (b: bool)
        ensures
            b == self@.subscribes(handle.effect, reader.signal),
    {
        handle.effect < self.nodes.len() && holds(&self.nodes[handle.effect].deps, reader.signal)
    }

    /// The effect whose run is the innermost open one.
    pub fn current(&self) -> (handle: Option<EffectHandle>)
        ensures
            handle == match self@.current() {
                Some(e) => Some(EffectHandle { effect: e }),
                None => None,
            },
    {
        match self.top() {
            Some(e) => Some(EffectHandle { effect: e }),
            None => None,
        }
    }

    /// Whether some effect is dirty, that is whether a pass has work left.
    pub fn pending(&self) -> (b: bool)
        ensures
            b == exists|e: usize| self@.is_dirty(e),
    {
        let mut i: usize = 0;
        while i < self.nodes.len()
            invariant
                i <= self.nodes@.len(),
                forall|e: usize| e < i ==> !self@.is_dirty(e),
            decreases self.nodes@.len() - i,
        {
            if self.nodes[i].dirty {
                assert(self@.is_dirty(i));
                return true;
            }
            i = i + 1;
        }
        false
    }
}

} // verus!
