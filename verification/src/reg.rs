//! Register protocol primitives.
//!
//! The peripherals of this crate are programmed through a small vocabulary of
//! register transactions ([`RegOp`]). Every driver function appends the
//! transactions it wants performed to a queue; whoever owns the bus performs
//! them in order. What a transaction does to a register file, and what it
//! leaves in a trace, is fixed here once, as a mathematical model
//! ([`RegOp::apply`], [`RegOp::trace`]) and as an executable bus that follows
//! the model ([`Recorder`]).

use std::collections::HashMap;
use vstd::prelude::*;

verus! {

broadcast use vstd::std_specs::hash::group_hash_axioms;

/// Width in bytes of every register access this crate issues.
pub const ACCESS_WIDTH: u8 = 4;

/// The word that a masked modify-write leaves in a register: the bits under
/// `mask` come from `value`, all others from `old`.
pub open spec fn merge(old: u32, value: u32, mask: u32) -> u32 {
    (old & !mask) | (value & mask)
}

/// Computes [`merge`].
pub fn masked_merge(old: u32, value: u32, mask: u32) -> (word: u32)
    ensures
        word == merge(old, value, mask),
{
    (old & !mask) | (value & mask)
}

/// The bits of a register field: `value` moved to the field's position and cut
/// to the field's `mask`.
pub open spec fn field(value: u32, shift: u32, mask: u32) -> u32 {
    (value << shift) & mask
}

/// Computes [`field`].
pub fn put_field(value: u32, shift: u32, mask: u32) -> (bits: u32)
    requires
        shift < 32,
    ensures
        bits == field(value, shift, mask),
{
    (value << shift) & mask
}

/// The bits of a one-bit field: all of `mask` when `on`, none otherwise.
pub open spec fn flag(on: bool, mask: u32) -> u32 {
    if on {
        mask
    } else {
        0
    }
}

/// Computes [`flag`].
pub fn put_flag(on: bool, mask: u32) -> (bits: u32)
    ensures
        bits == flag(on, mask),
{
    if on {
        mask
    } else {
        0
    }
}

/// One register transaction.
#[derive(Clone, Copy, Debug, PartialEq, Eq, Structural)]
pub enum RegOp {
    /// Plain read.
    Read { addr: u32 },
    /// Plain write of a whole word.
    Write { addr: u32, value: u32 },
    /// Read-modify-write, not atomic: read the word, replace the bits under
    /// `mask` by those of `value`, write the word back.
    Modify { addr: u32, value: u32, mask: u32 },
    /// Masked atomic modify-write: one indivisible bus transaction that
    /// changes the bits under `mask` only.
    ModifyAtomic { addr: u32, value: u32, mask: u32 },
    /// Busy-wait until the bits under `mask` read as those of `value`.
    /// There is no timeout.
    WaitUntil { addr: u32, value: u32, mask: u32 },
    /// Open the privileged-write window (clear the end-of-initialization
    /// protection).
    ClearEndinit,
    /// Close the privileged-write window (set the protection again).
    SetEndinit,
}

/// Direction of a traced access.
#[derive(Clone, Copy, Debug, PartialEq, Eq, Structural)]
pub enum Access {
    Read,
    Write,
}

/// One entry of a verification trace: which register was accessed, how wide
/// the access was, and the word that was observed or written.
#[derive(Clone, Copy, Debug, PartialEq, Eq, Structural)]
pub struct TraceEntry {
    pub access: Access,
    pub addr: u32,
    pub width: u8,
    pub value: u32,
}

/// The trace entry of a read that observed `value`.
pub open spec fn read_entry(addr: u32, value: u32) -> TraceEntry {
    TraceEntry { access: Access::Read, addr, width: ACCESS_WIDTH, value }
}

/// The trace entry of a write of `value`.
pub open spec fn write_entry(addr: u32, value: u32) -> TraceEntry {
    TraceEntry { access: Access::Write, addr, width: ACCESS_WIDTH, value }
}

/// The word a register file holds at `addr`. A register that was never
/// written holds zero.
pub open spec fn word_at(regs: Map<u32, u32>, addr: u32) -> u32 {
    if regs.dom().contains(addr) {
        regs[addr]
    } else {
        0
    }
}

/// Two register files hold the same word at every address.
pub open spec fn same_words(a: Map<u32, u32>, b: Map<u32, u32>) -> bool {
    forall|addr: u32| word_at(a, addr) == word_at(b, addr)
}

impl RegOp {
    /// The register a transaction addresses, if it addresses one.
    pub open spec fn target(self) -> Option<u32> {
        match self {
            RegOp::Read { addr } => Some(addr),
            RegOp::Write { addr, .. } => Some(addr),
            RegOp::Modify { addr, .. } => Some(addr),
            RegOp::ModifyAtomic { addr, .. } => Some(addr),
            RegOp::WaitUntil { addr, .. } => Some(addr),
            RegOp::ClearEndinit => None,
            RegOp::SetEndinit => None,
        }
    }

    /// Whether the transaction can change the word at `addr`.
    pub open spec fn writes_to(self, addr: u32) -> bool {
        match self {
            RegOp::Write { addr: a, .. } => a == addr,
            RegOp::Modify { addr: a, .. } => a == addr,
            RegOp::ModifyAtomic { addr: a, .. } => a == addr,
            _ => false,
        }
    }

    /// The word the addressed register holds once the transaction is
    /// complete, given the word `old` it held before. A completed wait has
    /// seen the awaited bits, so the device has produced them.
    pub open spec fn result_word(self, old: u32) -> u32 {
        match self {
            RegOp::Read { .. } => old,
            RegOp::Write { value, .. } => value,
            RegOp::Modify { value, mask, .. } => merge(old, value, mask),
            RegOp::ModifyAtomic { value, mask, .. } => merge(old, value, mask),
            RegOp::WaitUntil { value, mask, .. } => merge(old, value, mask),
            RegOp::ClearEndinit => old,
            RegOp::SetEndinit => old,
        }
    }

    /// The register file after the transaction.
    pub open spec fn apply(self, regs: Map<u32, u32>) -> Map<u32, u32> {
        match self.target() {
            Some(addr) => regs.insert(addr, self.result_word(word_at(regs, addr))),
            None => regs,
        }
    }

    /// What the transaction leaves in the trace when it starts from `regs`.
    /// Opening and closing the privileged-write window is the watchdog's
    /// business and leaves nothing.
    pub open spec fn trace(self, regs: Map<u32, u32>) -> Seq<TraceEntry> {
        match self {
            RegOp::Read { addr } => seq![read_entry(addr, word_at(regs, addr))],
            RegOp::Write { addr, value } => seq![write_entry(addr, value)],
            RegOp::Modify { addr, .. } => seq![
                read_entry(addr, word_at(regs, addr)),
                write_entry(addr, self.result_word(word_at(regs, addr))),
            ],
            RegOp::ModifyAtomic { addr, .. } => seq![
                write_entry(addr, self.result_word(word_at(regs, addr))),
            ],
            RegOp::WaitUntil { addr, .. } => seq![
                read_entry(addr, self.result_word(word_at(regs, addr))),
            ],
            RegOp::ClearEndinit => Seq::empty(),
            RegOp::SetEndinit => Seq::empty(),
        }
    }

    /// The word the transaction hands back to its issuer: what a read or a
    /// completed wait saw, and zero for everything else.
    pub open spec fn observed(self, regs: Map<u32, u32>) -> u32 {
        match self {
            RegOp::Read { addr } => word_at(regs, addr),
            RegOp::WaitUntil { addr, .. } => self.result_word(word_at(regs, addr)),
            _ => 0,
        }
    }
}

/// The register file after a sequence of transactions, performed in order.
pub open spec fn apply_all(ops: Seq<RegOp>, regs: Map<u32, u32>) -> Map<u32, u32>
    decreases ops.len(),
{
    if ops.len() == 0 {
        regs
    } else {
        ops.last().apply(apply_all(ops.drop_last(), regs))
    }
}

/// The trace of a sequence of transactions that starts from `regs`.
pub open spec fn trace_all(ops: Seq<RegOp>, regs: Map<u32, u32>) -> Seq<TraceEntry>
    decreases ops.len(),
{
    if ops.len() == 0 {
        Seq::empty()
    } else {
        trace_all(ops.drop_last(), regs) + ops.last().trace(apply_all(ops.drop_last(), regs))
    }
}

/// The word handed back by the last transaction of a sequence, zero for an
/// empty one.
pub open spec fn last_observed(ops: Seq<RegOp>, regs: Map<u32, u32>) -> u32 {
    if ops.len() == 0 {
        0
    } else {
        ops.last().observed(apply_all(ops.drop_last(), regs))
    }
}

/// Performing one more transaction is applying it to what came before.
pub proof fn lemma_apply_push(ops: Seq<RegOp>, op: RegOp, regs: Map<u32, u32>)
    ensures
        apply_all(ops.push(op), regs) == op.apply(apply_all(ops, regs)),
        trace_all(ops.push(op), regs) == trace_all(ops, regs) + op.trace(apply_all(ops, regs)),
{
    assert(ops.push(op).drop_last() =~= ops);
}

/// A single transaction, as a sequence.
pub proof fn lemma_apply_one(op: RegOp, regs: Map<u32, u32>)
    ensures
        apply_all(seq![op], regs) == op.apply(regs),
        trace_all(seq![op], regs) == op.trace(regs),
{
    let none = Seq::<RegOp>::empty();
    assert(seq![op] =~= none.push(op));
    lemma_apply_push(none, op, regs);
    assert(Seq::<TraceEntry>::empty() + op.trace(regs) =~= op.trace(regs));
}

/// Performing `a` and then `b` is performing their concatenation.
pub proof fn lemma_apply_concat(a: Seq<RegOp>, b: Seq<RegOp>, regs: Map<u32, u32>)
    ensures
        apply_all(a + b, regs) == apply_all(b, apply_all(a, regs)),
        trace_all(a + b, regs) == trace_all(a, regs) + trace_all(b, apply_all(a, regs)),
    decreases b.len(),
{
    if b.len() == 0 {
        assert(a + b =~= a);
        assert(trace_all(a, regs) + Seq::<TraceEntry>::empty() =~= trace_all(a, regs));
    } else {
        lemma_apply_concat(a, b.drop_last(), regs);
        assert((a + b).drop_last() =~= a + b.drop_last());
        assert((a + b).last() == b.last());
        let mid = apply_all(a, regs);
        let t = b.last().trace(apply_all(b.drop_last(), mid));
        assert((trace_all(a, regs) + trace_all(b.drop_last(), mid)) + t =~= trace_all(a, regs) + (
        trace_all(b.drop_last(), mid) + t));
    }
}

/// A sequence of transactions leaves alone every register that none of them
/// writes to or waits on.
pub proof fn lemma_untouched(ops: Seq<RegOp>, regs: Map<u32, u32>, addr: u32)
    requires
        forall|i: int| 0 <= i < ops.len() ==> ops[i].target() != Some(addr) || ops[i] is Read,
    ensures
        word_at(apply_all(ops, regs), addr) == word_at(regs, addr),
    decreases ops.len(),
{
    if ops.len() > 0 {
        lemma_untouched(ops.drop_last(), regs, addr);
    }
}

/// A queue that has grown by `done` and grows by `more` has grown by
/// `done + more`.
pub proof fn lemma_queue_grows(before: Seq<RegOp>, done: Seq<RegOp>, more: Seq<RegOp>)
    ensures
        (before + done) + more == before + (done + more),
{
    assert((before + done) + more =~= before + (done + more));
}

/// No transaction of the sequence addresses the register at `addr`.
pub open spec fn avoids(ops: Seq<RegOp>, addr: u32) -> bool {
    forall|i: int| 0 <= i < ops.len() ==> (#[trigger] ops[i]).target() != Some(addr)
}

/// What two sequences avoid, their concatenation avoids.
pub proof fn lemma_avoids_concat(a: Seq<RegOp>, b: Seq<RegOp>, addr: u32)
    requires
        avoids(a, addr),
        avoids(b, addr),
    ensures
        avoids(a + b, addr),
{
}

/// The transactions of a sequence that address the register at `addr`, in
/// their order.
pub open spec fn touching(ops: Seq<RegOp>, addr: u32) -> Seq<RegOp>
    decreases ops.len(),
{
    if ops.len() == 0 {
        Seq::empty()
    } else if ops.last().target() == Some(addr) {
        touching(ops.drop_last(), addr).push(ops.last())
    } else {
        touching(ops.drop_last(), addr)
    }
}

/// What touches a register in `a + b` is what touches it in `a`, then what
/// touches it in `b`.
pub proof fn lemma_touching_concat(a: Seq<RegOp>, b: Seq<RegOp>, addr: u32)
    ensures
        touching(a + b, addr) == touching(a, addr) + touching(b, addr),
    decreases b.len(),
{
    if b.len() == 0 {
        assert(a + b =~= a);
        assert(touching(a, addr) + Seq::<RegOp>::empty() =~= touching(a, addr));
    } else {
        assert((a + b).drop_last() =~= a + b.drop_last());
        assert((a + b).last() == b.last());
        lemma_touching_concat(a, b.drop_last(), addr);
        let rest = touching(b.drop_last(), addr);
        assert((touching(a, addr) + rest).push(b.last()) =~= touching(a, addr) + rest.push(
            b.last(),
        ));
    }
}

/// Nothing touches a register that a sequence avoids.
pub proof fn lemma_touching_avoided(ops: Seq<RegOp>, addr: u32)
    requires
        avoids(ops, addr),
    ensures
        touching(ops, addr) == Seq::<RegOp>::empty(),
    decreases ops.len(),
{
    if ops.len() > 0 {
        assert(avoids(ops.drop_last(), addr));
        lemma_touching_avoided(ops.drop_last(), addr);
        assert(ops[ops.len() - 1].target() != Some(addr));
    }
}

/// Appending what avoids a register changes nothing of what touches it.
pub proof fn lemma_touching_then_avoided(a: Seq<RegOp>, b: Seq<RegOp>, addr: u32)
    requires
        avoids(b, addr),
    ensures
        touching(a + b, addr) == touching(a, addr),
{
    lemma_touching_concat(a, b, addr);
    lemma_touching_avoided(b, addr);
    assert(touching(a, addr) + Seq::<RegOp>::empty() =~= touching(a, addr));
}

/// Whether the privileged-write window is open once the transactions are
/// performed, where `open` says whether it was open at their start. There is
/// no answer where a transaction opens a window that is open or closes one
/// that is closed.
pub open spec fn window_after(ops: Seq<RegOp>, open: bool) -> Option<bool>
    decreases ops.len(),
{
    if ops.len() == 0 {
        Some(open)
    } else {
        match window_after(ops.drop_last(), open) {
            Some(before) => match ops.last() {
                RegOp::ClearEndinit => if before {
                    None
                } else {
                    Some(true)
                },
                RegOp::SetEndinit => if before {
                    Some(false)
                } else {
                    None
                },
                _ => Some(before),
            },
            None => None,
        }
    }
}

/// Every opening of the privileged-write window is followed by its
/// closing, and nothing is left open.
pub open spec fn windows_paired(ops: Seq<RegOp>) -> bool {
    window_after(ops, false) == Some(false)
}

/// No transaction of the sequence opens or closes the window.
pub open spec fn windowless(ops: Seq<RegOp>) -> bool {
    forall|i: int|
        0 <= i < ops.len() ==> !((#[trigger] ops[i]) is ClearEndinit) && !(ops[i] is SetEndinit)
}

/// The window after `a + b` is the window after `b`, started from the
/// window after `a`.
pub proof fn lemma_window_concat(a: Seq<RegOp>, b: Seq<RegOp>, open: bool)
    ensures
        window_after(a + b, open) == match window_after(a, open) {
            Some(mid) => window_after(b, mid),
            None => None,
        },
    decreases b.len(),
{
    if b.len() == 0 {
        assert(a + b =~= a);
    } else {
        assert((a + b).drop_last() =~= a + b.drop_last());
        assert((a + b).last() == b.last());
        lemma_window_concat(a, b.drop_last(), open);
    }
}

/// Transactions that neither open nor close the window leave it as it is.
pub proof fn lemma_windowless(ops: Seq<RegOp>, open: bool)
    requires
        windowless(ops),
    ensures
        window_after(ops, open) == Some(open),
    decreases ops.len(),
{
    if ops.len() > 0 {
        assert(windowless(ops.drop_last()));
        lemma_windowless(ops.drop_last(), open);
        assert(!(ops[ops.len() - 1] is ClearEndinit));
    }
}

/// Paired after paired is paired.
pub proof fn lemma_paired_concat(a: Seq<RegOp>, b: Seq<RegOp>)
    requires
        windows_paired(a),
        windows_paired(b),
    ensures
        windows_paired(a + b),
{
    lemma_window_concat(a, b, false);
}

/// What is put between an opening and a closing of the window, and does
/// neither itself, is paired.
pub proof fn lemma_bracketed(inner: Seq<RegOp>)
    requires
        windowless(inner),
    ensures
        windows_paired(seq![RegOp::ClearEndinit] + inner + seq![RegOp::SetEndinit]),
{
    let open = seq![RegOp::ClearEndinit];
    let close = seq![RegOp::SetEndinit];
    reveal_with_fuel(window_after, 2);
    assert(open.drop_last() =~= Seq::<RegOp>::empty());
    assert(close.drop_last() =~= Seq::<RegOp>::empty());
    assert(window_after(open, false) == Some(true));
    assert(window_after(close, true) == Some(false));
    lemma_windowless(inner, true);
    lemma_window_concat(open, inner, false);
    lemma_window_concat(open + inner, close, false);
}

/// An executable register file that performs transactions as the model says
/// and keeps the trace. It stands in for the bus wherever the hardware is
/// not at hand.
pub struct Recorder {
    regs: HashMap<u32, u32>,
    log: Vec<TraceEntry>,
}

impl Recorder {
    /// The register file held.
    pub closed spec fn regs(&self) -> Map<u32, u32> {
        self.regs@
    }

    /// The trace recorded so far.
    pub closed spec fn log(&self) -> Seq<TraceEntry> {
        self.log@
    }

    /// A bus on which every register holds zero and nothing has happened.
    pub fn new() -> (bus: Recorder)
        ensures
            bus.regs() == Map::<u32, u32>::empty(),
            bus.log() == Seq::<TraceEntry>::empty(),
    {
        Recorder { regs: HashMap::new(), log: Vec::new() }
    }

    /// Puts `word` into the register at `addr` without leaving a trace, as
    /// the device itself would.
    pub fn load(&mut self, addr: u32, word: u32)
        ensures
            final(self).regs() == old(self).regs().insert(addr, word),
            final(self).log() == old(self).log(),
    {
        self.regs.insert(addr, word);
    }

    /// The word held at `addr`, without leaving a trace.
    pub fn word(&self, addr: u32) -> (word: u32)
        ensures
            word == word_at(self.regs(), addr),
    {
        match self.regs.get(&addr) {
            Some(w) => *w,
            None => 0,
        }
    }

    /// Performs one transaction and returns what it observed.
    pub fn perform(&mut self, op: RegOp) -> (observed: u32)
        ensures
            final(self).regs() == op.apply(old(self).regs()),
            final(self).log() == old(self).log() + op.trace(old(self).regs()),
            observed == op.observed(old(self).regs()),
    {
        match op {
            RegOp::Read { addr } => {
                let prev = self.word(addr);
                self.regs.insert(addr, prev);
                self.log.push(
                    TraceEntry { access: Access::Read, addr, width: ACCESS_WIDTH, value: prev },
                );
                assert(self.log() =~= old(self).log() + op.trace(old(self).regs()));
                prev
            },
            RegOp::Write { addr, value } => {
                self.regs.insert(addr, value);
                self.log.push(
                    TraceEntry { access: Access::Write, addr, width: ACCESS_WIDTH, value },
                );
                assert(self.log() =~= old(self).log() + op.trace(old(self).regs()));
                0
            },
            RegOp::Modify { addr, value, mask } => {
                let prev = self.word(addr);
                let new = masked_merge(prev, value, mask);
                self.regs.insert(addr, new);
                self.log.push(
                    TraceEntry { access: Access::Read, addr, width: ACCESS_WIDTH, value: prev },
                );
                self.log.push(
                    TraceEntry { access: Access::Write, addr, width: ACCESS_WIDTH, value: new },
                );
                assert(self.log() =~= old(self).log() + op.trace(old(self).regs()));
                0
            },
            RegOp::ModifyAtomic { addr, value, mask } => {
                let prev = self.word(addr);
                let new = masked_merge(prev, value, mask);
                self.regs.insert(addr, new);
                self.log.push(
                    TraceEntry { access: Access::Write, addr, width: ACCESS_WIDTH, value: new },
                );
                assert(self.log() =~= old(self).log() + op.trace(old(self).regs()));
                0
            },
            RegOp::WaitUntil { addr, value, mask } => {
                let prev = self.word(addr);
                let new = masked_merge(prev, value, mask);
                self.regs.insert(addr, new);
                self.log.push(
                    TraceEntry { access: Access::Read, addr, width: ACCESS_WIDTH, value: new },
                );
                assert(self.log() =~= old(self).log() + op.trace(old(self).regs()));
                new
            },
            RegOp::ClearEndinit => {
                assert(self.log() =~= old(self).log() + op.trace(old(self).regs()));
                0
            },
            RegOp::SetEndinit => {
                assert(self.log() =~= old(self).log() + op.trace(old(self).regs()));
                0
            },
        }
    }

    /// Performs a queue of transactions in order and returns what the last
    /// one observed.
    pub fn run(&mut self, ops: &Vec<RegOp>) -> (observed: u32)
        ensures
            final(self).regs() == apply_all(ops@, old(self).regs()),
            final(self).log() == old(self).log() + trace_all(ops@, old(self).regs()),
            observed == last_observed(ops@, old(self).regs()),
    {
        let mut observed: u32 = 0;
        let mut i: usize = 0;
        assert(old(self).log() + Seq::<TraceEntry>::empty() =~= old(self).log());
        while i < ops.len()
            invariant
                i <= ops.len(),
                self.regs() == apply_all(ops@.take(i as int), old(self).regs()),
                self.log() == old(self).log() + trace_all(ops@.take(i as int), old(self).regs()),
                observed == last_observed(ops@.take(i as int), old(self).regs()),
            decreases ops.len() - i,
        {
            let ghost before = ops@.take(i as int);
            let ghost start = old(self).regs();
            let ghost log_mid = self.log();
            observed = self.perform(ops[i]);
            proof {
                assert(ops@.take(i + 1) =~= before.push(ops@[i as int]));
                assert(before.push(ops@[i as int]).drop_last() =~= before);
                lemma_apply_push(before, ops@[i as int], start);
                assert((old(self).log() + trace_all(before, start)) + ops@[i as int].trace(
                    apply_all(before, start),
                ) =~= old(self).log() + (trace_all(before, start) + ops@[i as int].trace(
                    apply_all(before, start),
                )));
            }
            i += 1;
        }
        assert(ops@.take(i as int) =~= ops@);
        observed
    }

    /// The trace recorded so far.
    pub fn entries(&self) -> (log: &Vec<TraceEntry>)
        ensures
            log@ == self.log(),
    {
        &self.log
    }

    /// Hands the trace out and starts a new, empty one. The registers keep
    /// their words.
    pub fn take_log(&mut self) -> (log: Vec<TraceEntry>)
        ensures
            log@ == old(self).log(),
            final(self).log() == Seq::<TraceEntry>::empty(),
            final(self).regs() == old(self).regs(),
    {
        let mut log: Vec<TraceEntry> = Vec::new();
        std::mem::swap(&mut log, &mut self.log);
        log
    }
}

} // verus!
