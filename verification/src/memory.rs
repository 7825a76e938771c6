//! Requests on the memory of the target process, and what they do to it.
//!
//! The library never touches another process. It says what is to be done,
//! as a list of [`MemoryOp`]s with absolute addresses, and whoever holds
//! the process runs that list. [`apply_all`] says what a list does to the
//! memory when every request succeeds; [`Execution`] says what to run when
//! one of them fails.

use vstd::prelude::*;

verus! {

/// How memory is protected while it is written, and how scratch memory
/// is protected for good: it can be read, written and executed.
pub const PROTECTION: u32 = 0x40;

/// How scratch memory is reserved: reserved and committed at once.
pub const ALLOCATION: u32 = 0x3000;

/// How scratch memory is released: as a whole.
pub const RELEASE: u32 = 0x8000;

/// One request on the memory of the target process.
#[derive(Debug)]
pub enum MemoryOp {
    /// Reserve `len` bytes at `address` as [`ALLOCATION`] says, protected
    /// as [`PROTECTION`] says.
    Allocate { address: usize, len: usize },
    /// Remember how the `len` bytes at `address` are protected, and
    /// protect them as [`PROTECTION`] says.
    Protect { address: usize, len: usize },
    /// Store `bytes` at `address`.
    Write { address: usize, bytes: Vec<u8> },
    /// Protect the `len` bytes at `address` again as was remembered.
    Restore { address: usize, len: usize },
    /// Release what was reserved at `address`, as [`RELEASE`] says.
    Free { address: usize },
}

/// A [`MemoryOp`] as a value of specifications.
pub enum OpView {
    Allocate { address: usize, len: usize },
    Protect { address: usize, len: usize },
    Write { address: usize, bytes: Seq<u8> },
    Restore { address: usize, len: usize },
    Free { address: usize },
}

impl View for MemoryOp {
    type V = OpView;

    open spec fn view(&self) -> OpView {
        match *self {
            MemoryOp::Allocate { address, len } => OpView::Allocate { address, len },
            MemoryOp::Protect { address, len } => OpView::Protect { address, len },
            MemoryOp::Write { address, bytes } => OpView::Write { address, bytes: bytes@ },
            MemoryOp::Restore { address, len } => OpView::Restore { address, len },
            MemoryOp::Free { address } => OpView::Free { address },
        }
    }
}

/// The requests of `ops` as values of specifications.
pub open spec fn views(ops: Seq<MemoryOp>) -> Seq<OpView> {
    Seq::new(ops.len(), |i: int| ops[i]@)
}

/// The memory of a process: the byte at each mapped address.
pub type Memory = Map<int, u8>;

/// Whether `memory` holds `bytes` at `address`.
pub open spec fn holds(memory: Memory, address: int, bytes: Seq<u8>) -> bool {
    forall|a: int|
        #![trigger memory.dom().contains(a)]
        #![trigger memory[a]]
        address <= a < address + bytes.len() ==> memory.dom().contains(a) && memory[a] == bytes[a
            - address]
}

/// `memory` after `bytes` have been stored at `address`.
pub open spec fn write_at(memory: Memory, address: int, bytes: Seq<u8>) -> Memory {
    Map::new(
        |a: int| memory.dom().contains(a) || address <= a < address + bytes.len(),
        |a: int|
            if address <= a < address + bytes.len() {
                bytes[a - address]
            } else {
                memory[a]
            },
    )
}

/// `memory` after `op` has succeeded. Only a write changes what the memory
/// holds.
pub open spec fn apply(memory: Memory, op: OpView) -> Memory {
    match op {
        OpView::Write { address, bytes } => write_at(memory, address as int, bytes),
        _ => memory,
    }
}

/// `memory` after every request of `ops` has succeeded, in order.
pub open spec fn apply_all(memory: Memory, ops: Seq<OpView>) -> Memory
    decreases ops.len(),
{
    if ops.len() == 0 {
        memory
    } else {
        apply(apply_all(memory, ops.drop_last()), ops.last())
    }
}

/// Running two lists in a row is running the one list they make together.
pub proof fn lemma_apply_all_concat(memory: Memory, first: Seq<OpView>, second: Seq<OpView>)
    ensures
        apply_all(memory, first + second) == apply_all(apply_all(memory, first), second),
    decreases second.len(),
{
    if second.len() == 0 {
        assert(first + second =~= first);
    } else {
        lemma_apply_all_concat(memory, first, second.drop_last());
        assert((first + second).drop_last() =~= first + second.drop_last());
        assert((first + second).last() == second.last());
    }
}

/// The three requests that store `bytes` at `address`: allow writing,
/// write, and protect again as before.
pub open spec fn spec_guarded_write(address: usize, bytes: Seq<u8>) -> Seq<OpView> {
    seq![
        OpView::Protect { address, len: bytes.len() as usize },
        OpView::Write { address, bytes },
        OpView::Restore { address, len: bytes.len() as usize },
    ]
}

/// A guarded write changes the memory as the write alone does.
pub proof fn lemma_guarded_write_effect(memory: Memory, address: usize, bytes: Seq<u8>)
    ensures
        apply_all(memory, spec_guarded_write(address, bytes)) == write_at(
            memory,
            address as int,
            bytes,
        ),
{
    let ops = spec_guarded_write(address, bytes);
    reveal_with_fuel(apply_all, 4);
    assert(ops.drop_last().drop_last().drop_last().len() == 0);
    assert(ops.drop_last().last() == ops[1]);
    assert(ops.drop_last().drop_last().last() == ops[0]);
}

/// The views of a list of requests, after one more was pushed.
pub proof fn lemma_push_views(before: Seq<MemoryOp>, op: MemoryOp)
    ensures
        views(before.push(op)) == views(before).push(op@),
{
    assert(views(before.push(op)) =~= views(before).push(op@));
}

/// Adds to `ops` the three requests that store `bytes` at `address`.
pub fn guarded_write(ops: &mut Vec<MemoryOp>, address: usize, bytes: &[u8])
    ensures
        views(final(ops)@) == views(old(ops)@) + spec_guarded_write(address, bytes@),
{
    let len = bytes.len();
    let ghost start = ops@;
    let protect = MemoryOp::Protect { address, len };
    let write = MemoryOp::Write { address, bytes: vstd::slice::slice_to_vec(bytes) };
    let restore = MemoryOp::Restore { address, len };
    proof {
        lemma_push_views(start, protect);
        lemma_push_views(start.push(protect), write);
        lemma_push_views(start.push(protect).push(write), restore);
    }
    ops.push(protect);
    ops.push(write);
    ops.push(restore);
    proof {
        assert(views(ops@) =~= views(start) + spec_guarded_write(address, bytes@));
    }
}

/// Adds to `ops` the request that stores `bytes` at `address` as they
/// are, without a change of protection.
pub fn plain_write(ops: &mut Vec<MemoryOp>, address: usize, bytes: &[u8])
    ensures
        views(final(ops)@) == views(old(ops)@).push(
            OpView::Write { address, bytes: bytes@ },
        ),
{
    let write = MemoryOp::Write { address, bytes: vstd::slice::slice_to_vec(bytes) };
    proof {
        lemma_push_views(ops@, write);
    }
    ops.push(write);
}

/// A run of a list of requests, as it stands.
pub struct ExecutionView {
    /// The requests.
    pub ops: Seq<OpView>,
    /// How many requests are done with; the next one is due.
    pub next: int,
    /// Whether a protection was changed and not yet restored.
    pub guarded: bool,
    /// Whether a request has failed.
    pub failed: bool,
}

/// The index of the first request from `from` on that restores a
/// protection; the length of `ops` where there is none.
pub open spec fn next_restore(ops: Seq<OpView>, from: int) -> int
    decreases ops.len() - from,
{
    if from >= ops.len() {
        ops.len() as int
    } else if ops[from] is Restore {
        from
    } else {
        next_restore(ops, from + 1)
    }
}

impl ExecutionView {
    /// The run has not gone past its list, and after a failure nothing is
    /// due but the restoring of a protection.
    pub open spec fn wf(self) -> bool {
        &&& 0 <= self.next <= self.ops.len()
        &&& self.failed && self.next < self.ops.len() ==> self.ops[self.next] is Restore
    }

    /// The request that is due, if any.
    pub open spec fn current(self) -> Option<OpView> {
        if 0 <= self.next < self.ops.len() {
            Some(self.ops[self.next])
        } else {
            None
        }
    }

    /// How the run ended, once nothing is due.
    pub open spec fn outcome(self) -> Option<Result<(), crate::patches::PatchError>> {
        if self.current() is Some {
            None
        } else if self.failed {
            Some(Err(crate::patches::PatchError::PatchWriteFailed))
        } else {
            Some(Ok(()))
        }
    }

    /// The run after the request that was due has succeeded or failed.
    /// A success moves on to the next request. A failure ends the run,
    /// but for one thing: where a protection was changed and not yet
    /// restored, the request that restores it is still due, and whatever
    /// comes of that one, the run is over then.
    pub open spec fn report(self, ok: bool) -> ExecutionView {
        match self.current() {
            None => self,
            Some(op) => if self.failed {
                ExecutionView { next: self.ops.len() as int, guarded: !ok, ..self }
            } else if ok {
                ExecutionView {
                    next: self.next + 1,
                    guarded: if op is Protect {
                        true
                    } else if op is Restore {
                        false
                    } else {
                        self.guarded
                    },
                    ..self
                }
            } else if self.guarded && !(op is Restore) {
                ExecutionView { next: next_restore(self.ops, self.next + 1), failed: true, ..self }
            } else {
                ExecutionView { next: self.ops.len() as int, failed: true, ..self }
            },
        }
    }

    /// The run after `n` requests in a row have succeeded.
    pub open spec fn succeed(self, n: nat) -> ExecutionView
        decreases n,
    {
        if n == 0 {
            self
        } else {
            self.succeed((n - 1) as nat).report(true)
        }
    }
}

/// `next_restore` finds a request that restores a protection, or the end
/// of the list, and nothing before it restores one.
pub proof fn lemma_next_restore(ops: Seq<OpView>, from: int)
    requires
        0 <= from <= ops.len(),
    ensures
        from <= next_restore(ops, from) <= ops.len(),
        next_restore(ops, from) < ops.len() ==> ops[next_restore(ops, from)] is Restore,
        forall|i: int| from <= i < next_restore(ops, from) ==> !(#[trigger] ops[i] is Restore),
    decreases ops.len() - from,
{
    if from < ops.len() && !(ops[from] is Restore) {
        lemma_next_restore(ops, from + 1);
    }
}

/// Whatever is reported, a run stays well formed: after a failure, no
/// request is ever due again but the one that restores a protection.
pub proof fn lemma_report_wf(run: ExecutionView, ok: bool)
    requires
        run.wf(),
    ensures
        run.report(ok).wf(),
        run.report(ok).ops == run.ops,
        run.failed ==> run.report(ok).current() is None,
        run.failed ==> run.report(ok).failed,
{
    if run.current() is Some && !run.failed && !ok {
        lemma_next_restore(run.ops, run.next + 1);
    }
}

/// A failure while a protection is changed leaves the restoring of it
/// due, where the list holds one; the requests in between are skipped.
pub proof fn lemma_failure_restores(run: ExecutionView)
    requires
        run.wf(),
        !run.failed,
        run.guarded,
        run.current() matches Some(op) && !(op is Restore),
    ensures
        run.report(false).failed,
        run.report(false).next == next_restore(run.ops, run.next + 1),
        run.report(false).current() matches Some(op) ==> op is Restore,
        run.report(false).outcome() matches Some(r) ==> r is Err,
{
    lemma_next_restore(run.ops, run.next + 1);
}

/// A run in which every request succeeds asks for each request of its
/// list in order, and ends well.
pub proof fn lemma_all_succeed(ops: Seq<OpView>, n: nat)
    requires
        n <= ops.len(),
    ensures
        ({
            let start = ExecutionView { ops, next: 0, guarded: false, failed: false };
            &&& start.succeed(n).next == n
            &&& !start.succeed(n).failed
            &&& start.succeed(n).ops == ops
            &&& n == ops.len() ==> start.succeed(n).outcome() == Some(
                Ok::<(), crate::patches::PatchError>(()),
            )
        }),
    decreases n,
{
    if n > 0 {
        lemma_all_succeed(ops, (n - 1) as nat);
    }
}

impl ExecutionView {
    /// The run after the requests that were due, one after the other, have
    /// come out as `reports` say.
    pub open spec fn after(self, reports: Seq<bool>) -> ExecutionView
        decreases reports.len(),
    {
        if reports.len() == 0 {
            self
        } else {
            self.after(reports.drop_last()).report(reports.last())
        }
    }
}

/// A run ends well only if every request of its list was made and has
/// succeeded: one failure, wherever it comes, makes the run end badly.
pub proof fn lemma_ends_well_only_if_all_succeeded(ops: Seq<OpView>, reports: Seq<bool>)
    ensures
        ({
            let start = ExecutionView { ops, next: 0, guarded: false, failed: false };
            let end = start.after(reports);
            &&& end.wf()
            &&& end.ops == ops
            &&& end.outcome() == Some(Ok::<(), crate::patches::PatchError>(())) ==> {
                &&& reports.len() >= ops.len()
                &&& forall|i: int| 0 <= i < ops.len() ==> reports[i]
            }
            &&& !end.failed ==> {
                &&& end.next <= reports.len()
                &&& end.next == reports.len() || end.next == ops.len()
                &&& forall|i: int| 0 <= i < end.next ==> reports[i]
            }
        }),
    decreases reports.len(),
{
    let start = ExecutionView { ops, next: 0, guarded: false, failed: false };
    if reports.len() > 0 {
        let before = start.after(reports.drop_last());
        lemma_ends_well_only_if_all_succeeded(ops, reports.drop_last());
        lemma_report_wf(before, reports.last());
        let end = before.report(reports.last());
        if !end.failed {
            assert forall|i: int| 0 <= i < end.next implies reports[i] by {
                if i < before.next {
                    assert(reports.drop_last()[i]);
                }
            }
        }
    }
}

/// A run of a list of requests: it says which request is due, takes in
/// what came of it, and so decides what is due next.
#[derive(Debug)]
pub struct Execution {
    ops: Vec<MemoryOp>,
    next: usize,
    guarded: bool,
    failed: bool,
}

impl View for Execution {
    type V = ExecutionView;

    closed spec fn view(&self) -> ExecutionView {
        ExecutionView {
            ops: views(self.ops@),
            next: self.next as int,
            guarded: self.guarded,
            failed: self.failed,
        }
    }
}

impl Execution {
    #[verifier::type_invariant]
    spec fn inv(self) -> bool {
        self@.wf()
    }

    /// A run of `ops` that has not begun.
    pub fn new(ops: Vec<MemoryOp>) -> (run: Execution)
        ensures
            run@ == (ExecutionView { ops: views(ops@), next: 0, guarded: false, failed: false }),
            run@.wf(),
    {
        Execution { ops, next: 0, guarded: false, failed: false }
    }

    /// The request that is due; `None` when the run is over.
    pub fn current(&self) -> (op: Option<&MemoryOp>)
        ensures
            self@.wf(),
            match self@.current() {
                Some(due) => op is Some && op.unwrap()@ == due,
                None => op is None,
            },
    {
        proof {
            use_type_invariant(self);
        }
        if self.next < self.ops.len() {
            Some(&self.ops[self.next])
        } else {
            None
        }
    }

    /// Takes in whether the request that was due has succeeded.
    pub fn report(&mut self, ok: bool)
        ensures
            final(self)@ == old(self)@.report(ok),
            final(self)@.wf(),
    {
        proof {
            use_type_invariant(&*self);
            lemma_report_wf(self@, ok);
        }
        let len = self.ops.len();
        if self.next >= len {
            return ;
        }
        if self.failed {
            self.next = len;
            self.guarded = !ok;
            return ;
        }
        let protects = match &self.ops[self.next] {
            MemoryOp::Protect { .. } => true,
            _ => false,
        };
        let restores = Self::is_restore(&self.ops[self.next]);
        if ok {
            self.next = self.next + 1;
            if protects {
                self.guarded = true;
            } else if restores {
                self.guarded = false;
            }
        } else if self.guarded && !restores {
            let mut at: usize = self.next + 1;
            while at < len && !Self::is_restore(&self.ops[at])
                invariant
                    self.next < at <= len,
                    len == self.ops@.len(),
                    next_restore(views(self.ops@), self.next + 1) == next_restore(
                        views(self.ops@),
                        at as int,
                    ),
                decreases len - at,
            {
                at = at + 1;
            }
            self.next = at;
            self.failed = true;
        } else {
            self.next = len;
            self.failed = true;
        }
    }

    /// Whether `op` restores a protection.
    fn is_restore(op: &MemoryOp) -> (restores: bool)
        ensures
            restores == (op@ is Restore),
    {
        match op {
            MemoryOp::Restore { .. } => true,
            _ => false,
        }
    }

    /// How the run ended: `None` while a request is due.
    pub fn outcome(&self) -> (outcome: Option<Result<(), crate::patches::PatchError>>)
        ensures
            outcome == self@.outcome(),
    {
        proof {
            use_type_invariant(self);
        }
        if self.next < self.ops.len() {
            None
        } else if self.failed {
            Some(Err(crate::patches::PatchError::PatchWriteFailed))
        } else {
            Some(Ok(()))
        }
    }
}

} // verus!
