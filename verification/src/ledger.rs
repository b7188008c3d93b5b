//! The decision ledger: an append-only stack of (index, decision) pairs
//! that is the single source of truth for undo and for statistics. The
//! effective decision of an index is whichever entry for it was pushed most
//! recently; statistics are derived from the stack and can never drift.
use vstd::prelude::*;
use vstd::pervasive::VecAdditionalExecFns;
use crate::domain::Decision;
use crate::error::FileTinderError;

verus! {

/// Aggregate view of a ledger: the file count, and how many files'
/// most recent decision is Keep respectively Trash.
#[derive(Debug, Clone, Copy, PartialEq, Eq, Structural)]
pub struct DecisionStatistics {
    pub total_files: usize,
    pub kept: usize,
    pub trashed: usize,
}

/// The decision currently in force for `index`: the decision of the most
/// recent history entry for that index, or none if no entry targets it.
pub open spec fn effective_decision(history: Seq<(usize, Decision)>, index: int) -> Option<
    Decision,
>
    decreases history.len(),
{
    if history.len() == 0 {
        None
    } else if history.last().0 as int == index {
        Some(history.last().1)
    } else {
        effective_decision(history.drop_last(), index)
    }
}

/// How many of the indices below `n` have `decision` as their effective
/// decision.
pub open spec fn count_decided(history: Seq<(usize, Decision)>, decision: Decision, n: int) -> nat
    decreases n,
{
    if n <= 0 {
        0
    } else {
        count_decided(history, decision, n - 1) + if effective_decision(history, n - 1) == Some(
            decision,
        ) {
            1nat
        } else {
            0nat
        }
    }
}

/// The largest index a ledger over `total` files accepts (0 when the list
/// is empty, so the bound reads sensibly in the error).
pub open spec fn max_index(total: usize) -> usize {
    if total == 0 {
        0
    } else {
        (total - 1) as usize
    }
}

/// No index has an effective decision in an empty history, so every count
/// over it is zero: a ledger whose history has been fully undone reports
/// the statistics of a freshly created one.
pub proof fn lemma_empty_history_counts_nothing(decision: Decision, n: int)
    ensures
        count_decided(Seq::<(usize, Decision)>::empty(), decision, n) == 0,
    decreases n,
{
    if n > 0 {
        lemma_empty_history_counts_nothing(decision, n - 1);
    }
}

/// Undoing directly after recording restores the exact history, so every
/// statistic derived from it is restored as well.
pub proof fn lemma_record_undo_round_trip(
    history: Seq<(usize, Decision)>,
    index: usize,
    decision: Decision,
)
    ensures
        history.push((index, decision)).drop_last() == history,
{
    assert(history.push((index, decision)).drop_last() =~= history);
}

/// Re-deciding one index and undoing once restores the earlier decision:
/// after recording `first` and then `second` at the same index, one undo
/// leaves `first` in force there.
pub proof fn lemma_redecide_then_undo(
    history: Seq<(usize, Decision)>,
    index: usize,
    first: Decision,
    second: Decision,
)
    ensures
        effective_decision(
            history.push((index, first)).push((index, second)).drop_last(),
            index as int,
        ) == Some(first),
{
    let once = history.push((index, first));
    assert(once.push((index, second)).drop_last() =~= once);
    assert(effective_decision(once, index as int) == Some(first));
}

/// Chronological record of decisions over a file list of fixed length,
/// with undo. The stack is the single source of truth; statistics are
/// computed from it on demand.
#[derive(Debug)]
pub struct DecisionLedger {
    file_count: usize,
    stack: Vec<(usize, Decision)>,
}

impl DecisionLedger {
    /// How many files the reviewed list holds.
    pub closed spec fn total(&self) -> usize {
        self.file_count
    }

    /// The chronological history of recorded decisions.
    pub closed spec fn history(&self) -> Seq<(usize, Decision)> {
        self.stack@
    }

    /// Every history entry targets an index inside the file list; `record`
    /// rejects any other, so this holds throughout a ledger's life.
    pub closed spec fn wf(&self) -> bool {
        forall|k: int|
            0 <= k < self.stack@.len() ==> (#[trigger] self.stack@[k]).0 < self.file_count
    }

    /// In a well-formed ledger the most recent entry, the one `undo`
    /// returns, targets an index inside the file list.
    pub proof fn lemma_wf_last_entry(&self)
        requires
            self.wf(),
            self.history().len() > 0,
        ensures
            self.history().last().0 < self.total(),
    {
    }

    /// A fresh, empty ledger over a list of `total_files` files.
    pub fn new(total_files: usize) -> (l: DecisionLedger)
        ensures
            l.total() == total_files,
            l.history() =~= Seq::<(usize, Decision)>::empty(),
            l.wf(),
    {
        DecisionLedger { file_count: total_files, stack: Vec::new() }
    }

    /// Appends a decision for `index` to the history. Re-deciding an index
    /// is legal and simply adds a new entry; an index at or past the list
    /// length is rejected and the history is left untouched.
    pub fn record(&mut self, index: usize, decision: Decision) -> (r: Result<
        (),
        FileTinderError,
    >)
        ensures
            final(self).total() == old(self).total(),
            old(self).wf() ==> final(self).wf(),
            index < old(self).total() ==> r is Ok && final(self).history() == old(
                self,
            ).history().push((index, decision)),
            index >= old(self).total() ==> r == Err::<(), FileTinderError>(
                FileTinderError::InvalidIndex { index, max: max_index(old(self).total()) },
            ) && final(self).history() == old(self).history(),
    {
        if index < self.file_count {
            self.stack.push((index, decision));
            Ok(())
        } else {
            let max = if self.file_count == 0 {
                0
            } else {
                self.file_count - 1
            };
            Err(FileTinderError::InvalidIndex { index, max })
        }
    }

    /// Pops and returns the most recent history entry, whichever index it
    /// targets; on an empty history it fails and changes nothing.
    pub fn undo(&mut self) -> (r: Result<(usize, Decision), FileTinderError>)
        ensures
            final(self).total() == old(self).total(),
            old(self).wf() ==> final(self).wf(),
            old(self).history().len() > 0 ==> r == Ok::<(usize, Decision), FileTinderError>(
                old(self).history().last(),
            ) && final(self).history() == old(self).history().drop_last(),
            old(self).history().len() == 0 ==> r == Err::<(usize, Decision), FileTinderError>(
                FileTinderError::NothingToUndo,
            ) && final(self).history() == old(self).history(),
    {
        match self.stack.pop() {
            Some(entry) => Ok(entry),
            None => Err(FileTinderError::NothingToUndo),
        }
    }

    /// Derives the statistics from the history in one scan: the file
    /// count, and how many indices' effective decision is Keep
    /// respectively Trash.
    pub fn statistics(&self) -> (s: DecisionStatistics)
        ensures
            s.total_files == self.total(),
            s.kept as nat == count_decided(self.history(), Decision::Keep, self.total() as int),
            s.trashed as nat == count_decided(
                self.history(),
                Decision::Trash,
                self.total() as int,
            ),
            s.kept + s.trashed <= s.total_files,
    {
        let total = self.file_count;
        let mut latest: Vec<Option<Decision>> = Vec::new();
        let mut j: usize = 0;
        while j < total
            invariant
                j <= total,
                latest@.len() == j,
                forall|q: int|
                    0 <= q < j ==> latest@[q] == effective_decision(
                        Seq::<(usize, Decision)>::empty(),
                        q,
                    ),
            decreases total - j,
        {
            latest.push(None);
            j = j + 1;
        }
        proof {
            assert(self.stack@.take(0) =~= Seq::<(usize, Decision)>::empty());
        }
        let mut k: usize = 0;
        while k < self.stack.len()
            invariant
                k <= self.stack@.len(),
                latest@.len() == total,
                forall|q: int|
                    0 <= q < total ==> latest@[q] == effective_decision(
                        self.stack@.take(k as int),
                        q,
                    ),
            decreases self.stack@.len() - k,
        {
            let ghost pre = self.stack@.take(k as int);
            let (index, decision) = self.stack[k];
            if index < total {
                latest.set(index, Some(decision));
            }
            proof {
                let post = self.stack@.take(k as int + 1);
                assert(post.drop_last() =~= pre);
                assert(post.last() == self.stack@[k as int]);
                assert forall|q: int| 0 <= q < total implies latest@[q] == effective_decision(
                    post,
                    q,
                ) by {
                    if index as int == q {
                        assert(effective_decision(post, q) == Some(decision));
                    } else {
                        assert(effective_decision(post, q) == effective_decision(pre, q));
                    }
                }
            }
            k = k + 1;
        }
        proof {
            assert(self.stack@.take(self.stack@.len() as int) =~= self.stack@);
        }
        let mut kept: usize = 0;
        let mut trashed: usize = 0;
        let mut i: usize = 0;
        while i < total
            invariant
                i <= total,
                latest@.len() == total,
                forall|q: int|
                    0 <= q < total ==> latest@[q] == effective_decision(self.stack@, q),
                kept as nat == count_decided(self.stack@, Decision::Keep, i as int),
                trashed as nat == count_decided(self.stack@, Decision::Trash, i as int),
                kept + trashed <= i,
            decreases total - i,
        {
            match latest[i] {
                Some(Decision::Keep) => {
                    kept = kept + 1;
                },
                Some(Decision::Trash) => {
                    trashed = trashed + 1;
                },
                None => {},
            }
            i = i + 1;
        }
        DecisionStatistics { total_files: total, kept, trashed }
    }
}

} // verus!
