//! The session controller: the one place that drives the cursor, the
//! ledger, and the preview cache together, one classified input action per
//! tick, so the three can never disagree. A decision records into the
//! ledger first and touches the cursor and cache only on success; an undo
//! pops the ledger first and, only on success, restores the cursor to the
//! index the popped decision targeted and resets the cache.
use vstd::prelude::*;
use crate::domain::{cursor_advance, cursor_retreat, AppState, Decision, FileEntry};
use crate::ledger::{count_decided, DecisionLedger};
use crate::preview::PreviewCache;

verus! {

/// A classified input action, as the external key mapping hands it over.
#[derive(Debug, Clone, Copy, PartialEq, Eq, Structural)]
pub enum KeyAction {
    /// Quit the application.
    Quit,
    /// Mark the current file to keep.
    Keep,
    /// Mark the current file to trash.
    Trash,
    /// Move to the next file.
    Next,
    /// Move to the previous file.
    Previous,
    /// Undo the last decision.
    Undo,
    /// Toggle the help overlay.
    Help,
    /// No action.
    NoOp,
}

/// Which screen the session currently shows.
#[derive(Debug, Clone, Copy, PartialEq, Eq, Structural)]
pub enum ViewState {
    /// The main file-browsing view.
    Browsing,
    /// The help overlay.
    Help,
    /// The summary screen at the end.
    Summary,
}

/// At least one file's effective decision exists.
pub open spec fn any_decided(history: Seq<(usize, Decision)>, total: usize) -> bool {
    count_decided(history, Decision::Keep, total as int) + count_decided(
        history,
        Decision::Trash,
        total as int,
    ) > 0
}

/// Every file is accounted for: kept plus trashed reaches the file count.
/// This is a derived predicate, re-evaluated from the history, never a
/// stored flag, so a later undo takes it back below the threshold.
pub open spec fn all_decided(history: Seq<(usize, Decision)>, total: usize) -> bool {
    count_decided(history, Decision::Keep, total as int) + count_decided(
        history,
        Decision::Trash,
        total as int,
    ) >= total
}

/// Checks whether every file has an effective decision, from the ledger's
/// statistics and the file list's length.
pub fn is_all_files_processed(state: &AppState, ledger: &DecisionLedger) -> (r: bool)
    requires
        ledger.total() == state.files@.len(),
    ensures
        r == all_decided(ledger.history(), ledger.total()),
{
    let stats = ledger.statistics();
    stats.kept + stats.trashed >= state.files.len()
}

/// One review session: the cursor over the ordered file list, the decision
/// ledger, the preview cache, and the visible screen.
#[derive(Debug)]
pub struct Session {
    pub state: AppState,
    pub ledger: DecisionLedger,
    pub cache: PreviewCache,
    pub view: ViewState,
}

/// The ledger and the cache are left exactly as they were, observably.
pub open spec fn core_untouched(pre: Session, post: Session) -> bool {
    &&& post.state == pre.state
    &&& post.ledger.total() == pre.ledger.total()
    &&& post.ledger.history() == pre.ledger.history()
    &&& post.cache.current() == pre.cache.current()
    &&& post.cache.entry() == pre.cache.entry()
}

/// Nothing observable changed at all.
pub open spec fn untouched(pre: Session, post: Session) -> bool {
    core_untouched(pre, post) && post.view == pre.view
}

/// The cache was reset: no file is current and its entry starts over.
pub open spec fn cache_reset(post: Session) -> bool {
    post.cache.current() is None && post.cache.entry() is NotStarted
}

/// What a quit request does: with any decision on the books it shows the
/// summary first; otherwise the session ends at once.
pub open spec fn quit_step(pre: Session, post: Session, quit: bool) -> bool {
    if any_decided(pre.ledger.history(), pre.ledger.total()) {
        &&& !quit
        &&& core_untouched(pre, post)
        &&& post.view == ViewState::Summary
    } else {
        &&& quit
        &&& untouched(pre, post)
    }
}

/// What a decision does, in order: record at the current cursor index;
/// only on success advance the cursor, reset the cache, and show the
/// summary once every file is accounted for. A failed record (only
/// possible on an empty list) changes nothing.
pub open spec fn decide_step(pre: Session, post: Session, decision: Decision, quit: bool) -> bool {
    let idx = pre.state.current_index;
    if idx < pre.ledger.total() {
        let hist = pre.ledger.history().push((idx, decision));
        &&& !quit
        &&& post.ledger.total() == pre.ledger.total()
        &&& post.ledger.history() == hist
        &&& post.state.files == pre.state.files
        &&& post.state.decisions_stack@ == pre.state.decisions_stack@.push((idx, decision))
        &&& post.state.current_index == cursor_advance(idx as nat, pre.state.files@.len())
        &&& cache_reset(post)
        &&& post.view == (if all_decided(hist, pre.ledger.total()) {
            ViewState::Summary
        } else {
            ViewState::Browsing
        })
    } else {
        &&& !quit
        &&& untouched(pre, post)
    }
}

/// What a navigation step does: the cursor moves to `target` and the cache
/// is reset for the newly current file; ledger and list stay as they were.
pub open spec fn navigate_step(pre: Session, post: Session, target: nat, quit: bool) -> bool {
    &&& !quit
    &&& post.state.files == pre.state.files
    &&& post.state.decisions_stack == pre.state.decisions_stack
    &&& post.state.current_index as nat == target
    &&& post.ledger.total() == pre.ledger.total()
    &&& post.ledger.history() == pre.ledger.history()
    &&& cache_reset(post)
    &&& post.view == ViewState::Browsing
}

/// What an undo does, in order: pop the ledger; only on success move the
/// cursor back to the exact index the popped decision targeted (not simply
/// one back) and reset the cache. With an empty history nothing changes.
pub open spec fn undo_step(pre: Session, post: Session, quit: bool) -> bool {
    if pre.ledger.history().len() > 0 {
        let popped = pre.ledger.history().last();
        &&& !quit
        &&& post.ledger.total() == pre.ledger.total()
        &&& post.ledger.history() == pre.ledger.history().drop_last()
        &&& post.state.files == pre.state.files
        &&& post.state.decisions_stack@ == pre.state.decisions_stack@.drop_last()
        &&& post.state.current_index == popped.0
        &&& cache_reset(post)
        &&& post.view == ViewState::Browsing
    } else {
        &&& !quit
        &&& untouched(pre, post)
    }
}

/// The full transition relation of one tick: what each action does in each
/// view. In the help overlay only help, quit and an unmapped key close it;
/// on the summary screen any key ends the session; browsing dispatches to
/// the steps above.
pub open spec fn step_spec(pre: Session, post: Session, action: KeyAction, quit: bool) -> bool {
    match pre.view {
        ViewState::Help => {
            &&& !quit
            &&& core_untouched(pre, post)
            &&& post.view == (match action {
                KeyAction::Help | KeyAction::Quit | KeyAction::NoOp => ViewState::Browsing,
                _ => ViewState::Help,
            })
        },
        ViewState::Summary => quit && untouched(pre, post),
        ViewState::Browsing => match action {
            KeyAction::Quit => quit_step(pre, post, quit),
            KeyAction::Keep => decide_step(pre, post, Decision::Keep, quit),
            KeyAction::Trash => decide_step(pre, post, Decision::Trash, quit),
            KeyAction::Next => navigate_step(
                pre,
                post,
                cursor_advance(pre.state.current_index as nat, pre.state.files@.len()),
                quit,
            ),
            KeyAction::Previous => navigate_step(
                pre,
                post,
                cursor_retreat(pre.state.current_index as nat),
                quit,
            ),
            KeyAction::Undo => undo_step(pre, post, quit),
            KeyAction::Help => {
                &&& !quit
                &&& core_untouched(pre, post)
                &&& post.view == ViewState::Help
            },
            KeyAction::NoOp => !quit && untouched(pre, post),
        },
    }
}

/// Undoing restores the cursor to the exact index the undone decision
/// targeted, however the cursor had moved in between: it is part of the
/// undo transition itself, not derived from the cursor's position.
pub proof fn lemma_undo_restores_cursor(pre: Session, post: Session, quit: bool)
    requires
        pre.view == ViewState::Browsing,
        pre.ledger.history().len() > 0,
        step_spec(pre, post, KeyAction::Undo, quit),
    ensures
        post.state.current_index == pre.ledger.history().last().0,
{
}

impl Session {
    /// The controller's consistency invariant: the ledger covers exactly
    /// the file list, its entries lie inside it, the cursor stays inside a
    /// non-empty list (and reads 0 on an empty one), and the local
    /// decision stack never disagrees with the ledger's history.
    pub open spec fn wf(&self) -> bool {
        &&& self.ledger.total() == self.state.files@.len()
        &&& self.ledger.wf()
        &&& self.state.decisions_stack@ == self.ledger.history()
        &&& (self.state.files@.len() == 0 ==> self.state.current_index == 0)
        &&& (self.state.files@.len() > 0 ==> self.state.current_index < self.state.files@.len())
    }

    /// A fresh session over the discovered files: cursor at the start,
    /// empty ledger, nothing previewed, browsing.
    pub fn new(files: Vec<FileEntry>) -> (s: Session)
        ensures
            s.wf(),
            s.state.files == files,
            s.state.current_index == 0,
            s.ledger.history() =~= Seq::<(usize, Decision)>::empty(),
            s.cache.current() is None,
            s.cache.entry() is NotStarted,
            s.view == ViewState::Browsing,
    {
        let total = files.len();
        Session {
            state: AppState::new(files),
            ledger: DecisionLedger::new(total),
            cache: PreviewCache::new(),
            view: ViewState::Browsing,
        }
    }

    /// Processes one classified input action and reports whether the
    /// session ends. The exact effect of every action in every view is
    /// `step_spec`.
    pub fn step(&mut self, action: KeyAction) -> (quit: bool)
        requires
            old(self).wf(),
        ensures
            final(self).wf(),
            step_spec(*old(self), *final(self), action, quit),
    {
        match self.view {
            ViewState::Help => {
                match action {
                    KeyAction::Help | KeyAction::Quit | KeyAction::NoOp => {
                        self.view = ViewState::Browsing;
                    },
                    _ => {},
                }
                false
            },
            ViewState::Summary => true,
            ViewState::Browsing => match action {
                KeyAction::Quit => {
                    let stats = self.ledger.statistics();
                    if stats.kept > 0 || stats.trashed > 0 {
                        self.view = ViewState::Summary;
                        false
                    } else {
                        true
                    }
                },
                KeyAction::Keep => self.decide(Decision::Keep),
                KeyAction::Trash => self.decide(Decision::Trash),
                KeyAction::Next => {
                    self.state.next();
                    self.cache.reset();
                    false
                },
                KeyAction::Previous => {
                    self.state.previous();
                    self.cache.reset();
                    false
                },
                KeyAction::Undo => {
                    proof {
                        if self.ledger.history().len() > 0 {
                            self.ledger.lemma_wf_last_entry();
                        }
                    }
                    match self.ledger.undo() {
                        Ok((index, _decision)) => {
                            self.state.undo();
                            self.state.current_index = index;
                            self.cache.reset();
                        },
                        Err(_) => {},
                    }
                    false
                },
                KeyAction::Help => {
                    self.view = ViewState::Help;
                    false
                },
                KeyAction::NoOp => false,
            },
        }
    }

    /// Records `decision` at the current cursor index; only on success the
    /// cursor advances, the cache is reset, and, once every file is
    /// accounted for, the summary is shown.
    fn decide(&mut self, decision: Decision) -> (quit: bool)
        requires
            old(self).wf(),
            old(self).view == ViewState::Browsing,
        ensures
            final(self).wf(),
            decide_step(*old(self), *final(self), decision, quit),
    {
        let index = self.state.current_index;
        match self.ledger.record(index, decision) {
            Ok(_) => {
                self.state.record_decision(decision);
                self.state.next();
                self.cache.reset();
                if is_all_files_processed(&self.state, &self.ledger) {
                    self.view = ViewState::Summary;
                } else {
                    self.view = ViewState::Browsing;
                }
                false
            },
            Err(_) => false,
        }
    }
}

} // verus!
