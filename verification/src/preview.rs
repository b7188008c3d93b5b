//! The preview cache: a staged state machine around the external preview
//! generator. It holds the entry for the current file only, pays the
//! generation cost at most once per file per current period, and discards
//! results that arrive for a file that is no longer current.
use vstd::prelude::*;
use vstd::string::StrSliceExecFns;

verus! {

/// The staged state of the preview for the current file.
#[derive(Debug, Clone, PartialEq, Eq)]
pub enum PreviewState {
    /// No preview has been requested for the current file yet.
    NotStarted,
    /// Generation is under way; repeated requests return this state
    /// without invoking the generator again.
    Loading,
    /// The generator produced these display lines.
    Ready(Vec<String>),
    /// The generator failed for the stated reason.
    Error(String),
}

/// The entry a generator outcome commits to: its lines on success, the
/// failure reason otherwise.
pub open spec fn outcome_entry(outcome: Result<Vec<String>, String>) -> PreviewState {
    match outcome {
        Ok(lines) => PreviewState::Ready(lines),
        Err(reason) => PreviewState::Error(reason),
    }
}

/// Compares two strings character by character.
fn str_eq(a: &str, b: &str) -> (r: bool)
    ensures
        r == (a@ == b@),
{
    let a_len = a.unicode_len();
    let b_len = b.unicode_len();
    if a_len != b_len {
        return false;
    }
    let mut i: usize = 0;
    while i < a_len
        invariant
            i <= a_len,
            a_len == a@.len(),
            a_len == b@.len(),
            forall|j: int| 0 <= j < i ==> a@[j] == b@[j],
        decreases a_len - i,
    {
        if a.get_char(i) != b.get_char(i) {
            return false;
        }
        i = i + 1;
    }
    proof {
        assert(a@ =~= b@);
    }
    true
}

/// Cache of the one live preview entry, keyed by the identity (path) of
/// the file it was started for. Switching files goes through `reset`,
/// which discards the entry whatever its state; a generation result is
/// committed only if the file it was started for is still current.
#[derive(Debug)]
pub struct PreviewCache {
    key: Option<String>,
    entry: PreviewState,
}

impl PreviewCache {
    /// The identity of the file the live entry belongs to, if any.
    pub closed spec fn current(&self) -> Option<Seq<char>> {
        match self.key {
            Some(k) => Some(k@),
            None => None,
        }
    }

    /// The staged state of the live entry.
    pub closed spec fn entry(&self) -> PreviewState {
        self.entry
    }

    /// A fresh cache: no file is current and nothing has been started.
    pub fn new() -> (c: PreviewCache)
        ensures
            c.current() is None,
            c.entry() is NotStarted,
    {
        PreviewCache { key: None, entry: PreviewState::NotStarted }
    }

    /// Discards the live entry unconditionally: whatever state the prior
    /// file's preview was in (ready, failed, or still loading), the cache
    /// returns to not-started, so the next current file starts over.
    pub fn reset(&mut self)
        ensures
            final(self).current() is None,
            final(self).entry() is NotStarted,
    {
        self.key = None;
        self.entry = PreviewState::NotStarted;
    }

    /// A borrow of the live entry, for rendering.
    pub fn entry_ref(&self) -> (r: &PreviewState)
        ensures
            *r == self.entry(),
    {
        &self.entry
    }

    /// One per-tick preview request for the file at `path`. Returns
    /// immediately: when the entry already belongs to this file and
    /// generation was started before, nothing changes and the caller reads
    /// the cached state; otherwise the entry becomes Loading for this file
    /// and the returned flag tells the caller to start the generator once.
    pub fn request(&mut self, path: &str) -> (start: bool)
        ensures
            old(self).current() == Some(path@) && !(old(self).entry() is NotStarted) ==> !start
                && final(self).current() == old(self).current()
                && final(self).entry() == old(self).entry(),
            old(self).current() != Some(path@) || old(self).entry() is NotStarted ==> start
                && final(self).current() == Some(path@) && final(self).entry() is Loading,
    {
        let same = match &self.key {
            Some(k) => str_eq(k.as_str(), path),
            None => false,
        };
        let started = match &self.entry {
            PreviewState::NotStarted => false,
            _ => true,
        };
        if same && started {
            false
        } else {
            self.key = Some(path.to_owned());
            self.entry = PreviewState::Loading;
            true
        }
    }

    /// Delivers the generator's outcome for the file it was started for.
    /// It is committed only if that file is still current and its entry is
    /// still Loading; a late arrival for a file that was navigated away
    /// from changes nothing, so a stale result can never resurface.
    pub fn complete(&mut self, path: &str, outcome: Result<Vec<String>, String>)
        ensures
            old(self).current() == Some(path@) && old(self).entry() is Loading
                ==> final(self).current() == old(self).current()
                && final(self).entry() == outcome_entry(outcome),
            old(self).current() != Some(path@) || !(old(self).entry() is Loading)
                ==> final(self).current() == old(self).current()
                && final(self).entry() == old(self).entry(),
    {
        let same = match &self.key {
            Some(k) => str_eq(k.as_str(), path),
            None => false,
        };
        let loading = match &self.entry {
            PreviewState::Loading => true,
            _ => false,
        };
        if same && loading {
            self.entry = match outcome {
                Ok(lines) => PreviewState::Ready(lines),
                Err(reason) => PreviewState::Error(reason),
            };
        }
    }
}

} // verus!
