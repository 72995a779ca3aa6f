use vstd::prelude::*;

verus! {

/// What one keypress did to a partially matched chord.
#[derive(Clone, Copy, Debug, PartialEq, Eq, Structural)]
pub enum MultiKeyResult {
    /// The symbol finished the whole chord.
    Completed,
    /// The symbol extended (or restarted) a partial match.
    Accepted,
    /// The symbol matched nothing; the partial match is discarded.
    Rejected,
}

/// The abstract state of a chord matcher: the expected key sequence and how
/// many consecutive symbols of it have been matched so far.
pub ghost struct MultiKeyView {
    pub keys: Seq<char>,
    pub progress: int,
}

impl MultiKeyView {
    pub open spec fn wf(self) -> bool {
        &&& 1 <= self.keys.len()
        &&& 0 <= self.progress < self.keys.len()
    }
}

/// How one symbol advances a chord: the new progress count and the verdict.
///
/// A symbol that matches the next expected key advances the match, completing
/// it when it was the last key. A mismatching symbol that equals the first
/// key restarts the chord as a fresh one-symbol match; any other mismatch
/// resets the progress to zero.
pub open spec fn chord_step(keys: Seq<char>, progress: int, symbol: char) -> (int, MultiKeyResult)
    recommends
        1 <= keys.len(),
        0 <= progress < keys.len(),
{
    if symbol == keys[progress] {
        if progress + 1 == keys.len() {
            (0int, MultiKeyResult::Completed)
        } else {
            (progress + 1, MultiKeyResult::Accepted)
        }
    } else if symbol == keys[0] {
        (1int, MultiKeyResult::Accepted)
    } else {
        (0int, MultiKeyResult::Rejected)
    }
}

/// Detects an ordered multi-keypress shortcut, such as a double tap. A
/// partial match persists until it is completed or broken; there is no
/// timeout.
pub struct MultiKey {
    sequence: Vec<char>,
    progress: usize,
}

impl View for MultiKey {
    type V = MultiKeyView;

    closed spec fn view(&self) -> MultiKeyView {
        MultiKeyView { keys: self.sequence@, progress: self.progress as int }
    }
}

impl MultiKey {
    /// Creates a matcher for the given non-empty key sequence, with no
    /// progress yet.
    pub fn register(sequence: Vec<char>) -> (r: Self)
        requires
            1 <= sequence@.len(),
        ensures
            r@.keys == sequence@,
            r@.progress == 0,
            r@.wf(),
    {
        MultiKey { sequence, progress: 0 }
    }

    /// Feeds one symbol into the matcher; the state advances exactly as
    /// `chord_step` says.
    pub fn input(&mut self, symbol: char) -> (r: MultiKeyResult)
        requires
            old(self)@.wf(),
        ensures
            final(self)@.wf(),
            final(self)@.keys == old(self)@.keys,
            final(self)@.progress == chord_step(old(self)@.keys, old(self)@.progress, symbol).0,
            r == chord_step(old(self)@.keys, old(self)@.progress, symbol).1,
    {
        let len: usize = self.sequence.len();
        if symbol == self.sequence[self.progress] {
            self.progress = self.progress + 1;
            if self.progress == len {
                self.progress = 0;
                MultiKeyResult::Completed
            } else {
                MultiKeyResult::Accepted
            }
        } else if symbol == self.sequence[0] {
            self.progress = 1;
            MultiKeyResult::Accepted
        } else {
            self.progress = 0;
            MultiKeyResult::Rejected
        }
    }
}

} // verus!
