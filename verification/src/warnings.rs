//! Where the write-call's diagnostic warnings go.

use vstd::prelude::*;
use vstd::string::StringExecFns;

verus! {

/// A sink for diagnostic warnings. The write-call emits exactly one warning
/// when a submission is rejected as stale; a caller supplies the sink (an
/// in-memory log, an adapter to its logging facility) and so decides where
/// the record ends up.
pub trait WarningSink {
    /// The warnings emitted into this sink so far, oldest first.
    spec fn records(&self) -> Seq<Seq<char>>;

    /// Appends one warning to the sink.
    fn warn(&mut self, message: &str)
        ensures
            final(self).records() == old(self).records().push(message@),
    ;
}

/// The simplest sink: an in-memory log of the warnings.
pub struct WarningLog {
    /// The recorded warnings, oldest first.
    pub messages: Vec<String>,
}

impl WarningLog {
    /// An empty log.
    pub fn new() -> (r: WarningLog)
        ensures
            r.records() == Seq::<Seq<char>>::empty(),
    {
        let log = WarningLog { messages: Vec::new() };
        proof {
            assert(log.records() =~= Seq::<Seq<char>>::empty());
        }
        log
    }

    /// How many warnings the log holds.
    pub fn len(&self) -> (r: usize)
        ensures
            r == self.records().len(),
    {
        self.messages.len()
    }
}

impl WarningSink for WarningLog {
    open spec fn records(&self) -> Seq<Seq<char>> {
        self.messages@.map(|i: int, s: String| s@)
    }

    fn warn(&mut self, message: &str) {
        self.messages.push(String::from_str(message));
        proof {
            assert(self.records() =~= old(self).records().push(message@));
        }
    }
}

} // verus!
