//! The settings handed to the speech engine with every buffer.

use vstd::prelude::*;
use vstd::string::*;

verus! {

/// Inference settings: greedy decoding, thread count, language hint and the
/// engine's console output switches. Built once per session and reused.
pub struct InferenceParameters {
    /// Candidates kept by greedy decoding.
    pub best_of: i32,
    pub threads: i32,
    /// Two-letter language code.
    pub language: String,
    pub print_special: bool,
    pub print_progress: bool,
    pub print_realtime: bool,
    pub print_timestamps: bool,
}

impl InferenceParameters {
    /// Greedy decoding of one candidate on one thread, Japanese, with all of
    /// the engine's own printing switched off.
    pub fn standard() -> (r: InferenceParameters)
        ensures
            r.best_of == 1,
            r.threads == 1,
            r.language@ == seq!['j', 'a'],
            !r.print_special,
            !r.print_progress,
            !r.print_realtime,
            !r.print_timestamps,
    {
        proof {
            reveal_strlit("ja");
        }
        InferenceParameters {
            best_of: 1,
            threads: 1,
            language: String::from_str("ja"),
            print_special: false,
            print_progress: false,
            print_realtime: false,
            print_timestamps: false,
        }
    }
}

} // verus!
