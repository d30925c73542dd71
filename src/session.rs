//! The engine session: the one speech engine of a process, loaded on first use.

use vstd::prelude::*;
use crate::audio::PipelineError;

verus! {

/// Where a session stands with its engine.
pub enum EngineState<E> {
    /// No load has been tried yet.
    Unloaded,
    /// The engine was loaded and is held here.
    Ready(E),
    /// The load failed; it is never tried again.
    Failed,
}

/// Holder of the engine. The first `get_or_init` runs the loader; every later
/// call reuses its outcome. Shared between callbacks behind one lock, so that
/// inference on the engine, which needs `&mut`, never runs twice at once.
pub struct EngineSession<E> {
    state: EngineState<E>,
    loads: u64,
}

impl<E> EngineSession<E> {
    pub closed spec fn phase(&self) -> EngineState<E> {
        self.state
    }

    /// How many times a loader has run on this session.
    pub closed spec fn loads(&self) -> nat {
        self.loads as nat
    }

    pub open spec fn wf(&self) -> bool {
        self.loads() == (if self.phase() is Unloaded { 0nat } else { 1nat })
    }

    /// What one `get_or_init` call does to a session: afterwards the loader
    /// has run exactly once in all, and a session that had already tried its
    /// load is left as it was.
    pub open spec fn init_step(pre: Self, post: Self) -> bool {
        &&& post.wf()
        &&& post.loads() == 1
        &&& !(pre.phase() is Unloaded) ==> post == pre
    }

    pub fn new() -> (r: Self)
        ensures
            r.wf(),
            r.phase() is Unloaded,
    {
        EngineSession { state: EngineState::Unloaded, loads: 0 }
    }

    /// Loads the engine with `load` on the first call, and reports whether an
    /// engine is held. A failed load is final: later calls fail at once.
    pub fn get_or_init<F: FnOnce() -> Option<E>>(&mut self, load: F) -> (r: Result<(), PipelineError>)
        requires
            old(self).wf(),
            old(self).phase() is Unloaded ==> call_requires(load, ()),
        ensures
            Self::init_step(*old(self), *final(self)),
            old(self).phase() is Unloaded ==> exists|o: Option<E>|
                call_ensures(load, (), o) && match o {
                    Some(e) => final(self).phase() == EngineState::Ready(e),
                    None => final(self).phase() is Failed,
                },
            r is Ok <==> final(self).phase() is Ready,
            r is Err ==> r == Err::<(), PipelineError>(PipelineError::ModelUnavailable),
    {
        match self.state {
            EngineState::Unloaded => {
                let outcome = load();
                self.loads = 1;
                match outcome {
                    Some(e) => {
                        self.state = EngineState::Ready(e);
                        Ok(())
                    },
                    None => {
                        self.state = EngineState::Failed;
                        Err(PipelineError::ModelUnavailable)
                    },
                }
            },
            EngineState::Ready(_) => Ok(()),
            EngineState::Failed => Err(PipelineError::ModelUnavailable),
        }
    }

    pub fn is_ready(&self) -> (r: bool)
        ensures
            r <==> self.phase() is Ready,
    {
        match self.state {
            EngineState::Ready(_) => true,
            _ => false,
        }
    }

    pub fn has_failed(&self) -> (r: bool)
        ensures
            r <==> self.phase() is Failed,
    {
        match self.state {
            EngineState::Failed => true,
            _ => false,
        }
    }

    pub fn load_count(&self) -> (r: u64)
        ensures
            r as nat == self.loads(),
    {
        self.loads
    }

    /// Exclusive access to the loaded engine.
    pub fn engine_mut(&mut self) -> (r: &mut E)
        requires
            old(self).phase() is Ready,
        ensures
            old(self).phase() == EngineState::Ready(*r),
            final(self).phase() == EngineState::Ready(*final(r)),
            final(self).loads() == old(self).loads(),
    {
        match &mut self.state {
            EngineState::Ready(e) => e,
            _ => unreached(),
        }
    }

    /// Successive `get_or_init` calls on a fresh session load the engine
    /// exactly once: after each of them one load has run, and every call
    /// after the first leaves the session as the first one left it.
    pub proof fn lemma_loaded_once(runs: Seq<Self>)
        requires
            runs.len() >= 2,
            runs[0].wf(),
            runs[0].phase() is Unloaded,
            forall|i: int| 0 <= i < runs.len() - 1 ==> Self::init_step(#[trigger] runs[i], runs[i + 1]),
        ensures
            forall|i: int| 1 <= i < runs.len() ==> #[trigger] runs[i].loads() == 1 && runs[i] == runs[1],
    {
        assert forall|i: int| 1 <= i < runs.len() implies #[trigger] runs[i].loads() == 1 && runs[i] == runs[1] by {
            Self::lemma_stays(runs, i);
        }
    }

    proof fn lemma_stays(runs: Seq<Self>, i: int)
        requires
            runs.len() >= 2,
            1 <= i < runs.len(),
            forall|k: int| 0 <= k < runs.len() - 1 ==> Self::init_step(#[trigger] runs[k], runs[k + 1]),
        ensures
            runs[i].loads() == 1,
            runs[i] == runs[1],
        decreases i,
    {
        assert(Self::init_step(runs[i - 1], runs[i]));
        if i > 1 {
            Self::lemma_stays(runs, i - 1);
            assert(Self::init_step(runs[i - 2], runs[i - 1]));
            assert(!(runs[i - 1].phase() is Unloaded));
        }
    }
}

} // verus!
