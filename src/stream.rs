use vstd::prelude::*;

use crate::errors::{Error, Result};
use crate::model::{created_handle, handle_from_native};

verus! {

/// Where a streaming session stands.
#[derive(Clone, Copy, Debug, PartialEq, Eq, Structural)]
pub enum StreamPhase {
    /// The native state exists and no audio has been fed yet.
    Created,
    /// Audio has been fed; intermediate decodes may be asked for.
    Feeding,
    /// The native state is gone: finished, or released without a result.
    Finished,
}

/// The operations a session offers, for stating what any sequence of them does.
#[derive(Clone, Copy, Debug, PartialEq, Eq, Structural)]
pub enum StreamOp {
    /// Feed audio samples.
    FeedAudio,
    /// Ask for an intermediate decode, with or without a buffer flush.
    IntermediateDecode,
    /// Ask for the final decode, which destroys the native state.
    Finish,
    /// Drop the session without a result.
    Release,
}

/// Whether the native state of a session in phase `p` still exists.
pub open spec fn is_live(p: StreamPhase) -> bool {
    p != StreamPhase::Finished
}

/// The phase after `op` in phase `p`; nothing leaves `Finished`.
pub open spec fn step(p: StreamPhase, op: StreamOp) -> StreamPhase {
    if !is_live(p) {
        StreamPhase::Finished
    } else {
        match op {
            StreamOp::FeedAudio => StreamPhase::Feeding,
            StreamOp::IntermediateDecode => p,
            StreamOp::Finish => StreamPhase::Finished,
            StreamOp::Release => StreamPhase::Finished,
        }
    }
}

/// Whether `op` in phase `p` hands the native state over to be destroyed.
pub open spec fn destroys(p: StreamPhase, op: StreamOp) -> bool {
    is_live(p) && (op == StreamOp::Finish || op == StreamOp::Release)
}

/// The phase after running `ops` from phase `p`.
pub open spec fn run(p: StreamPhase, ops: Seq<StreamOp>) -> StreamPhase
    decreases ops.len(),
{
    if ops.len() == 0 {
        p
    } else {
        run(step(p, ops[0]), ops.drop_first())
    }
}

/// How many of `ops`, run from phase `p`, hand the native state over to be destroyed.
pub open spec fn destructions(p: StreamPhase, ops: Seq<StreamOp>) -> nat
    decreases ops.len(),
{
    if ops.len() == 0 {
        0
    } else {
        (if destroys(p, ops[0]) {
            1nat
        } else {
            0nat
        }) + destructions(step(p, ops[0]), ops.drop_first())
    }
}

/// Nothing is destroyed once a session is finished.
proof fn finished_destroys_nothing(ops: Seq<StreamOp>)
    ensures
        destructions(StreamPhase::Finished, ops) == 0,
        run(StreamPhase::Finished, ops) == StreamPhase::Finished,
    decreases ops.len(),
{
    if ops.len() > 0 {
        finished_destroys_nothing(ops.drop_first());
    }
}

/// Whatever operations are run on a session, its native state is handed
/// over to be destroyed at most once, and never once it is finished.
pub proof fn destroyed_at_most_once(p: StreamPhase, ops: Seq<StreamOp>)
    ensures
        destructions(p, ops) <= 1,
        !is_live(p) ==> destructions(p, ops) == 0,
        destructions(p, ops) == 1 ==> run(p, ops) == StreamPhase::Finished,
    decreases ops.len(),
{
    if ops.len() > 0 {
        let q = step(p, ops[0]);
        destroyed_at_most_once(q, ops.drop_first());
        if destroys(p, ops[0]) || !is_live(p) {
            finished_destroys_nothing(ops.drop_first());
        }
    }
}

/// A live session that is fed and decoded any number of times (none at all
/// included) and then ended, by the final decode or by a drop without one,
/// has its native state destroyed exactly once, by that last operation.
pub proof fn ending_destroys_exactly_once(p: StreamPhase, ops: Seq<StreamOp>, last: StreamOp)
    requires
        is_live(p),
        last == StreamOp::Finish || last == StreamOp::Release,
        forall|i: int|
            0 <= i < ops.len() ==> ops[i] == StreamOp::FeedAudio || ops[i]
                == StreamOp::IntermediateDecode,
    ensures
        is_live(run(p, ops)),
        destructions(p, ops) == 0,
        destructions(p, ops.push(last)) == 1,
        run(p, ops.push(last)) == StreamPhase::Finished,
    decreases ops.len(),
{
    if ops.len() == 0 {
        let one = seq![last];
        assert(one.drop_first() =~= Seq::<StreamOp>::empty());
        assert(ops.push(last) =~= one);
        assert(destructions(StreamPhase::Finished, one.drop_first()) == 0);
        assert(run(StreamPhase::Finished, one.drop_first()) == StreamPhase::Finished);
    } else {
        let rest = ops.drop_first();
        assert(ops.push(last).drop_first() =~= rest.push(last));
        assert(ops.push(last)[0] == ops[0]);
        assert(ops[0] == StreamOp::FeedAudio || ops[0] == StreamOp::IntermediateDecode);
        assert(!destroys(p, ops[0]));
        assert forall|i: int| 0 <= i < rest.len() implies rest[i] == StreamOp::FeedAudio
            || rest[i] == StreamOp::IntermediateDecode by {
            assert(rest[i] == ops[i + 1]);
        }
        ending_destroys_exactly_once(step(p, ops[0]), rest, last);
    }
}

/// A streaming session: the address of its native state, the owner `M` that
/// keeps its model alive (a shared model, so that several sessions may run
/// over one model), and its phase.
///
/// The owner of this value makes the native calls with the addresses the
/// methods hand out, and only then: each method returns `None` once the
/// session is finished, so the native state is never touched after it is gone.
pub struct Stream<M> {
    model: M,
    state: usize,
    phase: StreamPhase,
}

impl<M> Stream<M> {
    /// The address of the native streaming state.
    pub closed spec fn handle(&self) -> usize {
        self.state
    }

    /// Where the session stands.
    pub closed spec fn phase(&self) -> StreamPhase {
        self.phase
    }

    /// The owner of the model this session runs over.
    pub closed spec fn owner(&self) -> M {
        self.model
    }

    /// Opens a session over `model` from what the native stream constructor
    /// handed back.
    pub fn from_native(model: M, retval: i32, state: usize) -> (r: Result<Stream<M>>)
        ensures
            r is Ok <==> created_handle(retval, state) is Ok,
            r matches Ok(s) ==> {
                &&& s.handle() == state
                &&& state != 0
                &&& s.phase() == StreamPhase::Created
                &&& s.owner() == model
            },
            r matches Err(e) ==> created_handle(retval, state) == Err::<usize, Error>(e),
    {
        match handle_from_native(retval, state) {
            Ok(h) => Ok(Stream { model, state: h, phase: StreamPhase::Created }),
            Err(e) => Err(e),
        }
    }

    /// Adopts a native streaming state created over `model`; the session has
    /// not been fed yet as far as this value knows.
    pub fn from_ptr(model: M, state: usize) -> (r: Stream<M>)
        requires
            state != 0,
        ensures
            r.handle() == state,
            r.phase() == StreamPhase::Created,
            r.owner() == model,
    {
        Stream { model, state, phase: StreamPhase::Created }
    }

    /// The owner of the model this session runs over.
    pub fn model(&self) -> (r: &M)
        ensures
            *r == self.owner(),
    {
        &self.model
    }

    /// Where the session stands.
    pub fn current_phase(&self) -> (r: StreamPhase)
        ensures
            r == self.phase(),
    {
        self.phase
    }

    /// The address to feed audio to, if the session is live.
    pub fn feed_handle(&mut self) -> (r: Option<usize>)
        ensures
            r == (if is_live(old(self).phase()) {
                Some(old(self).handle())
            } else {
                None::<usize>
            }),
            final(self).phase() == step(old(self).phase(), StreamOp::FeedAudio),
            final(self).handle() == old(self).handle(),
            final(self).owner() == old(self).owner(),
    {
        if self.phase == StreamPhase::Finished {
            None
        } else {
            self.phase = StreamPhase::Feeding;
            Some(self.state)
        }
    }

    /// The address to ask an intermediate decode of, if the session is live.
    pub fn decode_handle(&self) -> (r: Option<usize>)
        ensures
            r == (if is_live(self.phase()) {
                Some(self.handle())
            } else {
                None::<usize>
            }),
            step(self.phase(), StreamOp::IntermediateDecode) == self.phase(),
    {
        if self.phase == StreamPhase::Finished {
            None
        } else {
            Some(self.state)
        }
    }

    /// The address to ask the final decode of, if the session is live; the
    /// session is finished afterwards, as the final decode destroys the
    /// native state.
    pub fn finish_handle(&mut self) -> (r: Option<usize>)
        ensures
            r == (if destroys(old(self).phase(), StreamOp::Finish) {
                Some(old(self).handle())
            } else {
                None::<usize>
            }),
            final(self).phase() == step(old(self).phase(), StreamOp::Finish),
            final(self).handle() == old(self).handle(),
            final(self).owner() == old(self).owner(),
    {
        if self.phase == StreamPhase::Finished {
            None
        } else {
            self.phase = StreamPhase::Finished;
            Some(self.state)
        }
    }

    /// The address to free when the session is dropped, if it is still live;
    /// the session is finished afterwards.
    pub fn release(&mut self) -> (r: Option<usize>)
        ensures
            r == (if destroys(old(self).phase(), StreamOp::Release) {
                Some(old(self).handle())
            } else {
                None::<usize>
            }),
            final(self).phase() == step(old(self).phase(), StreamOp::Release),
            final(self).handle() == old(self).handle(),
            final(self).owner() == old(self).owner(),
    {
        if self.phase == StreamPhase::Finished {
            None
        } else {
            self.phase = StreamPhase::Finished;
            Some(self.state)
        }
    }

    /// Gives up the native streaming state, if the session is live: its
    /// release becomes the caller's task, and this value will not hand it
    /// out again.
    pub fn into_state(self) -> (r: Option<usize>)
        ensures
            r == (if is_live(self.phase()) {
                Some(self.handle())
            } else {
                None::<usize>
            }),
    {
        let mut s = self;
        s.release()
    }
}

} // verus!
