//! One block-construction session on top of a chosen parent.
//!
//! A session is opened with [`BlockBuilder::new`], takes extrinsics one at a
//! time through [`BlockBuilder::apply_extrinsic`] and ends when
//! [`BlockBuilder::finalize`] gives the block and its state away. The builder
//! itself decides nothing about blocks or state: it hands the engine what
//! storage produced, keeps what the engine left, and files failures by origin.

use vstd::prelude::*;
use crate::chain::Error;
use crate::chain::SharedBackend;
use crate::traits::AsExternalities;
use crate::traits::Auxiliary;
use crate::traits::Backend;
use crate::traits::Block;
use crate::traits::BuilderExecutor;
use crate::traits::ChainQuery;

verus! {

/// Block builder.
pub struct BlockBuilder<'a, E: BuilderExecutor, Ba: Backend> {
    executor: &'a E,
    pending_block: E::BuildBlock,
    pending_state: Ba::State,
}

impl<'a, E: BuilderExecutor, Ba> BlockBuilder<'a, E, Ba> where
    Ba: Backend<Block = E::Block> + ChainQuery,
    <Ba as Backend>::Auxiliary: Auxiliary<E::Block>,
    <Ba as Backend>::State: AsExternalities<E::Externalities>,
 {
    /// The engine that this session drives.
    pub closed spec fn executor(&self) -> &'a E {
        self.executor
    }

    /// The block under construction.
    pub closed spec fn pending_block(&self) -> E::BuildBlock {
        self.pending_block
    }

    /// The state that the block under construction has been executed on.
    pub closed spec fn pending_state(&self) -> Ba::State {
        self.pending_state
    }

    /// The extrinsics that the block under construction has recorded.
    pub open spec fn recorded(&self) -> Seq<E::Extrinsic> {
        E::recorded(&self.pending_block())
    }

    /// Whether storage may produce a block for `id`.
    pub open spec fn knows_block(backend: &Ba, id: &<E::Block as Block>::Identifier) -> bool {
        exists|block: E::Block| backend.block_at_spec(id, &Ok(block))
    }

    /// Whether storage may produce a state for `id`.
    pub open spec fn knows_state(backend: &Ba, id: &<E::Block as Block>::Identifier) -> bool {
        exists|state: Ba::State| backend.state_at_spec(id, &Ok(state))
    }

    /// Whether looking up the parent and then its state may end in the
    /// failure `e`.
    pub open spec fn is_missed(
        backend: &Ba,
        parent_hash: &<E::Block as Block>::Identifier,
        e: Ba::Error,
    ) -> bool {
        ||| backend.block_at_spec(parent_hash, &Err(e))
        ||| Self::knows_block(backend, parent_hash) && backend.state_at_spec(
            parent_hash,
            &Err(e),
        )
    }

    /// Whether the engine, set to initialize a block on a parent and a state
    /// that storage may produce for `parent_hash`, may answer `first` and leave
    /// the state as `left`.
    pub open spec fn is_started(
        backend: &Ba,
        executor: &'a E,
        parent_hash: &<E::Block as Block>::Identifier,
        inherent: E::Inherent,
        first: Result<E::BuildBlock, E::Error>,
        left: Ba::State,
    ) -> bool {
        exists|parent: E::Block, state: Ba::State|
            #![trigger
                backend.block_at_spec(parent_hash, &Ok(parent)),
                backend.state_at_spec(parent_hash, &Ok(state)),
            ]
            {
                &&& backend.block_at_spec(parent_hash, &Ok(parent))
                &&& backend.state_at_spec(parent_hash, &Ok(state))
                &&& executor.initialize_spec(
                    &parent,
                    &inherent,
                    state.externalities(),
                    &first,
                    left.externalities(),
                )
                &&& left == state.with_externalities(left.externalities())
            }
    }

    /// Whether the engine, set to seal this session's block, may answer `last`
    /// and leave the block as `block` and the state as `state`.
    pub open spec fn seals_to(
        &self,
        last: Result<(), E::Error>,
        block: E::BuildBlock,
        state: Ba::State,
    ) -> bool {
        &&& self.executor().finalize_spec(
            &self.pending_block(),
            self.pending_state().externalities(),
            &last,
            &block,
            state.externalities(),
        )
        &&& state == self.pending_state().with_externalities(state.externalities())
    }

    /// Whether `r` is what `new` may return: a session on the block that the
    /// engine initialized on the parent and its state, or the engine's error,
    /// or the failure of a lookup.
    pub open spec fn is_new(
        backend: &Ba,
        executor: &'a E,
        parent_hash: &<E::Block as Block>::Identifier,
        inherent: E::Inherent,
        r: Result<Self, Error<Ba::Error, E::Error>>,
    ) -> bool {
        match r {
            Ok(s) => {
                &&& Self::is_started(
                    backend,
                    executor,
                    parent_hash,
                    inherent,
                    Ok(s.pending_block()),
                    s.pending_state(),
                )
                &&& s.executor() == executor
                &&& s.recorded() == Seq::<E::Extrinsic>::empty()
            },
            Err(Error::Executor(e)) => exists|left: Ba::State|
                Self::is_started(backend, executor, parent_hash, inherent, Err(e), left),
            Err(Error::Backend(e)) => Self::is_missed(backend, parent_hash, e),
        }
    }

    /// Whether applying `extrinsic` to this session may leave it as `after`
    /// and return `r`: the engine's answer on the session's block and state,
    /// with both as the engine left them.
    pub open spec fn is_applied(
        &self,
        extrinsic: E::Extrinsic,
        after: &Self,
        r: Result<(), Error<Ba::Error, E::Error>>,
    ) -> bool {
        &&& Error::<Ba::Error, E::Error>::executor_outcome(r) matches Some(outcome)
        &&& self.executor().apply_spec(
            &self.pending_block(),
            &extrinsic,
            self.pending_state().externalities(),
            &outcome,
            &after.pending_block(),
            after.pending_state().externalities(),
        )
        &&& after.pending_state() == self.pending_state().with_externalities(
            after.pending_state().externalities(),
        )
        &&& after.executor() == self.executor()
        &&& r is Ok ==> after.recorded() == self.recorded().push(extrinsic)
    }

    /// Whether `r` is what finalizing this session may return: the block and
    /// state as the engine left them when it sealed the block, with the record
    /// that the block had, or the engine's error.
    pub open spec fn is_finalized(
        &self,
        r: Result<(E::BuildBlock, Ba::State), Error<Ba::Error, E::Error>>,
    ) -> bool {
        match r {
            Ok((block, state)) => {
                &&& self.seals_to(Ok(()), block, state)
                &&& E::recorded(&block) == self.recorded()
            },
            Err(Error::Executor(e)) => exists|block: E::BuildBlock, state: Ba::State|
                self.seals_to(Err(e), block, state),
            Err(Error::Backend(_)) => false,
        }
    }

    /// Whether the engine may build an empty block on the parent committed
    /// under `parent_hash`: initialize a block on it and seal that block as it
    /// stands.
    pub open spec fn may_build_empty(
        backend: &Ba,
        executor: &'a E,
        parent_hash: &<E::Block as Block>::Identifier,
        inherent: E::Inherent,
    ) -> bool {
        exists|block: E::BuildBlock, state: Ba::State, closed: E::BuildBlock, end: Ba::State|
            {
                &&& #[trigger] Self::is_started(
                    backend,
                    executor,
                    parent_hash,
                    inherent,
                    Ok(block),
                    state,
                )
                &&& #[trigger] executor.finalize_spec(
                    &block,
                    state.externalities(),
                    &Ok(()),
                    &closed,
                    end.externalities(),
                )
            }
    }

    /// Whether the engine may fail to build an empty block on the parent
    /// committed under `parent_hash`: reject the inherent, or initialize a
    /// block and then refuse to seal it.
    pub open spec fn may_refuse_empty(
        backend: &Ba,
        executor: &'a E,
        parent_hash: &<E::Block as Block>::Identifier,
        inherent: E::Inherent,
    ) -> bool {
        ||| exists|e: E::Error, left: Ba::State|
            Self::is_started(backend, executor, parent_hash, inherent, Err(e), left)
        ||| exists|
            block: E::BuildBlock,
            state: Ba::State,
            e: E::Error,
            closed: E::BuildBlock,
            end: Ba::State,
        |
            {
                &&& #[trigger] Self::is_started(
                    backend,
                    executor,
                    parent_hash,
                    inherent,
                    Ok(block),
                    state,
                )
                &&& #[trigger] executor.finalize_spec(
                    &block,
                    state.externalities(),
                    &Err(e),
                    &closed,
                    end.externalities(),
                )
            }
    }

    /// Those of `extrinsics` whose application succeeded, in the order given;
    /// `results` holds what applying each of them returned.
    pub open spec fn accepted(
        extrinsics: Seq<E::Extrinsic>,
        results: Seq<Result<(), Error<Ba::Error, E::Error>>>,
    ) -> Seq<E::Extrinsic>
        decreases extrinsics.len(),
    {
        if extrinsics.len() == 0 {
            Seq::empty()
        } else {
            let earlier = Self::accepted(extrinsics.drop_last(), results.drop_last());
            if results.last() is Ok {
                earlier.push(extrinsics.last())
            } else {
                earlier
            }
        }
    }

    /// Create a new block builder.
    ///
    /// Looks the parent block and its state up, then has the engine initialize
    /// a block on them. A failed lookup comes back as `Error::Backend`, and no
    /// identifier that storage does not know gets any further. What the engine
    /// returns decides the rest: its block opens the session, its error comes
    /// back as `Error::Executor`.
    pub fn new(
        backend: &SharedBackend<Ba>,
        executor: &'a E,
        parent_hash: &<E::Block as Block>::Identifier,
        inherent: E::Inherent,
    ) -> (r: Result<Self, Error<Ba::Error, E::Error>>)
        ensures
            !Self::knows_block(&backend@, parent_hash) ==> r matches Err(Error::Backend(_)),
            !Self::knows_state(&backend@, parent_hash) ==> r matches Err(Error::Backend(_)),
            Self::is_new(&backend@, executor, parent_hash, inherent, r),
    {
        let parent_block = match Error::from_backend(backend.read().block_at(parent_hash)) {
            Ok(b) => b,
            Err(e) => {
                return Err(e);
            },
        };
        let mut pending_state = match Error::from_backend(backend.read().state_at(parent_hash)) {
            Ok(s) => s,
            Err(e) => {
                return Err(e);
            },
        };
        let initialized = executor.initialize_block(
            &parent_block,
            pending_state.as_externalities(),
            inherent,
        );
        let r = match Error::from_executor(initialized) {
            Ok(pending_block) => Ok(BlockBuilder { executor, pending_block, pending_state }),
            Err(e) => Err(e),
        };
        assert(match r {
            Err(Error::Executor(e)) => Self::is_started(
                &backend@,
                executor,
                parent_hash,
                inherent,
                Err(e),
                pending_state,
            ),
            _ => true,
        });
        r
    }

    /// Apply extrinsic to the block builder.
    ///
    /// The engine applies it to the session's block and state in place, and
    /// its error comes back as `Error::Executor`. The session stays usable
    /// either way.
    pub fn apply_extrinsic(&mut self, extrinsic: E::Extrinsic) -> (r: Result<
        (),
        Error<Ba::Error, E::Error>,
    >)
        ensures
            old(self).is_applied(extrinsic, final(self), r),
    {
        let applied = self.executor.apply_extrinsic(
            &mut self.pending_block,
            extrinsic,
            self.pending_state.as_externalities(),
        );
        Error::from_executor(applied)
    }

    /// Finalize the block.
    ///
    /// The session ends here whatever the engine returns: on success the
    /// block and its state go to the caller as the engine left them, on
    /// failure both are dropped and the engine's error comes back as
    /// `Error::Executor`.
    pub fn finalize(self) -> (r: Result<(E::BuildBlock, Ba::State), Error<Ba::Error, E::Error>>)
        ensures
            self.is_finalized(r),
    {
        let BlockBuilder { executor, mut pending_block, mut pending_state } = self;
        let sealed = executor.finalize_block(&mut pending_block, pending_state.as_externalities());
        let r = match Error::from_executor(sealed) {
            Ok(()) => Ok((pending_block, pending_state)),
            Err(e) => Err(e),
        };
        assert(match r {
            Err(Error::Executor(e)) => self.seals_to(Err(e), pending_block, pending_state),
            _ => true,
        });
        r
    }

    /// A session that is finalized as soon as it is opened succeeds only
    /// where the engine may initialize a block on the parent's state and seal
    /// it as it stands, and fails only where the engine may fail at one of the
    /// two, provided storage produced the parent. So with an engine that
    /// cannot do both on one parent, the session succeeds exactly when both of
    /// the engine's steps do.
    pub proof fn lemma_empty_block(
        backend: &Ba,
        executor: &'a E,
        parent_hash: &<E::Block as Block>::Identifier,
        inherent: E::Inherent,
        opened: Result<Self, Error<Ba::Error, E::Error>>,
        closed: Result<(E::BuildBlock, Ba::State), Error<Ba::Error, E::Error>>,
    )
        requires
            Self::is_new(backend, executor, parent_hash, inherent, opened),
            !(opened matches Err(Error::Backend(_))),
            opened matches Ok(s) ==> s.is_finalized(closed),
        ensures
            Self::knows_block(backend, parent_hash),
            Self::knows_state(backend, parent_hash),
            ({
                let built = opened is Ok && closed is Ok;
                let may_build = Self::may_build_empty(backend, executor, parent_hash, inherent);
                let may_refuse = Self::may_refuse_empty(backend, executor, parent_hash, inherent);
                &&& built ==> may_build
                &&& !built ==> may_refuse
                &&& !(may_build && may_refuse) ==> (built <==> may_build)
            }),
    {
    }

    /// Where storage produces the parent, an inherent on which the engine
    /// cannot initialize a block ends `new` with the engine's error, and no
    /// session.
    pub proof fn lemma_rejected_inherent(
        backend: &Ba,
        executor: &'a E,
        parent_hash: &<E::Block as Block>::Identifier,
        inherent: E::Inherent,
        opened: Result<Self, Error<Ba::Error, E::Error>>,
    )
        requires
            Self::is_new(backend, executor, parent_hash, inherent, opened),
            !(opened matches Err(Error::Backend(_))),
            forall|block: E::BuildBlock, left: Ba::State|
                !Self::is_started(backend, executor, parent_hash, inherent, Ok(block), left),
        ensures
            opened matches Err(Error::Executor(e)) && exists|left: Ba::State|
                Self::is_started(backend, executor, parent_hash, inherent, Err(e), left),
    {
    }

    /// Extrinsics that are applied one after another, each with success, are
    /// recorded behind what the block held before, in the order in which they
    /// were applied. So a fresh session's block records exactly them, and the
    /// same extrinsics given in another order are recorded in that other order.
    /// `sessions` holds the session before the first of them and after each.
    pub proof fn lemma_recorded_in_order(sessions: Seq<Self>, extrinsics: Seq<E::Extrinsic>)
        requires
            sessions.len() == extrinsics.len() + 1,
            forall|i: int|
                0 <= i < extrinsics.len() ==> #[trigger] sessions[i].is_applied(
                    extrinsics[i],
                    &sessions[i + 1],
                    Ok(()),
                ),
        ensures
            sessions.last().recorded() == sessions[0].recorded() + extrinsics,
            sessions[0].recorded().len() == 0 ==> sessions.last().recorded() == extrinsics,
        decreases extrinsics.len(),
    {
        if extrinsics.len() == 0 {
            assert(sessions.last().recorded() =~= sessions[0].recorded() + extrinsics);
        } else {
            let n = extrinsics.len() as int;
            Self::lemma_recorded_in_order(sessions.drop_last(), extrinsics.drop_last());
            assert(sessions[n - 1].is_applied(extrinsics[n - 1], &sessions[n], Ok(())));
            assert(sessions.drop_last().last() == sessions[n - 1]);
            assert(sessions.last().recorded() =~= sessions[0].recorded() + extrinsics);
        }
    }

    /// A run in which the engine refuses some extrinsics. An engine need not
    /// leave a block's record alone when it refuses; with one that does, the
    /// block records the extrinsics that were accepted, in the order in which
    /// they were applied, and none of the refused ones. `sessions` holds the
    /// session before the first application and after each, `results` what
    /// each application returned.
    pub proof fn lemma_recorded_among_refusals(
        sessions: Seq<Self>,
        extrinsics: Seq<E::Extrinsic>,
        results: Seq<Result<(), Error<Ba::Error, E::Error>>>,
    )
        requires
            sessions.len() == extrinsics.len() + 1,
            results.len() == extrinsics.len(),
            forall|i: int|
                0 <= i < extrinsics.len() ==> #[trigger] sessions[i].is_applied(
                    extrinsics[i],
                    &sessions[i + 1],
                    results[i],
                ),
            forall|i: int|
                0 <= i < extrinsics.len() && #[trigger] results[i] is Err ==> sessions[i
                    + 1].recorded() == sessions[i].recorded(),
        ensures
            sessions.last().recorded() == sessions[0].recorded() + Self::accepted(
                extrinsics,
                results,
            ),
        decreases extrinsics.len(),
    {
        if extrinsics.len() == 0 {
            assert(sessions.last().recorded() =~= sessions[0].recorded() + Self::accepted(
                extrinsics,
                results,
            ));
        } else {
            let n = extrinsics.len() as int;
            Self::lemma_recorded_among_refusals(
                sessions.drop_last(),
                extrinsics.drop_last(),
                results.drop_last(),
            );
            assert(sessions[n - 1].is_applied(extrinsics[n - 1], &sessions[n], results[n - 1]));
            assert(sessions.drop_last().last() == sessions[n - 1]);
            assert(sessions.last().recorded() =~= sessions[0].recorded() + Self::accepted(
                extrinsics,
                results,
            ));
        }
    }
}

} // verus!
