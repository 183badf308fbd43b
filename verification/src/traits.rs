//! Capability traits that a chain implementation provides to the builder.
//!
//! Each trait pairs its executable methods with specification functions that
//! an implementation defines for itself. The builder's contracts are stated
//! over those functions, so a proof about a concrete chain can be carried
//! through a construction session.

use vstd::prelude::*;

verus! {

/// A committed unit of chain history.
pub trait Block {
    /// The name under which storage files a block.
    type Identifier;

    /// The identifier that names this block.
    fn id(&self) -> Self::Identifier;

    /// The identifier of the block this one was built on, if it has one.
    fn parent_id(&self) -> Option<Self::Identifier>;
}

/// Side data that storage keeps beside blocks, independent of execution state.
pub trait Auxiliary<B: Block> {
    /// The key under which the data is filed.
    type Key;

    /// The key of this piece of data.
    fn key(&self) -> Self::Key;

    /// The blocks this data belongs to.
    fn associated(&self) -> Vec<B::Identifier>;
}

/// Turns an owned state snapshot into the view an execution engine may mutate.
pub trait AsExternalities<E: ?Sized>: Sized {
    /// The view that this state exposes.
    spec fn externalities(&self) -> &E;

    /// This state with `view` in place of the view it exposes.
    spec fn with_externalities(&self, view: &E) -> Self;

    /// Lends the view out. Once the borrow has ended, the state is what it
    /// was but for the view, which is as the borrower left it.
    fn as_externalities(&mut self) -> (e: &mut E)
        ensures
            &*e == old(self).externalities(),
            final(self).externalities() == &*final(e),
            *final(self) == old(self).with_externalities(&*final(e)),
    ;
}

/// The state-transition function of a chain, in three phases: a block is
/// initialized on a parent, takes extrinsics one at a time, and is sealed.
///
/// Each phase comes with a predicate, named after it, in which an engine says
/// what the phase does: which outcomes it may have on given inputs. The
/// predicate is the engine's own to define, and a call of the phase promises
/// that it holds of what the call was given and what it left.
pub trait BuilderExecutor {
    type Error;

    type Block: Block;

    type BuildBlock;

    type Externalities: ?Sized;

    type Inherent;

    type Extrinsic;

    /// The extrinsics that an in-progress block has recorded, oldest first.
    spec fn recorded(block: &Self::BuildBlock) -> Seq<Self::Extrinsic>;

    /// Whether `initialize_block`, given `block`, `inherent` and the
    /// externalities `state`, may return `r` and leave the externalities as
    /// `left`.
    spec fn initialize_spec(
        &self,
        block: &Self::Block,
        inherent: &Self::Inherent,
        state: &Self::Externalities,
        r: &Result<Self::BuildBlock, Self::Error>,
        left: &Self::Externalities,
    ) -> bool;

    /// Whether `apply_extrinsic`, given `block`, `extrinsic` and the
    /// externalities `state`, may return `r` and leave the block as `applied`
    /// and the externalities as `left`.
    spec fn apply_spec(
        &self,
        block: &Self::BuildBlock,
        extrinsic: &Self::Extrinsic,
        state: &Self::Externalities,
        r: &Result<(), Self::Error>,
        applied: &Self::BuildBlock,
        left: &Self::Externalities,
    ) -> bool;

    /// Whether `finalize_block`, given `block` and the externalities `state`,
    /// may return `r` and leave the block as `closed` and the externalities as
    /// `left`.
    spec fn finalize_spec(
        &self,
        block: &Self::BuildBlock,
        state: &Self::Externalities,
        r: &Result<(), Self::Error>,
        closed: &Self::BuildBlock,
        left: &Self::Externalities,
    ) -> bool;

    /// Starts a block on top of `block`. A block that comes back has recorded
    /// nothing yet.
    fn initialize_block(
        &self,
        block: &Self::Block,
        state: &mut Self::Externalities,
        inherent: Self::Inherent,
    ) -> (r: Result<Self::BuildBlock, Self::Error>)
        ensures
            self.initialize_spec(block, &inherent, &*old(state), &r, &*final(state)),
            r matches Ok(b) ==> Self::recorded(&b) == Seq::<Self::Extrinsic>::empty(),
    ;

    /// Applies one extrinsic. On success the block has recorded it after all
    /// earlier ones. On failure nothing is promised of the block's record or
    /// of the externalities: a failed call need not undo what it did.
    fn apply_extrinsic(
        &self,
        block: &mut Self::BuildBlock,
        extrinsic: Self::Extrinsic,
        state: &mut Self::Externalities,
    ) -> (r: Result<(), Self::Error>)
        ensures
            self.apply_spec(
                old(block),
                &extrinsic,
                &*old(state),
                &r,
                final(block),
                &*final(state),
            ),
            r is Ok ==> Self::recorded(final(block)) == Self::recorded(old(block)).push(
                extrinsic,
            ),
    ;

    /// Seals the block, with whatever closing work the chain asks for. On
    /// success the block's record is the one it had.
    fn finalize_block(&self, block: &mut Self::BuildBlock, state: &mut Self::Externalities) -> (r:
        Result<(), Self::Error>)
        ensures
            self.finalize_spec(old(block), &*old(state), &r, final(block), &*final(state)),
            r is Ok ==> Self::recorded(final(block)) == Self::recorded(old(block)),
    ;
}

/// Read access to committed blocks and to the state as of each of them.
///
/// As with the engine, each lookup comes with a predicate in which storage
/// says what the lookup may return: under which identifiers it finds a block
/// or a state, which ones, and how it may fail.
pub trait Backend: Sized {
    type Block: Block;

    type State;

    type Auxiliary;

    type Error;

    /// Whether a lookup of the block committed under `id` may return `r`.
    spec fn block_at_spec(
        &self,
        id: &<Self::Block as Block>::Identifier,
        r: &Result<Self::Block, Self::Error>,
    ) -> bool;

    /// Whether a lookup of the state that the block committed under `id` left
    /// may return `r`.
    spec fn state_at_spec(
        &self,
        id: &<Self::Block as Block>::Identifier,
        r: &Result<Self::State, Self::Error>,
    ) -> bool;

    /// Looks up the block committed under `id`.
    fn block_at(&self, id: &<Self::Block as Block>::Identifier) -> (r: Result<
        Self::Block,
        Self::Error,
    >)
        ensures
            self.block_at_spec(id, &r),
    ;

    /// Looks up the state that the block committed under `id` left.
    fn state_at(&self, id: &<Self::Block as Block>::Identifier) -> (r: Result<
        Self::State,
        Self::Error,
    >)
        ensures
            self.state_at_spec(id, &r),
    ;
}

/// Questions about committed history.
pub trait ChainQuery: Backend {
    /// The identifier of the best block.
    fn head(&self) -> <Self::Block as Block>::Identifier;

    /// Whether a block is committed under `id`.
    fn contains(&self, id: &<Self::Block as Block>::Identifier) -> Result<bool, Self::Error>;

    /// How many blocks lie between the first block and the one committed
    /// under `id`.
    fn depth_at(&self, id: &<Self::Block as Block>::Identifier) -> Result<usize, Self::Error>;
}

} // verus!
