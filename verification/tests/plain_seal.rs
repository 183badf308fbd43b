//! An engine that seals a block by accepting it as it stands: the block that
//! comes out of a session is the very block the session held.

use blockchain::chain::{BlockBuilder, Error, SharedBackend};
use blockchain::traits::{
    AsExternalities, Auxiliary, Backend, Block, BuilderExecutor, ChainQuery,
};

#[derive(Clone, Debug, PartialEq)]
struct Root;

impl Block for Root {
    type Identifier = u8;

    fn id(&self) -> u8 {
        0
    }

    fn parent_id(&self) -> Option<u8> {
        None
    }
}

/// What is left to spend. The state is its own view.
#[derive(Clone, Debug, PartialEq)]
struct Funds(u32);

impl AsExternalities<Funds> for Funds {
    // Ghost items exist for proofs and are never executed.
    fn externalities(&self) -> &Funds {
        unreachable!()
    }

    fn with_externalities(&self, _view: &Funds) -> Funds {
        unreachable!()
    }

    fn as_externalities(&mut self) -> &mut Funds {
        self
    }
}

#[derive(Clone, Debug, PartialEq)]
struct Memo;

impl Auxiliary<Root> for Memo {
    type Key = u8;

    fn key(&self) -> u8 {
        0
    }

    fn associated(&self) -> Vec<u8> {
        vec![0]
    }
}

#[derive(Debug, PartialEq)]
struct Absent;

/// Holds block 0 alone, with ten to spend.
struct OneBlock;

impl Backend for OneBlock {
    type Block = Root;
    type State = Funds;
    type Auxiliary = Memo;
    type Error = Absent;

    // Ghost items exist for proofs and are never executed.
    fn block_at_spec(&self, _id: &u8, _r: &Result<Root, Absent>) -> bool {
        unreachable!()
    }

    fn state_at_spec(&self, _id: &u8, _r: &Result<Funds, Absent>) -> bool {
        unreachable!()
    }

    fn block_at(&self, id: &u8) -> Result<Root, Absent> {
        if *id == 0 {
            Ok(Root)
        } else {
            Err(Absent)
        }
    }

    fn state_at(&self, id: &u8) -> Result<Funds, Absent> {
        if *id == 0 {
            Ok(Funds(10))
        } else {
            Err(Absent)
        }
    }
}

impl ChainQuery for OneBlock {
    fn head(&self) -> u8 {
        0
    }

    fn contains(&self, id: &u8) -> Result<bool, Absent> {
        Ok(*id == 0)
    }

    fn depth_at(&self, id: &u8) -> Result<usize, Absent> {
        if *id == 0 {
            Ok(0)
        } else {
            Err(Absent)
        }
    }
}

#[derive(Debug, PartialEq)]
enum Refusal {
    BadInherent,
    Invalid,
}

/// A block is the list of amounts spent. Sealing changes nothing.
struct Spender;

impl BuilderExecutor for Spender {
    type Error = Refusal;
    type Block = Root;
    type BuildBlock = Vec<u32>;
    type Externalities = Funds;
    type Inherent = bool;
    type Extrinsic = u32;

    // Ghost items exist for proofs and are never executed.
    fn recorded(_block: &Vec<u32>) -> vstd::seq::Seq<u32> {
        unreachable!()
    }

    fn initialize_spec(
        &self,
        _block: &Root,
        _inherent: &bool,
        _state: &Funds,
        _r: &Result<Vec<u32>, Refusal>,
        _left: &Funds,
    ) -> bool {
        unreachable!()
    }

    fn apply_spec(
        &self,
        _block: &Vec<u32>,
        _extrinsic: &u32,
        _state: &Funds,
        _r: &Result<(), Refusal>,
        _applied: &Vec<u32>,
        _left: &Funds,
    ) -> bool {
        unreachable!()
    }

    fn finalize_spec(
        &self,
        _block: &Vec<u32>,
        _state: &Funds,
        _r: &Result<(), Refusal>,
        _closed: &Vec<u32>,
        _left: &Funds,
    ) -> bool {
        unreachable!()
    }

    fn initialize_block(
        &self,
        _block: &Root,
        _state: &mut Funds,
        inherent: bool,
    ) -> Result<Vec<u32>, Refusal> {
        if inherent {
            Ok(Vec::new())
        } else {
            Err(Refusal::BadInherent)
        }
    }

    fn apply_extrinsic(
        &self,
        block: &mut Vec<u32>,
        extrinsic: u32,
        state: &mut Funds,
    ) -> Result<(), Refusal> {
        if extrinsic > state.0 {
            return Err(Refusal::Invalid);
        }
        state.0 -= extrinsic;
        block.push(extrinsic);
        Ok(())
    }

    fn finalize_block(&self, _block: &mut Vec<u32>, _state: &mut Funds) -> Result<(), Refusal> {
        Ok(())
    }
}

fn open<'a>(
    backend: &SharedBackend<OneBlock>,
    engine: &'a Spender,
) -> BlockBuilder<'a, Spender, OneBlock> {
    match BlockBuilder::new(backend, engine, &0u8, true) {
        Ok(session) => session,
        Err(e) => panic!("no session: {:?}", e),
    }
}

#[test]
fn untouched_session_returns_the_empty_block_and_the_parent_state() {
    let backend = SharedBackend::new(OneBlock);
    let engine = Spender;
    let session = open(&backend, &engine);
    match session.finalize() {
        Ok(pair) => assert_eq!(pair, (Vec::<u32>::new(), Funds(10))),
        Err(e) => panic!("not finalized: {:?}", e),
    }
}

#[test]
fn block_holds_the_accepted_extrinsic_and_not_the_refused_one() {
    let backend = SharedBackend::new(OneBlock);
    let engine = Spender;
    let mut session = open(&backend, &engine);
    assert!(matches!(session.apply_extrinsic(7), Ok(())));
    assert!(matches!(session.apply_extrinsic(9), Err(Error::Executor(Refusal::Invalid))));
    match session.finalize() {
        Ok(pair) => assert_eq!(pair, (vec![7u32], Funds(3))),
        Err(e) => panic!("not finalized: {:?}", e),
    }
}

#[test]
fn session_sees_nothing_of_another_on_the_same_parent() {
    let backend = SharedBackend::new(OneBlock);
    let engine = Spender;
    let mut busy = open(&backend, &engine);
    let idle = open(&backend, &engine);
    assert!(matches!(busy.apply_extrinsic(7), Ok(())));
    match idle.finalize() {
        Ok(pair) => assert_eq!(pair, (Vec::<u32>::new(), Funds(10))),
        Err(e) => panic!("not finalized: {:?}", e),
    }
    match busy.finalize() {
        Ok(pair) => assert_eq!(pair, (vec![7u32], Funds(3))),
        Err(e) => panic!("not finalized: {:?}", e),
    }
}

#[test]
fn refused_inherent_opens_no_session_here_either() {
    let backend = SharedBackend::new(OneBlock);
    let engine = Spender;
    let opened = BlockBuilder::new(&backend, &engine, &0u8, false);
    assert!(matches!(opened, Err(Error::Executor(Refusal::BadInherent))));
    let missing = BlockBuilder::new(&backend, &engine, &1u8, true);
    assert!(matches!(missing, Err(Error::Backend(Absent))));
}
