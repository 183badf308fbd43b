//! The error taxonomy and the shared storage handle on plain values.

use blockchain::chain::{Error, SharedBackend};
use blockchain::traits::{Backend, Block};

#[test]
fn storage_failure_is_filed_under_backend() {
    let failed: Result<u8, String> = Err("disk".to_string());
    match Error::<String, u32>::from_backend(failed) {
        Err(Error::Backend(cause)) => assert_eq!(cause, "disk"),
        other => panic!("unexpected: {:?}", other),
    }
}

#[test]
fn storage_success_passes_through() {
    let found: Result<u8, String> = Ok(3);
    match Error::<String, u32>::from_backend(found) {
        Ok(value) => assert_eq!(value, 3),
        other => panic!("unexpected: {:?}", other),
    }
}

#[test]
fn engine_failure_is_filed_under_executor() {
    let failed: Result<u8, u32> = Err(9);
    match Error::<String, u32>::from_executor(failed) {
        Err(Error::Executor(cause)) => assert_eq!(cause, 9),
        other => panic!("unexpected: {:?}", other),
    }
}

#[test]
fn engine_success_passes_through() {
    let done: Result<(), u32> = Ok(());
    assert!(matches!(Error::<String, u32>::from_executor(done), Ok(())));
}

#[test]
fn kinds_are_told_apart_with_one_cause_type() {
    let from_storage: Result<u8, Error<u32, u32>> = Error::from_backend(Err(4));
    let from_engine: Result<u8, Error<u32, u32>> = Error::from_executor(Err(4));
    assert!(matches!(from_storage, Err(Error::Backend(4))));
    assert!(matches!(from_engine, Err(Error::Executor(4))));
}

#[derive(Clone, Debug, PartialEq)]
struct Leaf {
    id: u8,
}

impl Block for Leaf {
    type Identifier = u8;

    fn id(&self) -> u8 {
        self.id
    }

    fn parent_id(&self) -> Option<u8> {
        None
    }
}

/// Holds one block, and its state: a count.
struct Single {
    block: Leaf,
    count: u32,
}

impl Backend for Single {
    type Block = Leaf;
    type State = u32;
    type Auxiliary = ();
    type Error = ();

    // Ghost items exist for proofs and are never executed.
    fn block_at_spec(&self, _id: &u8, _r: &Result<Leaf, ()>) -> bool {
        unreachable!()
    }

    fn state_at_spec(&self, _id: &u8, _r: &Result<u32, ()>) -> bool {
        unreachable!()
    }

    fn block_at(&self, id: &u8) -> Result<Leaf, ()> {
        if *id == self.block.id {
            Ok(self.block.clone())
        } else {
            Err(())
        }
    }

    fn state_at(&self, id: &u8) -> Result<u32, ()> {
        if *id == self.block.id {
            Ok(self.count)
        } else {
            Err(())
        }
    }
}

#[test]
fn shared_handle_reads_what_it_was_given() {
    let handle = SharedBackend::new(Single { block: Leaf { id: 4 }, count: 17 });
    assert_eq!(handle.read().block_at(&4), Ok(Leaf { id: 4 }));
    assert_eq!(handle.read().state_at(&4), Ok(17));
    assert_eq!(handle.read().state_at(&5), Err(()));
}

#[test]
fn cloned_handle_reads_the_same_backend() {
    let handle = SharedBackend::new(Single { block: Leaf { id: 4 }, count: 17 });
    let second = handle.clone();
    assert!(std::ptr::eq(handle.read(), second.read()));
    assert_eq!(second.read().state_at(&4), Ok(17));
}
