use core::marker::PhantomData;
use txn_locks::Chunks;
use txn_locks::DeleteChunk;
use txn_locks::Exclusive;
use txn_locks::Index;
use txn_locks::LockState;
use txn_locks::NoLock;
use txn_locks::ReadChunk;
use txn_locks::Shared;
use txn_locks::Transaction;
use txn_locks::WriteChunk;

fn delete_chunk<T: DeleteChunk>(txn: T) {
    txn.delete();
}

fn new_txn<C, I>() -> Transaction<C, I> {
    Transaction { locks: LockState { chunks: PhantomData, index: PhantomData } }
}

#[test]
fn full_example() {
    let txn = Transaction {
        locks: LockState {
            chunks: PhantomData::<Shared>::default(),
            index: PhantomData::<Shared>::default(),
        },
    };

    let txn = txn.lock::<Chunks, Exclusive>();

    delete_chunk(txn);
}

#[test]
fn transition_sets_one_scope_and_leaves_the_other() {
    let txn: Transaction<Shared, NoLock> = new_txn();
    let txn: Transaction<Shared, Exclusive> = txn.lock::<Index, Exclusive>();
    let _txn: Transaction<NoLock, Exclusive> = txn.lock::<Chunks, NoLock>();
}

#[test]
fn shared_chunk_lock_permits_read_and_write() {
    let txn: Transaction<Shared, NoLock> = new_txn();
    txn.read();
    txn.write();
}

#[test]
fn exclusive_chunk_lock_permits_read_write_and_delete() {
    let txn: Transaction<Exclusive, NoLock> = new_txn();
    txn.read();
    txn.write();
    txn.delete();
}

#[test]
fn independent_transitions_commute() {
    let first_chunks: Transaction<NoLock, NoLock> = new_txn();
    let first_chunks = first_chunks.lock::<Chunks, Exclusive>();
    let first_chunks: Transaction<Exclusive, Shared> = first_chunks.lock::<Index, Shared>();

    let first_index: Transaction<NoLock, NoLock> = new_txn();
    let first_index = first_index.lock::<Index, Shared>();
    let first_index: Transaction<Exclusive, Shared> = first_index.lock::<Chunks, Exclusive>();

    first_chunks.delete();
    first_index.delete();
}
