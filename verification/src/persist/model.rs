//! What the storage holds after a number of operations, and what is loaded from it.

use vstd::prelude::*;

use crate::error::ErrorCode;
use crate::persist::{
    joined, key_file, lemma_key_files_differ, lemma_load_is_complete, load_outcome, reads_file,
    store_next, BlobLoad, MatterStackKey, PersistAction, StoreStep,
};

verus! {

/// The files after a step of storing a BLOB, given the files by their paths.
pub open spec fn after_step(
    files: Map<Seq<char>, Seq<u8>>,
    path: Seq<char>,
    data: Seq<u8>,
    step: StoreStep,
) -> Map<Seq<char>, Seq<u8>> {
    match step {
        StoreStep::CreateDir => files,
        StoreStep::CreateFile => files.insert(path, Seq::empty()),
        StoreStep::Write => files.insert(path, files[path] + data),
    }
}

impl StoreStep {
    /// How many steps follow.
    pub open spec fn rank(self) -> nat {
        match self {
            StoreStep::CreateDir => 2,
            StoreStep::CreateFile => 1,
            StoreStep::Write => 0,
        }
    }
}

/// The files after all steps from the given one on, none of which fails.
pub open spec fn after_store(
    files: Map<Seq<char>, Seq<u8>>,
    path: Seq<char>,
    data: Seq<u8>,
    step: StoreStep,
) -> Map<Seq<char>, Seq<u8>>
    decreases step.rank(),
{
    let after = after_step(files, path, data, step);
    match store_next(step, true) {
        Ok(Some(next)) => after_store(after, path, data, next),
        _ => after,
    }
}

/// Storing a BLOB puts it into its file in place of whatever was there before, and leaves all
/// other files as they are.
pub proof fn lemma_store_replaces(
    files: Map<Seq<char>, Seq<u8>>,
    path: Seq<char>,
    data: Seq<u8>,
)
    ensures
        after_store(files, path, data, StoreStep::CreateDir) == files.insert(path, data),
{
    reveal_with_fuel(after_store, 3);
    assert(Seq::<u8>::empty() + data =~= data);
    assert(after_store(files, path, data, StoreStep::CreateDir) =~= files.insert(path, data));
}

/// An operation on the BLOBs of a directory.
pub enum BlobOp {
    /// The BLOB was stored under the key.
    Store { key: u16, data: Seq<u8> },
    /// The BLOB could not be stored under the key: there may be a file with anything in it.
    FailedStore { key: u16, left: Option<Seq<u8>> },
    /// The BLOB was removed, if there was one.
    Remove { key: u16 },
}

impl BlobOp {
    /// The key of the BLOB.
    pub open spec fn key(self) -> u16 {
        match self {
            BlobOp::Store { key, .. } => key,
            BlobOp::FailedStore { key, .. } => key,
            BlobOp::Remove { key } => key,
        }
    }
}

/// The files after an operation on the BLOBs of the directory.
pub open spec fn after_op(
    dir: Seq<char>,
    files: Map<Seq<char>, Seq<u8>>,
    op: BlobOp,
) -> Map<Seq<char>, Seq<u8>> {
    let path = joined(dir, key_file(op.key()));
    match op {
        BlobOp::Store { data, .. } => after_store(files, path, data, StoreStep::CreateDir),
        BlobOp::FailedStore { left: Some(left), .. } => files.insert(path, left),
        BlobOp::FailedStore { left: None, .. } => files,
        BlobOp::Remove { .. } => files.remove(path),
    }
}

/// The files after several operations.
pub open spec fn after_ops(
    dir: Seq<char>,
    files: Map<Seq<char>, Seq<u8>>,
    ops: Seq<BlobOp>,
) -> Map<Seq<char>, Seq<u8>>
    decreases ops.len(),
{
    if ops.len() == 0 {
        files
    } else {
        after_op(dir, after_ops(dir, files, ops.drop_last()), ops.last())
    }
}

/// Operations on other keys leave the BLOB of a key as it is.
pub proof fn lemma_other_keys_do_not_matter(
    dir: Seq<char>,
    files: Map<Seq<char>, Seq<u8>>,
    ops: Seq<BlobOp>,
    from: int,
    key: u16,
)
    requires
        0 <= from <= ops.len(),
        forall|j: int| from <= j < ops.len() ==> (#[trigger] ops[j]).key() != key,
    ensures
        ({
            let path = joined(dir, key_file(key));
            let before = after_ops(dir, files, ops.take(from));
            let after = after_ops(dir, files, ops);
            &&& after.contains_key(path) == before.contains_key(path)
            &&& before.contains_key(path) ==> after[path] == before[path]
        }),
    decreases ops.len() - from,
{
    if from == ops.len() {
        assert(ops.take(from) =~= ops);
    } else {
        let front = ops.drop_last();
        let last = ops.last();
        assert forall|j: int| from <= j < front.len() implies (#[trigger] front[j]).key()
            != key by {
            assert(front[j] == ops[j]);
        }
        lemma_other_keys_do_not_matter(dir, files, front, from, key);
        assert(front.take(from) =~= ops.take(from));
        assert(ops[ops.len() - 1].key() != key);
        let other = joined(dir, key_file(last.key()));
        if other == joined(dir, key_file(key)) {
            lemma_key_files_differ(dir, last.key(), key);
        }
        if let BlobOp::Store { data, .. } = last {
            lemma_store_replaces(after_ops(dir, files, front), other, data);
        }
    }
}

/// What the buffer holds after the reads have given these numbers of bytes of the file, from the
/// present state on.
pub open spec fn filled(load: BlobLoad, reads: Seq<usize>, file: Seq<u8>, buf: Seq<u8>) -> Seq<
    u8,
>
    decreases reads.len(),
{
    if load.read_at() is Err || reads.len() == 0 || reads[0] == 0 {
        buf
    } else {
        let start = load.offset as int;
        let end = start + reads[0];
        filled(
            load.after(reads[0]),
            reads.skip(1),
            file,
            buf.take(start) + file.subrange(start, end) + buf.skip(end),
        )
    }
}

/// A file that fits is read into the buffer as it is, however many bytes each of the reads gives.
pub proof fn lemma_filled(load: BlobLoad, reads: Seq<usize>, file: Seq<u8>, buf: Seq<u8>)
    requires
        reads_file(load, reads, file.len()),
        file.len() < load.room,
        buf.len() == load.room,
        buf.take(load.offset as int) == file.take(load.offset as int),
    ensures
        filled(load, reads, file, buf).take(file.len() as int) == file,
    decreases reads.len(),
{
    if reads[0] == 0 {
        assert(file.take(load.offset as int) =~= file);
    } else {
        let start = load.offset as int;
        let end = start + reads[0];
        let next = buf.take(start) + file.subrange(start, end) + buf.skip(end);
        assert(next.take(end) =~= file.take(end)) by {
            assert forall|i: int| 0 <= i < end implies next[i] == #[trigger] file[i] by {
                if i < start {
                    assert(buf.take(start)[i] == file.take(start)[i]);
                }
            }
        }
        lemma_filled(load.after(reads[0]), reads.skip(1), file, next);
    }
}

/// What is loaded under a key is what was last stored under it, whatever was done with other keys
/// before or afterwards, and whatever the file held before: the BLOB is found and read as a whole
/// into any buffer that is larger than it, even if it is empty.
pub proof fn lemma_load_gives_back_last_store(
    dir: Seq<char>,
    files: Map<Seq<char>, Seq<u8>>,
    ops: Seq<BlobOp>,
    last: int,
    key: u16,
    data: Seq<u8>,
    room: usize,
    reads: Seq<usize>,
    buf: Seq<u8>,
)
    requires
        0 <= last < ops.len(),
        ops[last] == (BlobOp::Store { key, data }),
        forall|j: int| last < j < ops.len() ==> (#[trigger] ops[j]).key() != key,
        data.len() < room,
        buf.len() == room,
        reads_file(BlobLoad { offset: 0, room }, reads, data.len()),
    ensures
        ({
            let path = joined(dir, key_file(key));
            let after = after_ops(dir, files, ops);
            let load = BlobLoad { offset: 0, room };
            &&& after.contains_key(path)
            &&& after[path] == data
            &&& load_outcome(load, reads) == Some(Ok::<usize, ErrorCode>(data.len() as usize))
            &&& filled(load, reads, after[path], buf).take(data.len() as int) == data
        }),
{
    let path = joined(dir, key_file(key));
    let load = BlobLoad { offset: 0, room };
    lemma_other_keys_do_not_matter(dir, files, ops, last + 1, key);
    let upto = ops.take(last + 1);
    assert(upto.last() == ops[last]);
    lemma_store_replaces(after_ops(dir, files, upto.drop_last()), path, data);
    lemma_load_is_complete(load, reads, data.len());
    assert(buf.take(0) =~= data.take(0));
    lemma_filled(load, reads, data, buf);
}

/// There is no file to load for a key whose BLOB was last removed, whatever was done with other
/// keys before or afterwards.
pub proof fn lemma_nothing_after_remove(
    dir: Seq<char>,
    files: Map<Seq<char>, Seq<u8>>,
    ops: Seq<BlobOp>,
    last: int,
    key: u16,
)
    requires
        0 <= last < ops.len(),
        ops[last] == (BlobOp::Remove { key }),
        forall|j: int| last < j < ops.len() ==> (#[trigger] ops[j]).key() != key,
    ensures
        !after_ops(dir, files, ops).contains_key(joined(dir, key_file(key))),
{
    lemma_other_keys_do_not_matter(dir, files, ops, last + 1, key);
    assert(ops.take(last + 1).last() == ops[last]);
}

/// What the storage and the Matter stack hold: the BLOBs by their keys, and whether there are any
/// fabrics or ACLs, and any networks.
pub struct Persisted {
    pub blobs: Map<u16, Seq<u8>>,
    pub fabrics: bool,
    pub networks: bool,
}

/// What is left after an action that removes something.
pub open spec fn after_removal(state: Persisted, action: PersistAction) -> Persisted {
    match action {
        PersistAction::Remove(key) => Persisted {
            blobs: state.blobs.remove(key.spec_id()),
            ..state
        },
        PersistAction::ResetFabrics => Persisted { fabrics: false, ..state },
        PersistAction::ResetNetworks => Persisted { networks: false, ..state },
        _ => state,
    }
}

/// What is left after several actions that remove something.
pub open spec fn after_removals(state: Persisted, actions: Seq<PersistAction>) -> Persisted
    decreases actions.len(),
{
    if actions.len() == 0 {
        state
    } else {
        after_removal(after_removals(state, actions.drop_last()), actions.last())
    }
}

/// A reset leaves no BLOB of the stack in the storage, and neither fabrics nor ACLs nor networks
/// in the Matter stack. The BLOBs of others stay. Of a reset to the factory defaults the same
/// holds, but for the storage.
pub proof fn lemma_reset_leaves_nothing(state: Persisted, key: u16)
    ensures
        ({
            let after = after_removals(
                state,
                seq![
                    PersistAction::Remove(MatterStackKey::Fabrics),
                    PersistAction::Remove(MatterStackKey::Networks),
                    PersistAction::ResetFabrics,
                    PersistAction::ResetNetworks,
                ],
            );
            &&& !after.fabrics
            &&& !after.networks
            &&& forall|own: MatterStackKey| !after.blobs.contains_key(#[trigger] own.spec_id())
            &&& (forall|own: MatterStackKey| #[trigger] own.spec_id() != key)
                ==> after.blobs.contains_key(key) == state.blobs.contains_key(key)
            &&& (forall|own: MatterStackKey| #[trigger] own.spec_id() != key)
                && state.blobs.contains_key(key) ==> after.blobs[key] == state.blobs[key]
        }),
        after_removals(state, seq![PersistAction::ResetFabrics, PersistAction::ResetNetworks]) == (
        Persisted { fabrics: false, networks: false, ..state }),
{
    reveal_with_fuel(after_removals, 5);
    let factory = seq![PersistAction::ResetFabrics, PersistAction::ResetNetworks];
    assert(factory.drop_last() =~= seq![PersistAction::ResetFabrics]);
    assert(factory.drop_last().drop_last() =~= Seq::empty());
    let all = seq![
        PersistAction::Remove(MatterStackKey::Fabrics),
        PersistAction::Remove(MatterStackKey::Networks),
        PersistAction::ResetFabrics,
        PersistAction::ResetNetworks,
    ];
    let three = all.drop_last();
    let two = three.drop_last();
    let one = two.drop_last();
    assert(one.drop_last() =~= Seq::empty());
    assert(MatterStackKey::Fabrics.spec_id() == 0);
    assert(MatterStackKey::Networks.spec_id() == 1);
}

} // verus!
