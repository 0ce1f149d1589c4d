//! What the stack knows is kept in the storage.

use vstd::arithmetic::power::pow;
use vstd::prelude::*;

use crate::digits::lower_hex;
use crate::error::ErrorCode;
use crate::laws::texts::{lemma_lower_hex_is_read_back, number};
use crate::persist::model::{after_removals, lemma_reset_leaves_nothing, Persisted};
use crate::persist::{
    factory_reset_actions, joined, key_file, load_actions, read_ends, reset_actions, save_next,
    store_next, BlobLoad, MatterStackKey, PersistAction, SavePhase, StoreStep,
};

verus! {

/// The file of a key is `k_` with the four hexadecimal digits of the key, from which the key can
/// be read back.
pub proof fn lemma_key_file(key: u16)
    ensures
        key_file(key).len() == 6,
        key_file(key)[0] == 'k',
        key_file(key)[1] == '_',
        number(key_file(key).skip(2), 16) == Some(key as int),
{
    reveal_strlit("k_");
    assert(pow(16, 4) == 0x10000) by {
        reveal_with_fuel(pow, 5);
    }
    lemma_lower_hex_is_read_back(key as int, 4);
    assert(key_file(key).skip(2) =~= lower_hex(key as int, 4));
}

/// A file in a directory: its path is that of the directory with the name of the file, and with
/// exactly one slash between them, unless the former is empty.
pub proof fn lemma_path(dir: Seq<char>, file: Seq<char>)
    ensures
        dir.len() == 0 ==> joined(dir, file) == file,
        joined(dir.push('/'), file) == dir + seq!['/'] + file,
        dir.len() > 0 && dir.last() != '/' ==> joined(dir, file) == dir + seq!['/'] + file,
{
    reveal_strlit("/");
    assert(dir.push('/') =~= dir + seq!['/']);
    if dir.len() == 0 {
        assert(dir + file =~= file);
    } else if dir.last() != '/' {
        assert("/"@ =~= seq!['/']);
    }
}

/// The keys of the stack.
pub proof fn lemma_keys(key: MatterStackKey)
    ensures
        key == MatterStackKey::Fabrics <==> key.spec_id() == 0,
        key == MatterStackKey::Networks <==> key.spec_id() == 1,
        key == MatterStackKey::Fabrics ==> key.spec_name() == "fabrics"@,
        key == MatterStackKey::Networks ==> key.spec_name() == "networks"@,
{
}

/// A failure of any step of storing a BLOB is an I/O error, and only when the BLOB was written it
/// is stored.
pub proof fn lemma_store_steps(step: StoreStep)
    ensures
        store_next(step, false) == Err::<Option<StoreStep>, ErrorCode>(ErrorCode::StdIoError),
        store_next(step, true) is Ok,
        store_next(step, true)->Ok_0 is None <==> step == StoreStep::Write,
        store_next(step, true)->Ok_0 == Some(StoreStep::Write) <==> step == StoreStep::CreateFile,
        store_next(step, true)->Ok_0 == Some(StoreStep::CreateFile) <==> step
            == StoreStep::CreateDir,
{
}

/// Bytes that are read go right behind those that were read before, as long as there is room for
/// one more. A read of no bytes at all is the last one.
pub proof fn lemma_reads_go_on(load: BlobLoad, len: usize)
    requires
        load.wf(),
        len <= load.room - load.offset,
    ensures
        load.offset < load.room ==> load.read_at() == Ok::<usize, ErrorCode>(load.offset),
        load.offset == load.room ==> load.read_at() == Err::<usize, ErrorCode>(ErrorCode::NoSpace),
        load.after(len).offset == load.offset + len,
        load.after(len).room == load.room,
        read_ends(Some(len)) == Ok::<bool, ErrorCode>(len == 0),
        read_ends(None) == Err::<bool, ErrorCode>(ErrorCode::StdIoError),
{
}

/// How the saving ends from a phase on, when nothing else changes meanwhile and nothing fails.
pub open spec fn save_end(
    phase: SavePhase,
    fabrics_changed: bool,
    networks_changed: bool,
) -> Result<SavePhase, ErrorCode>
    decreases phase.rank(),
{
    match save_next(phase, fabrics_changed, networks_changed, Ok(())) {
        Ok(next) => if next.rank() < phase.rank() {
            save_end(next, fabrics_changed, networks_changed)
        } else {
            Ok(next)
        },
        Err(code) => Err(code),
    }
}

/// The saving tells in the end whether there was anything that had to be saved.
pub proof fn lemma_saved(fabrics_changed: bool, networks_changed: bool)
    ensures
        save_end(SavePhase::Start, fabrics_changed, networks_changed) == Ok::<
            SavePhase,
            ErrorCode,
        >(SavePhase::Done { saved: fabrics_changed || networks_changed }),
{
    reveal_with_fuel(save_end, 6);
}

/// A failure to store ends the saving with this failure; nothing else does. What changes while
/// something else is stored does not matter then, and is looked at afterwards.
pub proof fn lemma_save_steps(
    phase: SavePhase,
    fabrics_changed: bool,
    networks_changed: bool,
    stored: Result<(), ErrorCode>,
)
    ensures
        ({
            let next = save_next(phase, fabrics_changed, networks_changed, stored);
            let storing = phase == SavePhase::StoreFabrics || phase == SavePhase::StoreNetworks;
            &&& next is Err <==> storing && stored is Err
            &&& next is Err ==> next->Err_0 == stored->Err_0
            &&& next is Ok && phase == SavePhase::StoreFabrics ==> next->Ok_0
                == SavePhase::Networks
            &&& next is Ok && phase == SavePhase::StoreNetworks ==> next->Ok_0 == (
            SavePhase::Done { saved: true })
            &&& phase is Done ==> next->Ok_0 == phase
            &&& phase == SavePhase::Start ==> (next->Ok_0 is Done <==> !fabrics_changed
                && !networks_changed)
            &&& phase == SavePhase::Fabrics ==> (next->Ok_0 == SavePhase::StoreFabrics
                <==> fabrics_changed) && (next->Ok_0 == SavePhase::Networks <==> !fabrics_changed)
            &&& phase == SavePhase::Networks ==> (next->Ok_0 == SavePhase::StoreNetworks
                <==> networks_changed) && (next->Ok_0 == (SavePhase::Done { saved: true })
                <==> !networks_changed)
        }),
        phase.spec_action() == Some(PersistAction::Store(MatterStackKey::Fabrics)) <==> phase
            == SavePhase::StoreFabrics,
        phase.spec_action() == Some(PersistAction::Store(MatterStackKey::Networks)) <==> phase
            == SavePhase::StoreNetworks,
        phase.spec_action() is None <==> phase != SavePhase::StoreFabrics && phase
            != SavePhase::StoreNetworks,
{
}

/// A reset leaves nothing of the stack in the storage, nor in the memory. A reset to the factory
/// defaults leaves the storage as it is.
pub proof fn lemma_resets(state: Persisted, own: MatterStackKey)
    ensures
        !after_removals(state, reset_actions()).blobs.contains_key(own.spec_id()),
        !after_removals(state, reset_actions()).fabrics,
        !after_removals(state, reset_actions()).networks,
        after_removals(state, factory_reset_actions()).blobs == state.blobs,
        !after_removals(state, factory_reset_actions()).fabrics,
        !after_removals(state, factory_reset_actions()).networks,
{
    lemma_reset_leaves_nothing(state, 0);
}

/// All that is stored is loaded, each BLOB once.
pub proof fn lemma_all_is_loaded(key: MatterStackKey)
    ensures
        load_actions().contains(PersistAction::Load(key)),
        load_actions().no_duplicates(),
        forall|i: int|
            0 <= i < load_actions().len() ==> #[trigger] load_actions()[i] is Load,
{
    let i: int = if key == MatterStackKey::Fabrics {
        0
    } else {
        1
    };
    assert(load_actions()[i] == PersistAction::Load(key));
}

} // verus!
