//! Persistent storage of the state of the Matter stack.

use vstd::prelude::*;

use crate::digits::{append_lower_hex, lemma_lower_hex_injective, lower_hex};
use crate::error::ErrorCode;
use crate::private::Sealed;
use crate::wireless::store::{
    load_context, NetworkContext, NetworkContextView, NetworkStateView, StoredNetwork,
};
use crate::wireless::traits::{NetworkCredentials, WirelessData};

pub mod model;

verus! {

/// The first key available for the vendor-specific data.
pub const VENDOR_KEYS_START: u16 = 0x1000;

/// The size of the buffer for the BLOBs.
pub const KV_BLOB_BUF_SIZE: usize = 4096;

/// The keys currently used by the stack.
///
/// All keys with values up to 0xfff are reserved for the stack.
/// Keys >= 0x1000 are available for downstream crates.
#[derive(Copy, Clone, Debug, Eq, PartialEq, Hash, Structural)]
pub enum MatterStackKey {
    Fabrics,
    Networks,
}

impl MatterStackKey {
    /// The number that stands for the key.
    pub open spec fn spec_id(self) -> u16 {
        match self {
            MatterStackKey::Fabrics => 0,
            MatterStackKey::Networks => 1,
        }
    }

    /// The name of the key.
    pub open spec fn spec_name(self) -> Seq<char> {
        match self {
            MatterStackKey::Fabrics => "fabrics"@,
            MatterStackKey::Networks => "networks"@,
        }
    }

    /// The number that stands for the key.
    pub fn id(self) -> (id: u16)
        ensures
            id == self.spec_id(),
    {
        match self {
            MatterStackKey::Fabrics => 0,
            MatterStackKey::Networks => 1,
        }
    }

    /// The key that the number stands for.
    pub fn try_from(value: u16) -> (res: Result<Self, ()>)
        ensures
            match res {
                Ok(key) => key.spec_id() == value,
                Err(_) => forall|key: MatterStackKey| #[trigger] key.spec_id() != value,
            },
    {
        match value {
            0 => Ok(MatterStackKey::Fabrics),
            1 => Ok(MatterStackKey::Networks),
            _ => Err(()),
        }
    }

    /// The name of the key.
    pub fn name(self) -> (name: &'static str)
        ensures
            name@ == self.spec_name(),
    {
        match self {
            MatterStackKey::Fabrics => "fabrics",
            MatterStackKey::Networks => "networks",
        }
    }
}

/// Different keys have different numbers, all of which are reserved for the stack.
pub proof fn lemma_stack_keys(a: MatterStackKey, b: MatterStackKey)
    ensures
        a.spec_id() == b.spec_id() ==> a == b,
        a.spec_id() < VENDOR_KEYS_START,
{
}

/// The name of the file for a key: its four hexadecimal digits behind a prefix.
pub open spec fn key_file(key: u16) -> Seq<char> {
    "k_"@ + lower_hex(key as int, 4)
}

/// The path of a file in a directory.
pub open spec fn joined(dir: Seq<char>, file: Seq<char>) -> Seq<char> {
    if dir.len() == 0 || dir.last() == '/' {
        dir + file
    } else {
        dir + "/"@ + file
    }
}

/// Different keys have different files.
pub proof fn lemma_key_files_differ(dir: Seq<char>, a: u16, b: u16)
    requires
        joined(dir, key_file(a)) == joined(dir, key_file(b)),
    ensures
        a == b,
{
    let prefix = joined(dir, "k_"@);
    let n = prefix.len() as int;
    reveal_strlit("k_");
    reveal_strlit("/");
    assert(joined(dir, key_file(a)) =~= prefix + lower_hex(a as int, 4));
    assert(joined(dir, key_file(b)) =~= prefix + lower_hex(b as int, 4));
    assert((prefix + lower_hex(a as int, 4)).skip(n) =~= lower_hex(a as int, 4));
    assert((prefix + lower_hex(b as int, 4)).skip(n) =~= lower_hex(b as int, 4));
    lemma_lower_hex_injective(a, b);
}

/// A store of BLOBs that keeps them in the files of a directory.
///
/// The BLOBs are stored in files named after the keys in the specified directory. Its view is the
/// path of the directory.
#[derive(Debug)]
pub struct DirKvBlobStore(String);

impl View for DirKvBlobStore {
    type V = Seq<char>;

    closed spec fn view(&self) -> Seq<char> {
        self.0@
    }
}

/// The path of a file in a directory.
fn join(dir: &str, file: &str) -> (path: String)
    ensures
        path@ == joined(dir@, file@),
{
    let mut path = dir.to_owned();
    let len: usize = dir.unicode_len();
    if len > 0 && dir.get_char(len - 1) != '/' {
        path.append("/");
    }
    path.append(file);
    path
}

impl DirKvBlobStore {
    /// Create a new instance, which will persist its settings in `<tmp-dir>/rs-matter`.
    pub fn new_default(tmp_dir: &str) -> (res: Self)
        ensures
            res@ == joined(tmp_dir@, "rs-matter"@),
    {
        Self(join(tmp_dir, "rs-matter"))
    }

    /// Create a new instance.
    pub fn new(path: String) -> (res: Self)
        ensures
            res@ == path@,
    {
        Self(path)
    }

    /// The path of the directory.
    pub fn path(&self) -> (path: &str)
        ensures
            path@ == self@,
    {
        self.0.as_str()
    }

    /// The path of the file for the given key.
    pub fn key_path(&self, key: u16) -> (path: String)
        ensures
            path@ == joined(self@, key_file(key)),
    {
        let mut file = "k_".to_owned();
        append_lower_hex(&mut file, key as u64, 4);
        join(self.0.as_str(), file.as_str())
    }

    /// Start to load the BLOB with the given key into a buffer of the given size: nothing is
    /// loaded when there is no file for the key.
    pub fn load(opened: bool, room: usize) -> (res: Option<BlobLoad>)
        ensures
            match res {
                Some(load) => opened && load.offset == 0 && load.room == room,
                None => !opened,
            },
    {
        if opened {
            Some(BlobLoad { offset: 0, room })
        } else {
            None
        }
    }

    /// The first step of storing a BLOB.
    pub fn store() -> (step: StoreStep)
        ensures
            step == StoreStep::CreateDir,
    {
        StoreStep::CreateDir
    }

    /// The outcome of removing the file for a key: if there was none to be removed, nothing is
    /// done.
    pub fn remove(_removed: bool) -> (res: Result<(), ErrorCode>)
        ensures
            res == Ok::<(), ErrorCode>(()),
    {
        Ok(())
    }
}

/// What is done to store a BLOB, one after the other.
#[derive(Debug, Clone, Copy, PartialEq, Eq, Structural)]
pub enum StoreStep {
    /// Create the directory of the file, and those above it, as far as they are missing.
    CreateDir,
    /// Create the file, or empty it if there is one already.
    CreateFile,
    /// Write the BLOB to the file.
    Write,
}

/// What follows a step of storing a BLOB; `Ok(None)` means that the BLOB is stored.
pub open spec fn store_next(step: StoreStep, succeeded: bool) -> Result<
    Option<StoreStep>,
    ErrorCode,
> {
    if !succeeded {
        Err(ErrorCode::StdIoError)
    } else {
        match step {
            StoreStep::CreateDir => Ok(Some(StoreStep::CreateFile)),
            StoreStep::CreateFile => Ok(Some(StoreStep::Write)),
            StoreStep::Write => Ok(None),
        }
    }
}

impl StoreStep {
    /// What follows the step.
    pub fn next(self, succeeded: bool) -> (res: Result<Option<Self>, ErrorCode>)
        ensures
            res == store_next(self, succeeded),
    {
        match (succeeded, self) {
            (false, _) => Err(ErrorCode::StdIoError),
            (true, StoreStep::CreateDir) => Ok(Some(StoreStep::CreateFile)),
            (true, StoreStep::CreateFile) => Ok(Some(StoreStep::Write)),
            (true, StoreStep::Write) => Ok(None),
        }
    }
}

/// A BLOB that is being read from its file into a buffer.
#[derive(Debug, Clone, Copy, PartialEq, Eq, Structural)]
pub struct BlobLoad {
    /// The number of bytes that were read so far.
    pub offset: usize,
    /// The size of the buffer.
    pub room: usize,
}

impl BlobLoad {
    /// No more was read than fits.
    pub open spec fn wf(&self) -> bool {
        self.offset <= self.room
    }

    /// Where in the buffer the next bytes go, if there is room for at least one more.
    pub open spec fn read_at(self) -> Result<usize, ErrorCode> {
        if self.offset < self.room {
            Ok(self.offset)
        } else {
            Err(ErrorCode::NoSpace)
        }
    }

    /// The state after `len` more bytes were read.
    pub open spec fn after(self, len: usize) -> Self {
        BlobLoad { offset: (self.offset + len) as usize, ..self }
    }

    /// Where in the buffer the next bytes go; there has to be room for at least one more.
    pub fn begin_read(&self) -> (res: Result<usize, ErrorCode>)
        requires
            self.wf(),
        ensures
            res == self.read_at(),
    {
        if self.offset == self.room {
            return Err(ErrorCode::NoSpace);
        }
        Ok(self.offset)
    }

    /// Take note of the number of bytes that were read: `true` when the end of the file was
    /// reached, so that the bytes up to the offset are the BLOB.
    pub fn end_read(&mut self, len: Option<usize>) -> (res: Result<bool, ErrorCode>)
        requires
            old(self).wf(),
            len matches Some(len) ==> len <= old(self).room - old(self).offset,
        ensures
            final(self).wf(),
            match len {
                Some(len) => {
                    &&& res == Ok::<bool, ErrorCode>(len == 0)
                    &&& *final(self) == old(self).after(len)
                },
                None => {
                    &&& res == Err::<bool, ErrorCode>(ErrorCode::StdIoError)
                    &&& *final(self) == *old(self)
                },
            },
            res == read_ends(len),
    {
        match len {
            Some(len) => {
                self.offset = self.offset + len;
                Ok(len == 0)
            },
            None => Err(ErrorCode::StdIoError),
        }
    }
}

/// Whether a read that gave this number of bytes was the last one; a failed read gives none.
pub open spec fn read_ends(len: Option<usize>) -> Result<bool, ErrorCode> {
    match len {
        Some(len) => Ok(len == 0),
        None => Err(ErrorCode::StdIoError),
    }
}

/// Whether the reads can give these numbers of bytes, from the present state on, in a file of
/// `size` bytes: each gives no more than fits and than is left, and nothing only at the end.
pub open spec fn reads_file(load: BlobLoad, reads: Seq<usize>, size: nat) -> bool
    decreases reads.len(),
{
    &&& load.offset <= size
    &&& load.read_at() is Ok ==> {
        &&& reads.len() > 0
        &&& reads[0] <= load.room - load.offset
        &&& reads[0] <= size - load.offset
        &&& reads[0] == 0 <==> load.offset == size
        &&& reads[0] > 0 ==> reads_file(load.after(reads[0]), reads.skip(1), size)
    }
}

/// What comes of loading from the present state on, when the reads give these numbers of bytes:
/// the length of the BLOB, or what stops the loading. It is open when there are too few reads.
pub open spec fn load_outcome(load: BlobLoad, reads: Seq<usize>) -> Option<
    Result<usize, ErrorCode>,
>
    decreases reads.len(),
{
    match load.read_at() {
        Err(code) => Some(Err(code)),
        Ok(_) => if reads.len() == 0 {
            None
        } else if reads[0] == 0 {
            Some(Ok(load.offset))
        } else {
            load_outcome(load.after(reads[0]), reads.skip(1))
        },
    }
}

/// A file is loaded as a whole if it is smaller than the buffer, and not at all otherwise: in no
/// case is a part of it taken for the whole, however many bytes each of the reads gives.
pub proof fn lemma_load_is_complete(load: BlobLoad, reads: Seq<usize>, size: nat)
    requires
        load.wf(),
        reads_file(load, reads, size),
    ensures
        load_outcome(load, reads) == Some(
            if size < load.room {
                Ok::<usize, ErrorCode>(size as usize)
            } else {
                Err(ErrorCode::NoSpace)
            },
        ),
    decreases reads.len(),
{
    if load.read_at() is Ok && reads[0] > 0 {
        lemma_load_is_complete(load.after(reads[0]), reads.skip(1), size);
    }
}

/// A store that keeps nothing.
pub struct DummyKvBlobStore;

/// The networks, as far as their persistence is concerned.
///
/// The trait is sealed and is implemented by:
/// - `()` - which is used with the `Eth` network
/// - `NetworkContext` - which is used with the wireless networks.
pub trait NetworkPersist: Sealed + Sized {
    /// What a stored BLOB holds.
    type Stored;

    /// Whether the networks have changed since they were stored.
    spec fn spec_changed(&self) -> bool;

    /// Whether this is what a reset makes of the networks as they were `before`.
    spec fn is_reset_of(&self, before: Self) -> bool;

    /// Reset all networks, removing all stored data from the memory
    fn reset(&mut self) -> (res: Result<(), ErrorCode>)
        ensures
            res is Ok,
            !final(self).spec_changed(),
            final(self).is_reset_of(*old(self)),
    ;

    /// Load the networks from what a stored BLOB holds
    fn load(&mut self, stored: &Self::Stored) -> (res: Result<(), ErrorCode>)
        ensures
            res is Ok ==> !final(self).spec_changed(),
    ;

    /// Take note of whether the networks could be written to a BLOB: `written` is the number of
    /// bytes that they took. Returns the length of the data to be stored.
    fn store(&mut self, written: Result<usize, ErrorCode>) -> (res: Result<usize, ErrorCode>)
        ensures
            res is Ok ==> !final(self).spec_changed(),
    ;

    /// Check if the networks have changed.
    fn changed(&self) -> (res: bool)
        ensures
            res == self.spec_changed(),
    ;

    /// One round of waiting until the networks have changed: `true` when the wait is over,
    /// `false` when the next notification has to be awaited.
    ///
    /// The wait might be over even if the networks have not changed.
    fn wait_state_changed(&mut self) -> (ready: bool)
        ensures
            old(self).spec_changed() ==> ready,
            final(self).spec_changed() == old(self).spec_changed(),
    ;
}

/// A no-op implementation of the `NetworkPersist` trait.
///
/// Used when the Matter stack is configured for Ethernet, as in that case
/// there is no network state that needs to be saved
impl NetworkPersist for () {
    type Stored = ();

    open spec fn spec_changed(&self) -> bool {
        false
    }

    open spec fn is_reset_of(&self, before: ()) -> bool {
        *self == before
    }

    fn reset(&mut self) -> (res: Result<(), ErrorCode>) {
        Ok(())
    }

    fn load(&mut self, _stored: &()) -> (res: Result<(), ErrorCode>)
        ensures
            res is Ok,
    {
        Ok(())
    }

    fn store(&mut self, _written: Result<usize, ErrorCode>) -> (res: Result<usize, ErrorCode>)
        ensures
            res == Ok::<usize, ErrorCode>(0),
    {
        Ok(0)
    }

    fn changed(&self) -> (res: bool) {
        false
    }

    fn wait_state_changed(&mut self) -> (ready: bool)
        ensures
            ready,
    {
        true
    }
}

impl<const N: usize, T: WirelessData> Sealed for NetworkContext<N, T> {

}

impl<const N: usize, T: WirelessData> NetworkPersist for NetworkContext<N, T> {
    type Stored = Result<Vec<StoredNetwork<T::NetworkCredentials>>, ErrorCode>;

    open spec fn spec_changed(&self) -> bool {
        self@.state.changed
    }

    open spec fn is_reset_of(&self, before: Self) -> bool {
        &&& self.wf()
        &&& self@ == (NetworkContextView {
            state: NetworkStateView::<<T::NetworkCredentials as View>::V>::empty(),
            ..before@
        })
    }

    fn reset(&mut self) -> (res: Result<(), ErrorCode>) {
        NetworkContext::reset(self);
        Ok(())
    }

    fn load(&mut self, stored: &Self::Stored) -> (res: Result<(), ErrorCode>)
        ensures
            load_context(old(self)@, *stored, N as nat) == (final(self)@, res),
            stored is Ok ==> final(self).wf(),
    {
        NetworkContext::load(self, stored)
    }

    fn store(&mut self, written: Result<usize, ErrorCode>) -> (res: Result<usize, ErrorCode>)
        ensures
            res == written,
            final(self)@ == (NetworkContextView {
                state: NetworkStateView {
                    changed: old(self)@.state.changed && written is Err,
                    ..old(self)@.state
                },
                ..old(self)@
            }),
    {
        NetworkContext::store(self, written)
    }

    fn changed(&self) -> (res: bool) {
        NetworkContext::changed(self)
    }

    fn wait_state_changed(&mut self) -> (ready: bool)
        ensures
            ready == old(self)@.state.changed,
            final(self)@ == (NetworkContextView {
                state_changed: old(self)@.state_changed && ready,
                ..old(self)@
            }),
    {
        NetworkContext::wait_state_changed(self)
    }
}

/// What is done with the storage and the Matter stack, one after the other.
#[derive(Debug, Clone, Copy, PartialEq, Eq, Structural)]
pub enum PersistAction {
    /// Remove the BLOB with the key.
    Remove(MatterStackKey),
    /// Remove all fabrics and ACLs from the Matter stack.
    ResetFabrics,
    /// Remove all networks from the Matter stack.
    ResetNetworks,
    /// Load the BLOB with the key, and take it over if there is one.
    Load(MatterStackKey),
    /// Store the BLOB with the key.
    Store(MatterStackKey),
}

/// Where the saving of the state stands.
#[derive(Debug, Clone, Copy, PartialEq, Eq, Structural)]
pub enum SavePhase {
    /// It is to be told whether anything has changed.
    Start,
    /// It is to be told whether the fabrics have changed.
    Fabrics,
    /// The fabrics are being stored.
    StoreFabrics,
    /// It is to be told whether the networks have changed.
    Networks,
    /// The networks are being stored.
    StoreNetworks,
    /// The end, with or without anything that had to be saved.
    Done { saved: bool },
}

/// What follows a phase of the saving, given what has changed by now and how the last action on
/// the storage went.
pub open spec fn save_next(
    phase: SavePhase,
    fabrics_changed: bool,
    networks_changed: bool,
    stored: Result<(), ErrorCode>,
) -> Result<SavePhase, ErrorCode> {
    match phase {
        SavePhase::Start => if fabrics_changed || networks_changed {
            Ok(SavePhase::Fabrics)
        } else {
            Ok(SavePhase::Done { saved: false })
        },
        SavePhase::Fabrics => if fabrics_changed {
            Ok(SavePhase::StoreFabrics)
        } else {
            Ok(SavePhase::Networks)
        },
        SavePhase::StoreFabrics => match stored {
            Ok(_) => Ok(SavePhase::Networks),
            Err(code) => Err(code),
        },
        SavePhase::Networks => if networks_changed {
            Ok(SavePhase::StoreNetworks)
        } else {
            Ok(SavePhase::Done { saved: true })
        },
        SavePhase::StoreNetworks => match stored {
            Ok(_) => Ok(SavePhase::Done { saved: true }),
            Err(code) => Err(code),
        },
        SavePhase::Done { .. } => Ok(phase),
    }
}

impl SavePhase {
    /// How far the phase is from the end.
    pub open spec fn rank(self) -> nat {
        match self {
            SavePhase::Start => 5,
            SavePhase::Fabrics => 4,
            SavePhase::StoreFabrics => 3,
            SavePhase::Networks => 2,
            SavePhase::StoreNetworks => 1,
            SavePhase::Done { .. } => 0,
        }
    }

    /// What is stored in this phase.
    pub open spec fn spec_action(self) -> Option<PersistAction> {
        match self {
            SavePhase::StoreFabrics => Some(PersistAction::Store(MatterStackKey::Fabrics)),
            SavePhase::StoreNetworks => Some(PersistAction::Store(MatterStackKey::Networks)),
            _ => None,
        }
    }

    /// What is stored in this phase.
    pub fn action(self) -> (res: Option<PersistAction>)
        ensures
            res == self.spec_action(),
    {
        match self {
            SavePhase::StoreFabrics => Some(PersistAction::Store(MatterStackKey::Fabrics)),
            SavePhase::StoreNetworks => Some(PersistAction::Store(MatterStackKey::Networks)),
            _ => None,
        }
    }

    /// What follows the phase.
    pub fn next(
        self,
        fabrics_changed: bool,
        networks_changed: bool,
        stored: Result<(), ErrorCode>,
    ) -> (res: Result<Self, ErrorCode>)
        ensures
            res == save_next(self, fabrics_changed, networks_changed, stored),
    {
        match self {
            SavePhase::Start => {
                if MatterPersist::changed(fabrics_changed, networks_changed) {
                    Ok(SavePhase::Fabrics)
                } else {
                    Ok(SavePhase::Done { saved: false })
                }
            },
            SavePhase::Fabrics => {
                if fabrics_changed {
                    Ok(SavePhase::StoreFabrics)
                } else {
                    Ok(SavePhase::Networks)
                }
            },
            SavePhase::StoreFabrics => match stored {
                Ok(_) => Ok(SavePhase::Networks),
                Err(code) => Err(code),
            },
            SavePhase::Networks => {
                if networks_changed {
                    Ok(SavePhase::StoreNetworks)
                } else {
                    Ok(SavePhase::Done { saved: true })
                }
            },
            SavePhase::StoreNetworks => match stored {
                Ok(_) => Ok(SavePhase::Done { saved: true }),
                Err(code) => Err(code),
            },
            SavePhase::Done { .. } => Ok(self),
        }
    }
}

/// What is stored from a phase on, when nothing else changes meanwhile and nothing fails.
pub open spec fn save_actions(
    phase: SavePhase,
    fabrics_changed: bool,
    networks_changed: bool,
) -> Seq<PersistAction>
    decreases phase.rank(),
{
    let here = match phase.spec_action() {
        Some(action) => seq![action],
        None => Seq::empty(),
    };
    match save_next(phase, fabrics_changed, networks_changed, Ok(())) {
        Ok(next) => if next.rank() < phase.rank() {
            here + save_actions(next, fabrics_changed, networks_changed)
        } else {
            here
        },
        Err(_) => here,
    }
}

/// What has changed is stored, and nothing else: first the fabrics, then the networks.
pub proof fn lemma_save_stores_what_changed(fabrics_changed: bool, networks_changed: bool)
    ensures
        save_actions(SavePhase::Start, fabrics_changed, networks_changed) == (if fabrics_changed {
            seq![PersistAction::Store(MatterStackKey::Fabrics)]
        } else {
            Seq::empty()
        }) + (if networks_changed {
            seq![PersistAction::Store(MatterStackKey::Networks)]
        } else {
            Seq::empty()
        }),
{
    reveal_with_fuel(save_actions, 6);
    assert(save_actions(SavePhase::Start, fabrics_changed, networks_changed) =~= (
    if fabrics_changed {
        seq![PersistAction::Store(MatterStackKey::Fabrics)]
    } else {
        Seq::empty()
    }) + (if networks_changed {
        seq![PersistAction::Store(MatterStackKey::Networks)]
    } else {
        Seq::empty()
    }));
}

/// The saving comes to an end.
pub proof fn lemma_save_ends(
    phase: SavePhase,
    fabrics_changed: bool,
    networks_changed: bool,
    stored: Result<(), ErrorCode>,
)
    requires
        !(phase is Done),
    ensures
        save_next(phase, fabrics_changed, networks_changed, stored) matches Ok(next)
            ==> next.rank() < phase.rank(),
{
}

/// What is done to reset the Matter stack to the factory defaults.
pub open spec fn factory_reset_actions() -> Seq<PersistAction> {
    seq![PersistAction::ResetFabrics, PersistAction::ResetNetworks]
}

/// What is done to remove all that is stored, and all that is known.
pub open spec fn reset_actions() -> Seq<PersistAction> {
    seq![
        PersistAction::Remove(MatterStackKey::Fabrics),
        PersistAction::Remove(MatterStackKey::Networks),
        PersistAction::ResetFabrics,
        PersistAction::ResetNetworks,
    ]
}

/// What is done to load all that is stored.
pub open spec fn load_actions() -> Seq<PersistAction> {
    seq![
        PersistAction::Load(MatterStackKey::Fabrics),
        PersistAction::Load(MatterStackKey::Networks),
    ]
}

/// A persister for Matter that relies on a BLOB key-value storage.
pub struct MatterPersist;

impl MatterPersist {
    /// What is done to reset the Matter stack to the factory defaults: all ACLs, fabrics and
    /// networks are removed from it. The first failure ends it.
    pub fn factory_reset() -> (actions: Vec<PersistAction>)
        ensures
            actions@ == seq![PersistAction::ResetFabrics, PersistAction::ResetNetworks],
            actions@ == factory_reset_actions(),
    {
        let mut actions: Vec<PersistAction> = Vec::new();
        actions.push(PersistAction::ResetFabrics);
        actions.push(PersistAction::ResetNetworks);
        assert(actions@ =~= seq![PersistAction::ResetFabrics, PersistAction::ResetNetworks]);
        actions
    }

    /// What is done to remove all stored data from the non-volatile storage, as well as all ACLs,
    /// fabrics and networks from the Matter stack. The first failure ends it.
    pub fn reset() -> (actions: Vec<PersistAction>)
        ensures
            actions@ == seq![
                PersistAction::Remove(MatterStackKey::Fabrics),
                PersistAction::Remove(MatterStackKey::Networks),
                PersistAction::ResetFabrics,
                PersistAction::ResetNetworks,
            ],
            actions@ == reset_actions(),
    {
        let mut actions: Vec<PersistAction> = Vec::new();
        actions.push(PersistAction::Remove(MatterStackKey::Fabrics));
        actions.push(PersistAction::Remove(MatterStackKey::Networks));
        actions.push(PersistAction::ResetFabrics);
        actions.push(PersistAction::ResetNetworks);
        assert(actions@ =~= seq![
            PersistAction::Remove(MatterStackKey::Fabrics),
            PersistAction::Remove(MatterStackKey::Networks),
            PersistAction::ResetFabrics,
            PersistAction::ResetNetworks,
        ]);
        actions
    }

    /// What is done to load the Matter stack from the non-volatile storage. The first failure ends
    /// it.
    pub fn load() -> (actions: Vec<PersistAction>)
        ensures
            actions@ == seq![
                PersistAction::Load(MatterStackKey::Fabrics),
                PersistAction::Load(MatterStackKey::Networks),
            ],
            actions@ == load_actions(),
    {
        let mut actions: Vec<PersistAction> = Vec::new();
        actions.push(PersistAction::Load(MatterStackKey::Fabrics));
        actions.push(PersistAction::Load(MatterStackKey::Networks));
        assert(actions@ =~= seq![
            PersistAction::Load(MatterStackKey::Fabrics),
            PersistAction::Load(MatterStackKey::Networks),
        ]);
        actions
    }

    /// Return `true` if the Matter stack has changed since it was last stored.
    pub fn changed(fabrics_changed: bool, networks_changed: bool) -> (res: bool)
        ensures
            res == (fabrics_changed || networks_changed),
    {
        fabrics_changed || networks_changed
    }
}

} // verus!
