//! The registry of attached processes: it hands out opaque tokens and
//! resolves them again, so that the guest never holds an operating-system
//! handle.

use vstd::prelude::*;
use slotmap::{DefaultKey, Key, KeyData, SlotMap};
use sysinfo::System;
use crate::process::{
    is_chosen, lemma_selection_of_listing, new_system, none_named, processes_named, read_process,
    refresh_processes, select_process, system_processes, write_bytes, Address,
};

verus! {

/// A `SlotMap` of the slotmap crate, from generational keys to process ids.
/// Nothing inside it is visible to the proofs: what it holds goes by the
/// name `slot_entries`, and only the functions below, whose contracts are
/// taken on trust from the crate's source, read or change it.
#[verifier::external_body]
pub struct Slots {
    inner: SlotMap<DefaultKey, u32>,
}

/// The live entries of a slot map: each key, as the 64-bit number that
/// stands for it, with the value stored under it.
pub uninterp spec fn slot_entries(slots: Slots) -> Map<u64, u32>;

/// The map that holds no entry.
pub open spec fn no_entries() -> Map<u64, u32> {
    Map::empty()
}

/// The bit of a token that every key of a slot map has set: the lowest bit of
/// the generation, which is odd while the slot is occupied.
pub const OCCUPIED_BIT: u64 = 0x1_0000_0000;

/// The most entries a slot map takes.
pub const MAX_ENTRIES: usize = 0xFFFF_FFFE;

/// An empty slot map.
///
/// Calls `SlotMap::new`, which makes a map that holds no entry.
#[verifier::external_body]
fn slots_new() -> (made: Slots)
    ensures
        slot_entries(made) == no_entries(),
{
    Slots { inner: SlotMap::new() }
}

/// The number of live entries.
///
/// Calls `SlotMap::len`, which counts the occupied slots.
#[verifier::external_body]
fn slots_len(slots: &Slots) -> (count: usize)
    ensures
        count == slot_entries(*slots).len(),
{
    slots.inner.len()
}

/// Stores a value under a fresh key and returns the key as a number.
///
/// Calls `SlotMap::insert`, which panics only when the map is full. The key
/// it returns is not in use before the call, carries an odd generation, and
/// maps to the value afterwards; no other entry changes.
#[verifier::external_body]
fn slots_insert(slots: &mut Slots, value: u32) -> (key: u64)
    requires
        slot_entries(*old(slots)).dom().finite(),
        slot_entries(*old(slots)).len() < MAX_ENTRIES,
    ensures
        key & OCCUPIED_BIT != 0,
        !slot_entries(*old(slots)).contains_key(key),
        slot_entries(*final(slots)) == slot_entries(*old(slots)).insert(key, value),
{
    slots.inner.insert(value).data().as_ffi()
}

/// Looks a key up by its number.
///
/// Calls `KeyData::from_ffi`, which reads the number as a key after setting
/// the lowest generation bit, and `SlotMap::get`, which finds the value
/// stored under exactly that key.
#[verifier::external_body]
fn slots_get(slots: &Slots, key: u64) -> (value: Option<u32>)
    ensures
        value == if slot_entries(*slots).contains_key(key | OCCUPIED_BIT) {
            Some(slot_entries(*slots)[key | OCCUPIED_BIT])
        } else {
            None
        },
{
    slots.inner.get(DefaultKey::from(KeyData::from_ffi(key))).copied()
}

/// Removes the entry of a key given by its number.
///
/// Calls `KeyData::from_ffi` as the lookup does and `SlotMap::remove`, which
/// takes out the entry stored under exactly that key and returns its value,
/// and does nothing when there is none.
#[verifier::external_body]
fn slots_remove(slots: &mut Slots, key: u64) -> (value: Option<u32>)
    ensures
        value == if slot_entries(*old(slots)).contains_key(key | OCCUPIED_BIT) {
            Some(slot_entries(*old(slots))[key | OCCUPIED_BIT])
        } else {
            None
        },
        slot_entries(*final(slots)) == slot_entries(*old(slots)).remove(key | OCCUPIED_BIT),
{
    slots.inner.remove(DefaultKey::from(KeyData::from_ffi(key)))
}

/// The most bytes that one read asks the operating system for.
pub const MAX_READ: usize = 0x7FFF_FFFF;

/// The token that stands for "no process".
pub const NULL_TOKEN: u64 = 0;

/// Whether a number has the shape of a token that the registry may have
/// issued.
pub open spec fn well_shaped(token: u64) -> bool {
    token & OCCUPIED_BIT != 0
}

/// What holds of the tokens of every registry: they are finitely many and
/// all well shaped.
pub open spec fn tokens_valid(tokens: Map<u64, u32>) -> bool {
    &&& tokens.dom().finite()
    &&& forall|token: u64| #[trigger] tokens.contains_key(token) ==> well_shaped(token)
}

/// The null token is not well shaped, so no registry holds it.
pub proof fn lemma_null_token_never_live(tokens: Map<u64, u32>)
    requires
        tokens_valid(tokens),
    ensures
        !well_shaped(NULL_TOKEN),
        !tokens.contains_key(NULL_TOKEN),
{
    assert(0u64 & 0x1_0000_0000u64 == 0) by (bit_vector);
}

/// Why the registry refused a request.
#[derive(Debug, Copy, Clone, PartialEq, Eq, Structural)]
pub enum ProcessError {
    /// The token names no attached process.
    InvalidHandle,
    /// The read was not carried out in full.
    ReadFailed,
}

/// The attached processes, each under the token that the guest holds for it.
pub struct ProcessRegistry {
    slots: Slots,
    info: System,
}

impl View for ProcessRegistry {
    type V = Map<u64, u32>;

    /// The live tokens, each with the process id behind it.
    closed spec fn view(&self) -> Map<u64, u32> {
        slot_entries(self.slots)
    }
}

impl ProcessRegistry {
    /// The processes of the machine as the registry last read them: for each
    /// its id, its name and its start time.
    pub closed spec fn seen(&self) -> Set<(u32, Seq<char>, u64)> {
        system_processes(self.info)
    }

    /// The invariant of a registry: its tokens are valid.
    pub open spec fn wf(&self) -> bool {
        tokens_valid(self@)
    }

    /// A registry with no process attached.
    pub fn new() -> (registry: Self)
        ensures
            registry.wf(),
            registry@ == no_entries(),
    {
        ProcessRegistry { slots: slots_new(), info: new_system() }
    }

    /// The number of attached processes.
    pub fn len(&self) -> (len: usize)
        ensures
            len == self@.len(),
    {
        slots_len(&self.slots)
    }

    /// The process id behind a token, if the token is live.
    pub fn resolve(&self, token: u64) -> (pid: Option<u32>)
        requires
            self.wf(),
        ensures
            pid == if self@.contains_key(token) {
                Some(self@[token])
            } else {
                None
            },
    {
        if token & OCCUPIED_BIT == 0 {
            None
        } else {
            assert(token & OCCUPIED_BIT != 0 ==> token | OCCUPIED_BIT == token) by (bit_vector);
            slots_get(&self.slots, token)
        }
    }

    /// Registers a process and returns its token, or the null token when the
    /// registry is full. The token was not live before.
    pub fn insert(&mut self, pid: u32) -> (token: u64)
        requires
            old(self).wf(),
        ensures
            final(self).wf(),
            final(self).seen() == old(self).seen(),
            old(self)@.len() < MAX_ENTRIES ==> token != NULL_TOKEN && !old(self)@.contains_key(
                token,
            ) && final(self)@ == old(self)@.insert(token, pid),
            old(self)@.len() >= MAX_ENTRIES ==> token == NULL_TOKEN && *final(self) == *old(self),
    {
        if slots_len(&self.slots) < MAX_ENTRIES {
            let token = slots_insert(&mut self.slots, pid);
            assert(token & OCCUPIED_BIT != 0 ==> token != 0) by (bit_vector);
            token
        } else {
            NULL_TOKEN
        }
    }

    /// Forgets a token and returns the process id that was behind it. With a
    /// token that is not live nothing changes.
    pub fn remove(&mut self, token: u64) -> (pid: Option<u32>)
        requires
            old(self).wf(),
        ensures
            final(self).wf(),
            pid == if old(self)@.contains_key(token) {
                Some(old(self)@[token])
            } else {
                None
            },
            final(self)@ == old(self)@.remove(token),
            !old(self)@.contains_key(token) ==> *final(self) == *old(self),
    {
        if self.resolve(token).is_none() {
            assert(self@.remove(token) =~= self@);
            None
        } else {
            assert(token & OCCUPIED_BIT != 0 ==> token | OCCUPIED_BIT == token) by (bit_vector);
            slots_remove(&mut self.slots, token)
        }
    }

    /// Registers the process that a search found, if it found one, and
    /// returns its token; the null token when nothing was found or the
    /// registry is full.
    pub fn attach_found(&mut self, found: Option<u32>) -> (token: u64)
        requires
            old(self).wf(),
        ensures
            final(self).wf(),
            final(self).seen() == old(self).seen(),
            token != NULL_TOKEN <==> found is Some && old(self)@.len() < MAX_ENTRIES,
            token != NULL_TOKEN ==> !old(self)@.contains_key(token) && final(self)@ == old(
                self
            )@.insert(token, found->Some_0),
            token == NULL_TOKEN ==> *final(self) == *old(self),
    {
        match found {
            Some(pid) => self.insert(pid),
            None => NULL_TOKEN,
        }
    }

    /// Attaches to a running process by the name of its executable and
    /// returns a fresh token for it, or the null token when there is none.
    ///
    /// The empty name is no process's name, and the operating system is not
    /// asked about it. For any other name the process list is read anew, and
    /// what it then holds decides: the null token comes back when no process
    /// has exactly this name, or when the registry is full; otherwise the
    /// token stands for the process of this name that was started last, and
    /// among several started together for the one with the highest id.
    pub fn attach(&mut self, name: &String) -> (token: u64)
        requires
            old(self).wf(),
        ensures
            final(self).wf(),
            name@.len() == 0 ==> token == NULL_TOKEN && *final(self) == *old(self),
            token == NULL_TOKEN ==> final(self)@ == old(self)@,
            token != NULL_TOKEN ==> !old(self)@.contains_key(token) && exists|pid: u32|
                final(self)@ == old(self)@.insert(token, pid),
            name@.len() > 0 ==> (token == NULL_TOKEN <==> none_named(final(self).seen(), name@)
                || old(self)@.len() >= MAX_ENTRIES),
            name@.len() > 0 && token != NULL_TOKEN ==> exists|pid: u32|
                is_chosen(final(self).seen(), name@, pid) && final(self)@ == old(self)@.insert(
                    token,
                    pid,
                ),
    {
        if name.as_str().unicode_len() == 0 {
            return NULL_TOKEN;
        }
        refresh_processes(&mut self.info);
        let listed = processes_named(&self.info, name.as_str());
        let found = select_process(&listed, name);
        proof {
            lemma_selection_of_listing(listed@, self.seen(), name@);
            if let Some(pid) = found {
                let i = choose|i: int|
                    #[trigger] crate::process::is_selected(listed@, name@, i) && listed@[i].pid
                        == pid;
                assert(is_chosen(self.seen(), name@, pid));
            }
        }
        self.attach_found(found)
    }

    /// Detaches a process. A token that is not live is refused, and nothing
    /// changes.
    pub fn detach(&mut self, token: u64) -> (done: Result<(), ProcessError>)
        requires
            old(self).wf(),
        ensures
            final(self).wf(),
            old(self)@.contains_key(token) ==> done is Ok && final(self)@ == old(self)@.remove(
                token,
            ),
            !old(self)@.contains_key(token) ==> done == Err::<(), ProcessError>(
                ProcessError::InvalidHandle,
            ) && *final(self) == *old(self),
    {
        match self.remove(token) {
            Some(_) => Ok(()),
            None => Err(ProcessError::InvalidHandle),
        }
    }

    /// What a read returns once the token has been resolved and the
    /// operating system has answered: the bytes, or the reason for none.
    pub fn read_outcome(pid: Option<u32>, answer: Option<Vec<u8>>) -> (bytes: Result<
        Vec<u8>,
        ProcessError,
    >)
        ensures
            pid is None ==> bytes == Err::<Vec<u8>, ProcessError>(ProcessError::InvalidHandle),
            pid is Some && answer is None ==> bytes == Err::<Vec<u8>, ProcessError>(
                ProcessError::ReadFailed,
            ),
            pid is Some && answer is Some ==> bytes == Ok::<Vec<u8>, ProcessError>(
                answer->Some_0,
            ),
    {
        match pid {
            None => Err(ProcessError::InvalidHandle),
            Some(_) => match answer {
                None => Err(ProcessError::ReadFailed),
                Some(b) => Ok(b),
            },
        }
    }

    /// Reads `len` bytes at `address` from the process behind a token. All
    /// bytes come back or none: a token that is not live is refused, and so
    /// is a read that the operating system does not carry out or that asks
    /// for more than `MAX_READ` bytes.
    pub fn read_bytes(&self, token: u64, address: Address, len: usize) -> (bytes: Result<
        Vec<u8>,
        ProcessError,
    >)
        requires
            self.wf(),
        ensures
            !self@.contains_key(token) ==> bytes == Err::<Vec<u8>, ProcessError>(
                ProcessError::InvalidHandle,
            ),
            self@.contains_key(token) ==> bytes is Ok || bytes == Err::<Vec<u8>, ProcessError>(
                ProcessError::ReadFailed,
            ),
            self@.contains_key(token) && len > MAX_READ ==> bytes is Err,
            bytes matches Ok(b) ==> b@.len() == len,
    {
        match self.resolve(token) {
            None => Err(ProcessError::InvalidHandle),
            Some(pid) => {
                let answer = if len <= MAX_READ {
                    read_process(pid, address.0, len)
                } else {
                    None
                };
                Self::read_outcome(Some(pid), answer)
            },
        }
    }

    /// Fills `buf` from the memory of the process behind a token, starting
    /// at `address`. On any failure `buf` keeps its bytes.
    pub fn read(&self, token: u64, address: Address, buf: &mut [u8]) -> (done: Result<
        (),
        ProcessError,
    >)
        requires
            self.wf(),
        ensures
            final(buf)@.len() == old(buf)@.len(),
            !self@.contains_key(token) ==> done == Err::<(), ProcessError>(
                ProcessError::InvalidHandle,
            ),
            self@.contains_key(token) ==> done is Ok || done == Err::<(), ProcessError>(
                ProcessError::ReadFailed,
            ),
            done is Err ==> final(buf)@ == old(buf)@,
    {
        match self.read_bytes(token, address, buf.len()) {
            Ok(bytes) => {
                write_bytes(buf, 0, &bytes);
                Ok(())
            },
            Err(e) => Err(e),
        }
    }
}

/// One change of the registry's tokens.
#[derive(Debug, Copy, Clone, PartialEq, Eq, Structural)]
pub enum TokenChange {
    /// An attach that returned this token for this process id.
    Attached(u64, u32),
    /// A detach of this token.
    Detached(u64),
}

/// The tokens after one change.
pub open spec fn tokens_changed(tokens: Map<u64, u32>, change: TokenChange) -> Map<u64, u32> {
    match change {
        TokenChange::Attached(token, pid) => tokens.insert(token, pid),
        TokenChange::Detached(token) => tokens.remove(token),
    }
}

/// The tokens after a run of changes.
pub open spec fn tokens_after(tokens: Map<u64, u32>, changes: Seq<TokenChange>) -> Map<u64, u32>
    decreases changes.len(),
{
    if changes.len() == 0 {
        tokens
    } else {
        tokens_changed(tokens_after(tokens, changes.drop_last()), changes.last())
    }
}

/// Whether a run of changes is one that a registry can go through: every
/// attach returns a token that is not live at that moment.
pub open spec fn fresh_attaches(tokens: Map<u64, u32>, changes: Seq<TokenChange>) -> bool {
    forall|i: int|
        0 <= i < changes.len() ==> (#[trigger] changes[i] matches TokenChange::Attached(token, _)
            ==> !tokens_after(tokens, changes.take(i)).contains_key(token))
}

/// Whether no change in the run detaches the token.
pub open spec fn never_detached(changes: Seq<TokenChange>, token: u64) -> bool {
    forall|i: int| 0 <= i < changes.len() ==> #[trigger] changes[i] != TokenChange::Detached(token)
}

/// Whether no attach in the run returns the token.
pub open spec fn never_returned(changes: Seq<TokenChange>, token: u64) -> bool {
    forall|i: int|
        0 <= i < changes.len() ==> !(#[trigger] changes[i] matches TokenChange::Attached(t, _)
            && t == token)
}

/// A token that is live stays live, and stands for the same process, through
/// every run of attaches and detaches that does not detach it.
pub proof fn lemma_token_stays_live(
    tokens: Map<u64, u32>,
    changes: Seq<TokenChange>,
    token: u64,
    pid: u32,
)
    requires
        tokens.contains_pair(token, pid),
        fresh_attaches(tokens, changes),
        never_detached(changes, token),
    ensures
        tokens_after(tokens, changes).contains_pair(token, pid),
    decreases changes.len(),
{
    if changes.len() > 0 {
        let before = changes.drop_last();
        let n = changes.len() - 1;
        assert forall|i: int| 0 <= i < before.len() implies (#[trigger] before[i] matches
            TokenChange::Attached(t, _) ==> !tokens_after(tokens, before.take(i)).contains_key(t)) by {
            assert(before[i] == changes[i]);
            assert(before.take(i) =~= changes.take(i));
        }
        assert forall|i: int| 0 <= i < before.len() implies #[trigger] before[i]
            != TokenChange::Detached(token) by {
            assert(before[i] == changes[i]);
        }
        lemma_token_stays_live(tokens, before, token, pid);
        assert(changes.take(n) =~= before);
        assert(changes[n] == changes.last());
    }
}

/// A token that is not live stays so through every run of attaches and
/// detaches in which no attach returns that very token again.
pub proof fn lemma_token_stays_dead(tokens: Map<u64, u32>, changes: Seq<TokenChange>, token: u64)
    requires
        !tokens.contains_key(token),
        never_returned(changes, token),
    ensures
        !tokens_after(tokens, changes).contains_key(token),
    decreases changes.len(),
{
    if changes.len() > 0 {
        let before = changes.drop_last();
        assert forall|i: int| 0 <= i < before.len() implies !(#[trigger] before[i] matches
            TokenChange::Attached(t, _) && t == token) by {
            assert(before[i] == changes[i]);
        }
        lemma_token_stays_dead(tokens, before, token);
        assert(changes[changes.len() - 1] == changes.last());
    }
}

/// The life of a token: from the attach that returns it the token resolves
/// to its process until it is detached, and from its detach on it resolves
/// to nothing for as long as no attach returns it again.
pub proof fn lemma_token_lifetime(
    tokens: Map<u64, u32>,
    held: Seq<TokenChange>,
    gone: Seq<TokenChange>,
    token: u64,
    pid: u32,
)
    requires
        fresh_attaches(tokens.insert(token, pid), held),
        never_detached(held, token),
        never_returned(gone, token),
    ensures
        tokens_after(tokens_changed(tokens, TokenChange::Attached(token, pid)), held).contains_pair(
            token,
            pid,
        ),
        !tokens_after(
            tokens_changed(
                tokens_after(tokens_changed(tokens, TokenChange::Attached(token, pid)), held),
                TokenChange::Detached(token),
            ),
            gone,
        ).contains_key(token),
{
    let attached = tokens_changed(tokens, TokenChange::Attached(token, pid));
    lemma_token_stays_live(attached, held, token, pid);
    let detached = tokens_changed(tokens_after(attached, held), TokenChange::Detached(token));
    lemma_token_stays_dead(detached, gone, token);
}

} // verus!
