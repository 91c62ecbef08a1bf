//! The processes of the machine as the registry sees them: a listing by
//! name, the choice among several of one name, and reads from the address
//! space of one of them.

use vstd::prelude::*;
use read_process_memory::{Pid, ProcessHandle};
use sysinfo::{AsU32, ProcessExt, System, SystemExt};

verus! {

/// The `System` of the sysinfo crate, which holds what was last read of the
/// machine's processes. Nothing inside it is visible to the proofs.
#[verifier::external_type_specification]
#[verifier::external_body]
pub struct ExSystem(System);

/// An address in the memory of an attached process.
#[derive(Debug, Copy, Clone, PartialEq, Eq, Structural)]
pub struct Address(pub u64);

/// One running process: the name of its executable, its id, and the time it
/// was started at, in seconds.
#[derive(Debug)]
pub struct ProcessEntry {
    pub name: String,
    pub pid: u32,
    pub start_time: u64,
}

/// What a `System` holds of the machine's processes since it was last
/// refreshed: for each process its id, the name of its executable and its
/// start time.
pub uninterp spec fn system_processes(info: System) -> Set<(u32, Seq<char>, u64)>;

/// An entry as the triple of its id, name and start time.
pub open spec fn entry_triple(entry: ProcessEntry) -> (u32, Seq<char>, u64) {
    (entry.pid, entry.name@, entry.start_time)
}

/// Whether every entry of a listing is a process that is held.
pub open spec fn listing_sound(listed: Seq<ProcessEntry>, held: Set<(u32, Seq<char>, u64)>) -> bool {
    forall|i: int| 0 <= i < listed.len() ==> held.contains(#[trigger] entry_triple(listed[i]))
}

/// Whether a listing has every process that is held under exactly this
/// name.
pub open spec fn listing_complete(
    listed: Seq<ProcessEntry>,
    held: Set<(u32, Seq<char>, u64)>,
    name: Seq<char>,
) -> bool {
    forall|process: (u32, Seq<char>, u64)| #[trigger]
        held.contains(process) && process.1 == name ==> exists|i: int|
            0 <= i < listed.len() && #[trigger] entry_triple(listed[i]) == process
}

/// Whether no process that is held has exactly this name.
pub open spec fn none_named(held: Set<(u32, Seq<char>, u64)>, name: Seq<char>) -> bool {
    forall|process: (u32, Seq<char>, u64)| #[trigger] held.contains(process) ==> process.1 != name
}

/// Whether `pid` is the process to attach to among those held: it has
/// exactly this name, and of all that have it, it was started last and,
/// among those started together, has the highest id.
pub open spec fn is_chosen(held: Set<(u32, Seq<char>, u64)>, name: Seq<char>, pid: u32) -> bool {
    exists|start: u64|
        #![trigger held.contains((pid, name, start))]
        held.contains((pid, name, start)) && forall|other: (u32, Seq<char>, u64)| #[trigger]
            held.contains(other) && other.1 == name ==> start > other.2 || (start == other.2
                && pid >= other.0)
}

/// What `select_process` finds in a sound and complete listing is what is
/// to be found among the processes held: nothing exactly when none has the
/// name, and otherwise the one that is chosen.
pub proof fn lemma_selection_of_listing(
    listed: Seq<ProcessEntry>,
    held: Set<(u32, Seq<char>, u64)>,
    name: Seq<char>,
)
    requires
        listing_sound(listed, held),
        listing_complete(listed, held, name),
    ensures
        none_named(held, name) <==> forall|j: int| !matches_name(listed, name, j),
        forall|i: int| #[trigger]
            is_selected(listed, name, i) ==> is_chosen(held, name, listed[i].pid),
{
    if forall|j: int| !matches_name(listed, name, j) {
        assert forall|process: (u32, Seq<char>, u64)| #[trigger]
            held.contains(process) implies process.1 != name by {
            if process.1 == name {
                let i = choose|i: int|
                    0 <= i < listed.len() && #[trigger] entry_triple(listed[i]) == process;
                assert(matches_name(listed, name, i));
            }
        }
    }
    if none_named(held, name) {
        assert forall|j: int| !matches_name(listed, name, j) by {
            if matches_name(listed, name, j) {
                assert(held.contains(entry_triple(listed[j])));
            }
        }
    }
    assert forall|i: int| #[trigger] is_selected(listed, name, i) implies is_chosen(
        held,
        name,
        listed[i].pid,
    ) by {
        let pid = listed[i].pid;
        let start = listed[i].start_time;
        assert(matches_name(listed, name, i));
        assert(held.contains(entry_triple(listed[i])));
        assert(entry_triple(listed[i]) == (pid, name, start));
        assert forall|other: (u32, Seq<char>, u64)| #[trigger]
            held.contains(other) && other.1 == name implies start > other.2 || (start == other.2
            && pid >= other.0) by {
            let j = choose|j: int|
                0 <= j < listed.len() && #[trigger] entry_triple(listed[j]) == other;
            assert(matches_name(listed, name, j));
            assert(preferred(listed[i], listed[j]));
        }
        assert(held.contains((pid, name, start)));
    }
}

/// Whether the entry at `i` carries the name that is looked for.
pub open spec fn matches_name(listed: Seq<ProcessEntry>, name: Seq<char>, i: int) -> bool {
    0 <= i < listed.len() && listed[i].name@ == name
}

/// Whether process `a` is preferred to process `b` or equal to it: the one
/// started later wins, and among those started together the higher id.
pub open spec fn preferred(a: ProcessEntry, b: ProcessEntry) -> bool {
    a.start_time > b.start_time || (a.start_time == b.start_time && a.pid >= b.pid)
}

/// Whether the entry at `i` is the one to attach to: it carries the name, and
/// no other entry of that name is preferred to it.
pub open spec fn is_selected(listed: Seq<ProcessEntry>, name: Seq<char>, i: int) -> bool {
    &&& matches_name(listed, name, i)
    &&& forall|j: int| #[trigger] matches_name(listed, name, j) ==> preferred(listed[i], listed[j])
}

/// The choice does not depend on the order of the listing: any two entries
/// that are selected are the same process.
pub proof fn lemma_selection_unique(listed: Seq<ProcessEntry>, name: Seq<char>, i: int, j: int)
    requires
        is_selected(listed, name, i),
        is_selected(listed, name, j),
    ensures
        listed[i].pid == listed[j].pid,
        listed[i].start_time == listed[j].start_time,
{
    assert(matches_name(listed, name, i));
    assert(matches_name(listed, name, j));
}

/// Chooses the process to attach to among those listed: of the entries with
/// exactly this name the one started last, and of several started together
/// the one with the highest id. Gives its id, or nothing when no entry has
/// the name.
pub fn select_process(listed: &Vec<ProcessEntry>, name: &String) -> (pid: Option<u32>)
    ensures
        pid is None <==> forall|j: int| !matches_name(listed@, name@, j),
        pid matches Some(p) ==> exists|i: int| #[trigger]
            is_selected(listed@, name@, i) && listed@[i].pid == p,
{
    let mut best: Option<usize> = None;
    let mut i: usize = 0;
    while i < listed.len()
        invariant
            i <= listed.len(),
            best is None ==> forall|j: int| 0 <= j < i ==> !matches_name(listed@, name@, j),
            best matches Some(b) ==> b < i && matches_name(listed@, name@, b as int) && forall|
                j: int,
            |
                0 <= j < i && #[trigger] matches_name(listed@, name@, j) ==> preferred(
                    listed@[b as int],
                    listed@[j],
                ),
        decreases listed.len() - i,
    {
        if listed[i].name == *name {
            let better = match best {
                None => true,
                Some(b) => listed[i].start_time > listed[b].start_time || (listed[i].start_time
                    == listed[b].start_time && listed[i].pid >= listed[b].pid),
            };
            if better {
                best = Some(i);
            }
        }
        i = i + 1;
    }
    match best {
        None => None,
        Some(b) => {
            assert(is_selected(listed@, name@, b as int));
            Some(listed[b].pid)
        },
    }
}

/// A view of the machine's processes that lists nothing yet.
///
/// Calls `System::new` of sysinfo.
#[verifier::external_body]
pub(crate) fn new_system() -> System {
    System::new()
}

/// Reads the list of running processes anew.
///
/// Calls `SystemExt::refresh_processes` of sysinfo.
#[verifier::external_body]
pub(crate) fn refresh_processes(info: &mut System) {
    info.refresh_processes();
}

/// The processes that sysinfo lists for a name, each with its name, id and
/// start time.
///
/// Calls `SystemExt::process_by_name` of sysinfo, which walks the processes
/// that the `System` holds and lists those whose name holds `name`, in no
/// particular order. So every entry is a process that is held, and every
/// process held under exactly this name is listed; which processes are held
/// depends on the machine, and nothing is promised of that.
#[verifier::external_body]
pub(crate) fn processes_named(info: &System, name: &str) -> (listed: Vec<ProcessEntry>)
    ensures
        listing_sound(listed@, system_processes(*info)),
        listing_complete(listed@, system_processes(*info), name@),
{
    let found = info.process_by_name(name);
    found.into_iter().map(|p| ProcessEntry {
        name: p.name().to_owned(),
        pid: p.pid().as_u32(),
        start_time: p.start_time(),
    }).collect()
}

/// Reads `len` bytes at `address` from the memory of process `pid`, or
/// nothing when the operating system refuses.
///
/// Calls `ProcessHandle::try_from` and `copy_address` of
/// read_process_memory; the latter allocates a buffer of the length asked
/// for and on success returns it filled.
#[verifier::external_body]
pub(crate) fn read_process(pid: u32, address: u64, len: usize) -> (bytes: Option<Vec<u8>>)
    requires
        len <= 0x7FFF_FFFF,
    ensures
        bytes matches Some(b) ==> b@.len() == len,
{
    let handle = ProcessHandle::try_from(pid as Pid).ok()?;
    read_process_memory::copy_address(address as usize, len, &handle).ok()
}

/// Writes `bytes` into `memory` from `start` on and leaves the rest as it is.
pub fn write_bytes(memory: &mut [u8], start: usize, bytes: &Vec<u8>)
    requires
        start + bytes@.len() <= old(memory)@.len(),
    ensures
        final(memory)@.len() == old(memory)@.len(),
        final(memory)@ == old(memory)@.subrange(0, start as int) + bytes@ + old(memory)@.subrange(
            start + bytes@.len(),
            old(memory)@.len() as int,
        ),
{
    let size: usize = memory.len();
    let mut i: usize = 0;
    while i < bytes.len()
        invariant
            i <= bytes@.len(),
            start + bytes@.len() <= memory@.len(),
            memory@.len() == size,
            memory@.len() == old(memory)@.len(),
            forall|k: int| 0 <= k < start ==> memory@[k] == old(memory)@[k],
            forall|k: int| start <= k < start + i ==> memory@[k] == bytes@[k - start],
            forall|k: int| start + i <= k < memory@.len() ==> memory@[k] == old(memory)@[k],
        decreases bytes@.len() - i,
    {
        memory[start + i] = bytes[i];
        i = i + 1;
    }
    assert(memory@ =~= old(memory)@.subrange(0, start as int) + bytes@ + old(memory)@.subrange(
        start + bytes@.len(),
        old(memory)@.len() as int,
    ));
}

} // verus!
