use vstd::prelude::*;

use crate::error::ProcessError;

verus! {

/// The most process identifiers that one snapshot holds.
pub const MAX_PROCESSES: usize = 4096;

/// The most module handles that one listing holds.
pub const MAX_MODULES: usize = 1024;

/// One loaded image inside a process.
#[derive(Debug, Clone, Default)]
pub struct ProcessModule {
    pub name: String,
    pub base: u64,
    pub size: usize,
}

/// A located process: its executable name, the OS handle that grants read and
/// query rights, and its modules in enumeration order (module 0 is the main image).
#[derive(Debug, Clone)]
pub struct Process {
    pub name: String,
    pub handle: u64,
    pub modules: Vec<ProcessModule>,
}

/// What probing one process identifier gave: the base name of its main image,
/// or nothing when the process could not be opened or queried.
#[derive(Debug, Clone)]
pub struct ProcessEntry {
    pub pid: u32,
    pub name: Option<String>,
}

/// What the three queries on one module handle gave: its name and then its
/// base address and image size, or the OS error code of the query that failed.
#[derive(Debug)]
pub struct ModuleRecord {
    pub name: Result<String, u32>,
    pub info: Result<(u64, usize), u32>,
}

impl Process {
    /// A located process holds at least one module.
    pub open spec fn wf(&self) -> bool {
        self.modules@.len() > 0
    }

    /// The process named `name`, open through `handle`, with these modules.
    /// An empty module list cannot belong to a live process and is refused
    /// with `NoModules`, which names the handle by `handle_id`, its 32-bit
    /// form as every error reports it.
    pub fn assemble(name: String, handle: u64, handle_id: u32, modules: Vec<ProcessModule>) -> (r: Result<Process, ProcessError>)
        ensures
            modules@.len() == 0 <==> r == Err::<Process, ProcessError>(ProcessError::NoModules(handle_id)),
            r matches Ok(p) ==> p.wf() && p.name == name && p.handle == handle && p.modules@ == modules@,
            modules@.len() > 0 ==> r is Ok,
    {
        if modules.len() == 0 {
            Err(ProcessError::NoModules(handle_id))
        } else {
            Ok(Process { name, handle, modules })
        }
    }
}

/// Whether the entry names the target exactly (case-sensitive).
pub open spec fn entry_matches(e: ProcessEntry, target: Seq<char>) -> bool {
    match e.name {
        Some(n) => n@ == target,
        None => false,
    }
}

/// The index of the first entry that names the target, if any.
pub open spec fn first_match(entries: Seq<ProcessEntry>, target: Seq<char>) -> Option<int>
    decreases entries.len(),
{
    if entries.len() == 0 {
        None
    } else if entry_matches(entries.last(), target) && first_match(entries.drop_last(), target) is None {
        Some(entries.len() - 1)
    } else {
        first_match(entries.drop_last(), target)
    }
}

/// Number of entries in a listing whose call reported `needed_bytes`, when the
/// buffer held `capacity` entries of `entry_size` bytes; none when the listing
/// may have been cut short (the call needed the whole buffer or more).
pub open spec fn listed_count(needed_bytes: nat, capacity: nat, entry_size: nat) -> Option<nat> {
    if needed_bytes >= capacity * entry_size {
        None
    } else {
        Some(needed_bytes / entry_size)
    }
}

fn listing_count(needed_bytes: u32, capacity: usize, entry_size: usize) -> (r: Option<usize>)
    requires
        0 < entry_size,
        capacity * entry_size <= usize::MAX,
    ensures
        r matches Some(n) ==> listed_count(needed_bytes as nat, capacity as nat, entry_size as nat) == Some(n as nat),
        r is None <==> listed_count(needed_bytes as nat, capacity as nat, entry_size as nat) is None,
        r matches Some(n) ==> n < capacity,
{
    let total: usize = capacity * entry_size;
    if needed_bytes as u64 >= total as u64 {
        None
    } else {
        let n: usize = needed_bytes as usize / entry_size;
        assert(n < capacity) by (nonlinear_arith)
            requires n == needed_bytes as usize / entry_size, (needed_bytes as int) < capacity * entry_size, 0 < entry_size;
        Some(n)
    }
}

/// Number of process identifiers in a snapshot taken into a buffer of
/// `capacity` 32-bit entries, of which the call reported `needed_bytes` filled.
/// A snapshot that filled the whole buffer may have been cut short and is
/// reported as `TooManyProcesses`, never truncated silently.
pub fn process_count(needed_bytes: u32, capacity: usize) -> (r: Result<usize, ProcessError>)
    requires
        capacity <= MAX_PROCESSES,
    ensures
        match listed_count(needed_bytes as nat, capacity as nat, 4) {
            Some(n) => r == Ok::<usize, ProcessError>(n as usize),
            None => r == Err::<usize, ProcessError>(ProcessError::TooManyProcesses(capacity)),
        },
{
    match listing_count(needed_bytes, capacity, 4) {
        Some(n) => Ok(n),
        None => Err(ProcessError::TooManyProcesses(capacity)),
    }
}

/// Number of module handles in a listing of process `handle` taken into a
/// buffer of `capacity` 8-byte entries, of which the call reported it needed
/// `needed_bytes`. A listing that needed the whole buffer or more is reported
/// as `TooManyModules`, never truncated silently.
pub fn module_count(handle: u32, needed_bytes: u32, capacity: usize) -> (r: Result<usize, ProcessError>)
    requires
        capacity <= MAX_MODULES,
    ensures
        match listed_count(needed_bytes as nat, capacity as nat, 8) {
            Some(n) => r == Ok::<usize, ProcessError>(n as usize),
            None => r == Err::<usize, ProcessError>(ProcessError::TooManyModules(handle, capacity)),
        },
{
    match listing_count(needed_bytes, capacity, 8) {
        Some(n) => Ok(n),
        None => Err(ProcessError::TooManyModules(handle, capacity)),
    }
}

/// The entry to attach to: the first one whose image name equals `target`
/// exactly. Entries that could not be opened are skipped; with no match the
/// result is `NotFound(target)`.
pub fn select_process(target: &str, entries: &Vec<ProcessEntry>) -> (r: Result<usize, ProcessError>)
    ensures
        match first_match(entries@, target@) {
            Some(i) => r == Ok::<usize, ProcessError>(i as usize),
            None => r matches Err(ProcessError::NotFound(s)) && s@ == target@,
        },
{
    let t = String::from_str(target);
    let mut i: usize = 0;
    while i < entries.len()
        invariant
            i <= entries@.len(),
            t@ == target@,
            first_match(entries@.take(i as int), target@) is None,
        decreases entries@.len() - i,
    {
        let hit = match &entries[i].name {
            Some(n) => *n == t,
            None => false,
        };
        proof {
            assert(entries@.take(i as int + 1).drop_last() == entries@.take(i as int));
            assert(entries@.take(i as int + 1).last() == entries@[i as int]);
        }
        if hit {
            proof { lemma_first_match_prefix(entries@, target@, i as int + 1); }
            return Ok(i);
        }
        i = i + 1;
    }
    proof { assert(entries@.take(i as int) == entries@); }
    Err(ProcessError::NotFound(t))
}

/// What a module listing yields, given the query outcomes for each module
/// handle in enumeration order: the first failed query aborts the listing
/// (the name query of a module before its information query), else every
/// module in order.
pub open spec fn listed_modules(handle: u32, records: Seq<ModuleRecord>) -> Result<Seq<ProcessModule>, ProcessError>
    decreases records.len(),
{
    if records.len() == 0 {
        Ok(Seq::empty())
    } else {
        match listed_modules(handle, records.drop_last()) {
            Err(e) => Err(e),
            Ok(prefix) => match records.last().name {
                Err(code) => Err(ProcessError::ModuleName(handle, code)),
                Ok(name) => match records.last().info {
                    Err(code) => Err(ProcessError::ModuleInformation(name, code)),
                    Ok((base, size)) => Ok(prefix.push(ProcessModule { name, base, size })),
                },
            },
        }
    }
}

/// The module list of process `handle` from the outcomes of the name and
/// information queries on each of its module handles. Any failed query aborts
/// the whole listing with the error naming it; no partial list is returned.
pub fn collect_modules(handle: u32, records: &Vec<ModuleRecord>) -> (r: Result<Vec<ProcessModule>, ProcessError>)
    ensures
        match listed_modules(handle, records@) {
            Ok(ms) => r matches Ok(v) && v@ == ms,
            Err(e) => r == Err::<Vec<ProcessModule>, ProcessError>(e),
        },
{
    let mut out: Vec<ProcessModule> = Vec::new();
    let mut i: usize = 0;
    while i < records.len()
        invariant
            i <= records@.len(),
            listed_modules(handle, records@.take(i as int)) == Ok::<Seq<ProcessModule>, ProcessError>(out@),
        decreases records@.len() - i,
    {
        proof {
            assert(records@.take(i as int + 1).drop_last() == records@.take(i as int));
            assert(records@.take(i as int + 1).last() == records@[i as int]);
        }
        let rec = &records[i];
        match &rec.name {
            Err(code) => {
                proof { lemma_listing_error_stays(handle, records@, i as int + 1); }
                return Err(ProcessError::ModuleName(handle, *code));
            },
            Ok(name) => match &rec.info {
                Err(code) => {
                    let n = name.clone();
                    proof { lemma_listing_error_stays(handle, records@, i as int + 1); }
                    return Err(ProcessError::ModuleInformation(n, *code));
                },
                Ok((base, size)) => {
                    out.push(ProcessModule { name: name.clone(), base: *base, size: *size });
                },
            },
        }
        i = i + 1;
    }
    proof { assert(records@.take(i as int) == records@); }
    Ok(out)
}

/// A listing that failed on a prefix fails with the same error on the whole.
proof fn lemma_listing_error_stays(handle: u32, records: Seq<ModuleRecord>, k: int)
    requires
        0 <= k <= records.len(),
        listed_modules(handle, records.take(k)) is Err,
    ensures
        listed_modules(handle, records) == listed_modules(handle, records.take(k)),
    decreases records.len(),
{
    if k < records.len() {
        assert(records.drop_last().take(k) == records.take(k));
        lemma_listing_error_stays(handle, records.drop_last(), k);
    } else {
        assert(records.take(k) == records);
    }
}

/// A target present in the table is found, at an entry that names it; and
/// when the module listing of that process succeeds and starts with its main
/// image, the listing is non-empty and module 0 bears the located name.
pub proof fn lemma_present_target_located(
    target: Seq<char>,
    entries: Seq<ProcessEntry>,
    handle: u32,
    records: Seq<ModuleRecord>,
)
    requires
        exists|i: int| 0 <= i < entries.len() && entry_matches(#[trigger] entries[i], target),
        records.len() > 0,
        records[0].name matches Ok(n) && n@ == target,
        listed_modules(handle, records) is Ok,
    ensures
        first_match(entries, target) matches Some(i) && 0 <= i < entries.len() && entry_matches(entries[i], target),
        listed_modules(handle, records) matches Ok(ms) && ms.len() > 0 && ms[0].name@ == target,
{
    let i = choose|i: int| 0 <= i < entries.len() && entry_matches(#[trigger] entries[i], target);
    lemma_first_match_found(entries, target, i);
    lemma_listing_keeps_first(handle, records);
}

/// A target that no entry names is never found: locating it ends in
/// `NotFound` for that name and in no other error.
pub proof fn lemma_absent_target_not_found(target: Seq<char>, entries: Seq<ProcessEntry>)
    requires
        forall|i: int| 0 <= i < entries.len() ==> !entry_matches(#[trigger] entries[i], target),
    ensures
        first_match(entries, target) is None,
    decreases entries.len(),
{
    if entries.len() > 0 {
        assert(!entry_matches(entries[entries.len() - 1], target));
        assert forall|i: int| 0 <= i < entries.drop_last().len() implies !entry_matches(#[trigger] entries.drop_last()[i], target) by {
            assert(entries.drop_last()[i] == entries[i]);
        }
        lemma_absent_target_not_found(target, entries.drop_last());
    }
}

proof fn lemma_first_match_found(entries: Seq<ProcessEntry>, target: Seq<char>, j: int)
    requires
        0 <= j < entries.len(),
        entry_matches(entries[j], target),
    ensures
        first_match(entries, target) matches Some(i) && 0 <= i <= j && entry_matches(entries[i], target),
    decreases entries.len(),
{
    if j < entries.len() - 1 {
        assert(entries.drop_last()[j] == entries[j]);
        lemma_first_match_found(entries.drop_last(), target, j);
        let i = first_match(entries.drop_last(), target)->Some_0;
        assert(entries.drop_last()[i] == entries[i]);
    } else {
        if first_match(entries.drop_last(), target) is Some {
            lemma_first_match_in_range(entries.drop_last(), target);
            let i = first_match(entries.drop_last(), target)->Some_0;
            assert(entries.drop_last()[i] == entries[i]);
        }
    }
}

proof fn lemma_first_match_in_range(entries: Seq<ProcessEntry>, target: Seq<char>)
    requires
        first_match(entries, target) is Some,
    ensures
        first_match(entries, target) matches Some(i) && 0 <= i < entries.len() && entry_matches(entries[i], target),
    decreases entries.len(),
{
    if entries.len() > 0 && first_match(entries.drop_last(), target) is Some {
        lemma_first_match_in_range(entries.drop_last(), target);
        let i = first_match(entries.drop_last(), target)->Some_0;
        assert(entries.drop_last()[i] == entries[i]);
    }
}

proof fn lemma_listing_keeps_first(handle: u32, records: Seq<ModuleRecord>)
    requires
        records.len() > 0,
        listed_modules(handle, records) is Ok,
    ensures
        listed_modules(handle, records) matches Ok(ms) && ms.len() == records.len()
            && records[0].name == Ok::<String, u32>(ms[0].name),
    decreases records.len(),
{
    let prefix = listed_modules(handle, records.drop_last());
    assert(prefix is Ok);
    let ms = listed_modules(handle, records)->Ok_0;
    assert(ms == prefix->Ok_0.push(ms.last()));
    if records.len() > 1 {
        lemma_listing_keeps_first(handle, records.drop_last());
        assert(records.drop_last()[0] == records[0]);
        assert(ms[0] == prefix->Ok_0[0]);
    } else {
        assert(records.drop_last().len() == 0);
        assert(prefix->Ok_0.len() == 0);
    }
}

/// A first match found in a prefix is the first match of the whole sequence.
proof fn lemma_first_match_prefix(entries: Seq<ProcessEntry>, target: Seq<char>, k: int)
    requires
        0 <= k <= entries.len(),
        first_match(entries.take(k), target) is Some,
    ensures
        first_match(entries, target) == first_match(entries.take(k), target),
    decreases entries.len(),
{
    if k < entries.len() {
        assert(entries.drop_last().take(k) == entries.take(k));
        lemma_first_match_prefix(entries.drop_last(), target, k);
    } else {
        assert(entries.take(k) == entries);
    }
}

} // verus!
