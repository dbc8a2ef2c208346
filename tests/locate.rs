use remote_process::{
    collect_modules, module_count, process_count, select_process, ModuleRecord, Process,
    ProcessEntry, ProcessError, ProcessModule, MAX_MODULES, MAX_PROCESSES,
};

fn entry(pid: u32, name: Option<&str>) -> ProcessEntry {
    ProcessEntry { pid, name: name.map(|n| n.to_string()) }
}

fn table() -> Vec<ProcessEntry> {
    vec![
        entry(4, None),
        entry(100, Some("explorer.exe")),
        entry(200, Some("ffxiv_dx11.exe")),
        entry(300, Some("ffxiv_dx11.exe")),
    ]
}

fn module(name: &str, base: u64, size: usize) -> ModuleRecord {
    ModuleRecord { name: Ok(name.to_string()), info: Ok((base, size)) }
}

#[test]
fn present_target_is_located_with_main_module_first() {
    let entries = table();
    let i = select_process("ffxiv_dx11.exe", &entries).unwrap();
    assert_eq!(i, 2);
    assert_eq!(entries[i].pid, 200);
    let records = vec![
        module("ffxiv_dx11.exe", 0x1_4000_0000, 0x200_0000),
        module("ntdll.dll", 0x7ff8_0000_0000, 0x1f_0000),
    ];
    let modules = collect_modules(0x1c4, &records).unwrap();
    let p = Process::assemble("ffxiv_dx11.exe".to_string(), 0x1c4, 0x1c4, modules).unwrap();
    assert!(!p.modules.is_empty());
    assert_eq!(p.modules[0].name, p.name);
    assert_eq!(p.modules[0].base, 0x1_4000_0000);
    assert_eq!(p.modules[1].size, 0x1f_0000);
}

#[test]
fn absent_target_is_not_found() {
    let entries = table();
    assert_eq!(
        select_process("notepad.exe", &entries),
        Err(ProcessError::NotFound("notepad.exe".to_string()))
    );
    assert_eq!(
        select_process("anything.exe", &vec![]),
        Err(ProcessError::NotFound("anything.exe".to_string()))
    );
}

#[test]
fn name_match_is_case_sensitive() {
    let entries = table();
    assert_eq!(
        select_process("FFXIV_DX11.EXE", &entries),
        Err(ProcessError::NotFound("FFXIV_DX11.EXE".to_string()))
    );
}

#[test]
fn unopened_processes_are_skipped() {
    let entries = vec![entry(1, None), entry(2, None), entry(3, Some("game.exe"))];
    assert_eq!(select_process("game.exe", &entries), Ok(2));
}

#[test]
fn process_snapshot_within_bound_counts_entries() {
    assert_eq!(process_count(40, 1024), Ok(10));
    assert_eq!(process_count(0, 1024), Ok(0));
    assert_eq!(process_count(4 * 1023, 1024), Ok(1023));
}

#[test]
fn process_snapshot_overflow_is_reported() {
    assert_eq!(process_count(4 * 1024, 1024), Err(ProcessError::TooManyProcesses(1024)));
    let full = (4 * MAX_PROCESSES) as u32;
    assert_eq!(
        process_count(full, MAX_PROCESSES),
        Err(ProcessError::TooManyProcesses(MAX_PROCESSES))
    );
}

#[test]
fn module_listing_overflow_is_reported() {
    assert_eq!(module_count(7, 8 * 3, 1024), Ok(3));
    assert_eq!(module_count(7, 8 * 1024, 1024), Err(ProcessError::TooManyModules(7, 1024)));
    let needed = (8 * (MAX_MODULES + 5)) as u32;
    assert_eq!(
        module_count(7, needed, MAX_MODULES),
        Err(ProcessError::TooManyModules(7, MAX_MODULES))
    );
}

#[test]
fn module_name_failure_aborts_listing() {
    let records = vec![
        module("game.exe", 0x400000, 0x1000),
        ModuleRecord { name: Err(5), info: Err(6) },
        module("late.dll", 0x500000, 0x1000),
    ];
    assert_eq!(collect_modules(0x33, &records).err(), Some(ProcessError::ModuleName(0x33, 5)));
}

#[test]
fn module_information_failure_names_module() {
    let records = vec![
        module("game.exe", 0x400000, 0x1000),
        ModuleRecord { name: Ok("broken.dll".to_string()), info: Err(299) },
    ];
    assert_eq!(
        collect_modules(0x33, &records).err(),
        Some(ProcessError::ModuleInformation("broken.dll".to_string(), 299))
    );
}

#[test]
fn module_listing_keeps_enumeration_order() {
    let records = vec![module("a.exe", 1, 2), module("b.dll", 3, 4), module("c.dll", 5, 6)];
    let modules = collect_modules(1, &records).unwrap();
    let names: Vec<&str> = modules.iter().map(|m| m.name.as_str()).collect();
    assert_eq!(names, vec!["a.exe", "b.dll", "c.dll"]);
    assert_eq!(modules[2].base, 5);
    assert_eq!(modules[2].size, 6);
}

#[test]
fn empty_module_list_is_refused() {
    let r = Process::assemble("game.exe".to_string(), 9, 9, Vec::<ProcessModule>::new());
    assert_eq!(r.err(), Some(ProcessError::NoModules(9)));
}
