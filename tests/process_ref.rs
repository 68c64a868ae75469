use std::collections::hash_map::DefaultHasher;
use std::hash::{Hash, Hasher};

use process_ref::{
    eq_ignore_ascii_case, has_extension, normalize_target, visible_modules, EnumerationStep, LookupStep,
    ModuleEnumeration, ModuleSearch, OsCallError, ProcessRef, CURRENT_PROCESS_PSEUDO_HANDLE, DEFAULT_EXIT_CODE,
    DEFAULT_MODULE_CAPACITY,
};

fn hash_of(p: &ProcessRef) -> u64 {
    let mut h = DefaultHasher::new();
    p.hash(&mut h);
    h.finish()
}

#[test]
fn equal_handles_give_equal_references() {
    let a = ProcessRef::borrow_from_handle(0x1a4);
    let b = ProcessRef::borrow_from_handle(0x1a4);
    assert_eq!(a, b);
    assert_eq!(hash_of(&a), hash_of(&b));
}

#[test]
fn different_handles_give_different_references() {
    let a = ProcessRef::borrow_from_handle(0x1a4);
    let b = ProcessRef::borrow_from_handle(0x1a8);
    assert_ne!(a, b);
}

#[test]
fn current_reference_is_current() {
    let cur = ProcessRef::current();
    assert!(cur.is_current());
    assert_eq!(cur.handle(), CURRENT_PROCESS_PSEUDO_HANDLE);
    assert_eq!(ProcessRef::current_handle(), ProcessRef::raw_current_handle());
    assert_eq!(cur, ProcessRef::borrow_from_handle(usize::MAX));
}

#[test]
fn other_process_reference_is_not_current() {
    let other = ProcessRef::borrow_from_handle(0x2c0);
    assert!(!other.is_current());
    assert_eq!(other.handle(), 0x2c0);
}

#[test]
fn promotion_duplicates_into_the_current_process_with_same_access() {
    let r = ProcessRef::borrow_from_handle(0x2c0).promote_request();
    assert_eq!(r.source_process, CURRENT_PROCESS_PSEUDO_HANDLE);
    assert_eq!(r.source_handle, 0x2c0);
    assert_eq!(r.target_process, CURRENT_PROCESS_PSEUDO_HANDLE);
    assert_eq!(r.desired_access, 0);
    assert!(!r.inheritable);
    assert!(r.same_access);
}

#[test]
fn kill_uses_exit_code_one() {
    let r = ProcessRef::borrow_from_handle(0x2c0).kill_request();
    assert_eq!(r.process, 0x2c0);
    assert_eq!(r.exit_code, 1);
    assert_eq!(DEFAULT_EXIT_CODE, 1);
}

#[test]
fn kill_with_exit_code_passes_the_code() {
    let r = ProcessRef::borrow_from_handle(0x2c0).kill_with_exit_code_request(42);
    assert_eq!(r.process, 0x2c0);
    assert_eq!(r.exit_code, 42);
}

#[test]
fn first_buffer_has_default_capacity() {
    let e = ModuleEnumeration::new(8);
    assert_eq!(e.buffer_entries(), DEFAULT_MODULE_CAPACITY);
    assert_eq!(e.buffer_bytes(), 8192);
    assert_eq!(e.entry_size(), 8);
}

#[test]
fn fast_path_exposes_reported_count() {
    let mut e = ModuleEnumeration::new(8);
    assert_eq!(e.step(Ok(37 * 8)), EnumerationStep::Complete { count: 37 });
    assert_eq!(e.buffer_entries(), 1024);
}

#[test]
fn full_first_buffer_completes() {
    let mut e = ModuleEnumeration::new(8);
    assert_eq!(e.step(Ok(8192)), EnumerationStep::Complete { count: 1024 });
}

#[test]
fn growth_path_agrees_with_fast_path() {
    let mut e = ModuleEnumeration::new(8);
    assert_eq!(e.step(Ok(1500 * 8)), EnumerationStep::Retry);
    assert_eq!(e.buffer_entries(), 2048);
    assert_eq!(e.buffer_bytes(), 16384);
    assert_eq!(e.step(Ok(1500 * 8)), EnumerationStep::Complete { count: 1500 });
}

#[test]
fn growth_takes_reported_size_when_larger_than_double() {
    let mut e = ModuleEnumeration::new(8);
    assert_eq!(e.step(Ok(100_000)), EnumerationStep::Retry);
    assert_eq!(e.buffer_entries(), 12_500);
    assert_eq!(e.buffer_bytes(), 100_000);
}

#[test]
fn growth_repeats_while_modules_keep_loading() {
    let mut e = ModuleEnumeration::new(8);
    assert_eq!(e.step(Ok(9000)), EnumerationStep::Retry);
    assert_eq!(e.buffer_entries(), 2048);
    assert_eq!(e.step(Ok(20_000)), EnumerationStep::Retry);
    assert_eq!(e.buffer_entries(), 4096);
    assert_eq!(e.step(Ok(20_000)), EnumerationStep::Complete { count: 2500 });
}

#[test]
fn growth_rounds_up_to_whole_entries() {
    let mut e = ModuleEnumeration::new(3);
    assert_eq!(e.buffer_bytes(), 3072);
    assert_eq!(e.step(Ok(7000)), EnumerationStep::Retry);
    assert_eq!(e.buffer_entries(), 2334);
    assert_eq!(e.buffer_bytes(), 7002);
}

#[test]
fn oversized_buffer_is_refused() {
    let mut e = ModuleEnumeration::new(8);
    assert_eq!(e.step(Ok(u32::MAX)), EnumerationStep::TooLarge);
    assert_eq!(e.buffer_entries(), 1024);
}

#[test]
fn failed_call_ends_enumeration() {
    let mut e = ModuleEnumeration::new(8);
    let err = OsCallError::from_code(5);
    assert_eq!(e.step(Err(err)), EnumerationStep::Failed(err));
    assert_eq!(e.buffer_entries(), 1024);
    assert_eq!(err.error_code(), 5);
}

#[test]
fn only_reported_entries_are_visible() {
    assert_eq!(visible_modules(vec![10, 20, 30, 40, 50], 3), vec![10, 20, 30]);
    assert_eq!(visible_modules(vec![10, 20], 0), Vec::<usize>::new());
    assert_eq!(visible_modules(vec![10, 20], 2), vec![10, 20]);
}

#[test]
fn extension_detection() {
    assert!(!has_extension("foo"));
    assert!(has_extension("foo.dll"));
    assert!(has_extension("FOO.DLL"));
    assert!(has_extension("foo."));
    assert!(!has_extension(".hidden"));
    assert!(!has_extension(""));
    assert!(!has_extension("dir.d/foo"));
    assert!(!has_extension("C:\\dir.x\\foo"));
    assert!(has_extension("C:\\dir\\foo.exe"));
}

#[test]
fn default_extension_is_appended_only_when_missing() {
    assert_eq!(normalize_target("foo"), "foo.dll");
    assert_eq!(normalize_target("FOO.DLL"), "FOO.DLL");
    assert_eq!(normalize_target("app.exe"), "app.exe");
    assert_eq!(normalize_target("C:\\Windows\\System32\\kernel32"), "C:\\Windows\\System32\\kernel32.dll");
}

#[test]
fn ascii_case_is_ignored() {
    assert!(eq_ignore_ascii_case("Kernel32.DLL", "kernel32.dll"));
    assert!(!eq_ignore_ascii_case("kernel32.dll", "kernel33.dll"));
    assert!(!eq_ignore_ascii_case("a", "ab"));
    assert!(eq_ignore_ascii_case("", ""));
}

#[test]
fn name_with_and_without_extension_find_the_same_module() {
    let short = ModuleSearch::by_name("foo");
    let full = ModuleSearch::by_name("FOO.DLL");
    assert_eq!(short.target(), "foo.dll");
    assert_eq!(full.target(), "FOO.DLL");
    assert_eq!(short.examine(Ok("foo.dll".to_string())), LookupStep::Found);
    assert_eq!(full.examine(Ok("foo.dll".to_string())), LookupStep::Found);
    assert_eq!(short.examine(Ok("bar.dll".to_string())), LookupStep::Next);
    assert_eq!(full.examine(Ok("bar.dll".to_string())), LookupStep::Next);
}

#[test]
fn missing_name_is_not_found() {
    let search = ModuleSearch::by_name("doesnotexist");
    for name in ["ntdll.dll", "kernel32.dll", "foo.dll"] {
        assert_eq!(search.examine(Ok(name.to_string())), LookupStep::Next);
    }
}

#[test]
fn path_matches_regardless_of_case() {
    let search = ModuleSearch::by_path("C:\\WINDOWS\\System32\\KERNEL32.DLL");
    assert_eq!(search.examine(Ok("C:\\Windows\\System32\\kernel32.dll".to_string())), LookupStep::Found);
    let short = ModuleSearch::by_path("c:\\windows\\system32\\kernel32");
    assert_eq!(short.examine(Ok("C:\\Windows\\System32\\kernel32.dll".to_string())), LookupStep::Found);
}

#[test]
fn mismatched_path_is_not_found() {
    let search = ModuleSearch::by_path("C:\\Other\\kernel32.dll");
    assert_eq!(search.examine(Ok("C:\\Windows\\System32\\kernel32.dll".to_string())), LookupStep::Next);
}

#[test]
fn failed_query_ends_search() {
    let search = ModuleSearch::by_name("foo");
    let err = OsCallError::from_code(6);
    assert_eq!(search.examine(Err(err)), LookupStep::Failed(err));
}
