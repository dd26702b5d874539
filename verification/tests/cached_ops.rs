use hypr_utils::cached::CmdOutcome;
use hypr_utils::store::Store;
use hypr_utils::StoreError;

fn s(text: &str) -> String {
    text.to_string()
}

fn memory_store() -> Store {
    Store::new_with_path(":memory:").expect("in-memory store opens")
}

fn success(bytes: &[u8]) -> CmdOutcome {
    CmdOutcome { success: true, stdout: bytes.to_vec() }
}

fn failure() -> CmdOutcome {
    CmdOutcome { success: false, stdout: Vec::new() }
}

#[test]
fn success_caches_and_emits_the_output() {
    let mut store = memory_store();
    let out = store.cached_output("echo hi", success(b"hi\n")).unwrap();
    assert_eq!(out, s("hi\n"));
    assert_eq!(store.read_cache("echo hi").unwrap(), Some(s("hi\n")));
}

#[test]
fn failure_falls_back_to_the_cached_output() {
    let mut store = memory_store();
    assert_eq!(store.cached_output("echo hi", success(b"hi\n")).unwrap(), s("hi\n"));
    let out = store.cached_output("echo hi", failure()).unwrap();
    assert_eq!(out, s("hi\n"));
    assert_eq!(store.read_cache("echo hi").unwrap(), Some(s("hi\n")));
}

#[test]
fn failure_without_a_cache_entry_is_a_cache_miss() {
    let mut store = memory_store();
    match store.cached_output("mystery", failure()) {
        Err(StoreError::CacheMiss) => {}
        other => panic!("expected a cache miss, got {other:?}"),
    }
}

#[test]
fn invalid_utf8_output_is_a_decode_error() {
    let mut store = memory_store();
    match store.cached_output("bad", success(&[0xff, 0xfe])) {
        Err(StoreError::Utf8) => {}
        other => panic!("expected a decode error, got {other:?}"),
    }
    assert_eq!(store.read_cache("bad").unwrap(), None);
}

#[test]
fn cache_keys_are_the_literal_command_text() {
    let mut store = memory_store();
    store.cached_output("echo  hi", success(b"one\n")).unwrap();
    match store.cached_output("echo hi", failure()) {
        Err(StoreError::CacheMiss) => {}
        other => panic!("expected a cache miss for a different literal, got {other:?}"),
    }
}

#[test]
fn a_new_success_replaces_the_cached_output() {
    let mut store = memory_store();
    store.cached_output("now", success(b"first\n")).unwrap();
    store.cached_output("now", success(b"second\n")).unwrap();
    assert_eq!(store.cached_output("now", failure()).unwrap(), s("second\n"));
}
