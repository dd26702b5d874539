use hypr_utils::json::Json;
use hypr_utils::store::{handle_cmd, CmdOutput, Store};
use hypr_utils::args::StoreCmd;
use hypr_utils::StoreError;

fn s(text: &str) -> String {
    text.to_string()
}

fn memory_store() -> Store {
    Store::new_with_path(":memory:").expect("in-memory store opens")
}

#[test]
fn set_then_get_returns_the_value() {
    let mut store = memory_store();
    store.set("foo", &Json::Str(s("bar"))).unwrap();
    assert_eq!(store.get("foo").unwrap(), Some(s("\"bar\"")));

    store.set("foo", &Json::Num(s("42"))).unwrap();
    assert_eq!(store.get("foo").unwrap(), Some(s("42")));

    store.set("nil", &Json::Null).unwrap();
    assert_eq!(store.get("nil").unwrap(), Some(s("null")));
}

#[test]
fn get_of_unset_key_is_none_and_differs_from_null() {
    let mut store = memory_store();
    assert_eq!(store.get("never").unwrap(), None);
    store.set("explicit", &Json::Null).unwrap();
    assert_eq!(store.get("explicit").unwrap(), Some(s("null")));
    assert_eq!(store.get("never").unwrap(), None);
}

#[test]
fn unset_reports_true_exactly_once() {
    let mut store = memory_store();
    assert_eq!(store.unset("foo").unwrap(), false);
    store.set("foo", &Json::Bool(true)).unwrap();
    assert_eq!(store.unset("foo").unwrap(), true);
    assert_eq!(store.unset("foo").unwrap(), false);
    assert_eq!(store.get("foo").unwrap(), None);
}

#[test]
fn list_is_exactly_the_current_records() {
    let mut store = memory_store();
    assert_eq!(store.list_all().unwrap(), vec![]);

    store.set("a", &Json::Num(s("1"))).unwrap();
    store.set("b", &Json::Str(s("x"))).unwrap();
    store.set("c", &Json::Null).unwrap();
    store.unset("b").unwrap();
    store.cache("echo hi", "hi\n").unwrap();

    let mut listed = store.list_all().unwrap();
    listed.sort();
    assert_eq!(listed, vec![(s("a"), s("1")), (s("c"), s("null"))]);
}

#[test]
fn cache_and_read_cache_round_trip() {
    let mut store = memory_store();
    assert_eq!(store.read_cache("date").unwrap(), None);
    store.cache("date", "monday\n").unwrap();
    assert_eq!(store.read_cache("date").unwrap(), Some(s("monday\n")));
    store.cache("date", "tuesday\n").unwrap();
    assert_eq!(store.read_cache("date").unwrap(), Some(s("tuesday\n")));
    assert_eq!(store.read_cache("date ").unwrap(), None);
}

#[test]
fn handle_cmd_covers_each_operation() {
    let mut store = memory_store();
    let put = StoreCmd::Put { key: s("foo"), value: Json::Str(s("bar")) };
    assert_eq!(handle_cmd(&mut store, put).unwrap(), CmdOutput::Done);

    let get = StoreCmd::Get { key: s("foo") };
    assert_eq!(
        handle_cmd(&mut store, get).unwrap(),
        CmdOutput::Value(Some(s("\"bar\"")))
    );

    let list = StoreCmd::List;
    assert_eq!(
        handle_cmd(&mut store, list).unwrap(),
        CmdOutput::Records(vec![(s("foo"), s("\"bar\""))])
    );

    let unset = StoreCmd::Unset { key: s("foo") };
    assert_eq!(handle_cmd(&mut store, unset).unwrap(), CmdOutput::Deleted(true));
    let unset_again = StoreCmd::Unset { key: s("foo") };
    assert_eq!(handle_cmd(&mut store, unset_again).unwrap(), CmdOutput::Deleted(false));
}

#[test]
fn set_twice_is_observably_one_set() {
    let mut store = memory_store();
    store.set("foo", &Json::Num(s("7"))).unwrap();
    store.set("foo", &Json::Num(s("7"))).unwrap();
    assert_eq!(store.get("foo").unwrap(), Some(s("7")));
    let listed = store.list_all().unwrap();
    assert_eq!(listed, vec![(s("foo"), s("7"))]);
}

#[test]
fn query_error_on_a_file_that_is_no_database() {
    // Opening is lazy: the handle opens, the first statement fails.
    let mut store = Store::new_with_path("/proc/self/status").expect("opening itself is deferred");
    match store.get("k") {
        Err(e) => assert_eq!(e, StoreError::Query),
        Ok(v) => panic!("expected a query error, got {v:?}"),
    }
}

#[test]
fn open_error_on_impossible_path() {
    match Store::new_with_path("/nonexistent-dir-for-store/store.sqlite") {
        Err(e) => assert_eq!(e, StoreError::Open),
        Ok(_) => panic!("expected an open error"),
    }
}
