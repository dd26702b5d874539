use hypr_utils::json::Json;
use hypr_utils::store::{handle_cmd, CmdOutput, Store};
use hypr_utils::args::StoreCmd;

fn s(text: &str) -> String {
    text.to_string()
}

fn memory_store() -> Store {
    Store::new_with_path(":memory:").expect("in-memory store opens")
}

fn nums() -> Vec<Json> {
    vec![Json::Num(s("1")), Json::Num(s("2")), Json::Num(s("3"))]
}

fn letters() -> Vec<Json> {
    vec![Json::Str(s("a")), Json::Str(s("b")), Json::Str(s("c"))]
}

#[test]
fn cycle_on_unset_key_selects_and_persists_the_first() {
    let mut store = memory_store();
    let idx = store.cycle("k", &nums(), false).unwrap();
    assert_eq!(idx, Some(0));
    assert_eq!(store.get("k").unwrap(), Some(s("1")));
}

#[test]
fn sequential_cycles_walk_the_list_in_order() {
    let mut store = memory_store();
    let mut seen = Vec::new();
    for _ in 0..4 {
        let idx = store.cycle("k", &letters(), false).unwrap().unwrap();
        seen.push(store.get("k").unwrap().unwrap());
        assert!(idx < 3);
    }
    assert_eq!(seen, vec![s("\"a\""), s("\"b\""), s("\"c\""), s("\"a\"")]);
}

#[test]
fn cycle_steps_forward_and_backward_from_a_match() {
    let mut store = memory_store();
    store.set("k", &Json::Str(s("b"))).unwrap();
    assert_eq!(store.cycle("k", &letters(), true).unwrap(), Some(0));
    assert_eq!(store.get("k").unwrap(), Some(s("\"a\"")));

    store.set("k", &Json::Str(s("b"))).unwrap();
    assert_eq!(store.cycle("k", &letters(), false).unwrap(), Some(2));
    assert_eq!(store.get("k").unwrap(), Some(s("\"c\"")));
}

#[test]
fn cycle_resets_when_the_stored_value_matches_nothing() {
    let mut store = memory_store();
    store.set("k", &Json::Str(s("z"))).unwrap();
    let values = vec![Json::Str(s("x")), Json::Str(s("y"))];
    assert_eq!(store.cycle("k", &values, false).unwrap(), Some(0));
    assert_eq!(store.get("k").unwrap(), Some(s("\"x\"")));
}

#[test]
fn cycle_with_no_candidates_changes_nothing() {
    let mut store = memory_store();
    store.set("k", &Json::Str(s("kept"))).unwrap();
    assert_eq!(store.cycle("k", &vec![], false).unwrap(), None);
    assert_eq!(store.cycle("k", &vec![], true).unwrap(), None);
    assert_eq!(store.get("k").unwrap(), Some(s("\"kept\"")));

    let mut fresh = memory_store();
    assert_eq!(fresh.cycle("k", &vec![], false).unwrap(), None);
    assert_eq!(fresh.get("k").unwrap(), None);
}

#[test]
fn cycle_through_handle_cmd_reports_the_selected_text() {
    let mut store = memory_store();
    let cmd = StoreCmd::Cycle { key: s("k"), values: nums(), reverse: false };
    assert_eq!(
        handle_cmd(&mut store, cmd).unwrap(),
        CmdOutput::Selected(Some(s("1")))
    );
    let empty = StoreCmd::Cycle { key: s("k"), values: vec![], reverse: false };
    assert_eq!(handle_cmd(&mut store, empty).unwrap(), CmdOutput::Selected(None));
}

#[test]
fn cycle_matches_structurally_not_by_identity() {
    let mut store = memory_store();
    let stored = Json::Obj(vec![(s("a"), Json::Num(s("1"))), (s("b"), Json::Arr(vec![]))]);
    store.set("k", &stored).unwrap();
    let same_shape = Json::Obj(vec![(s("a"), Json::Num(s("1"))), (s("b"), Json::Arr(vec![]))]);
    let other = Json::Obj(vec![(s("a"), Json::Num(s("2"))), (s("b"), Json::Arr(vec![]))]);
    let idx = store.cycle("k", &vec![same_shape, other], false).unwrap();
    assert_eq!(idx, Some(1));
    assert_eq!(store.get("k").unwrap(), Some(s("{\"a\":2,\"b\":[]}")));
}
