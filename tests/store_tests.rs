use ergonames_utils::database::{
    create_database_schema, insert_confirmed_statement, insert_mint_request_statement,
    list_pending_statement, mark_spent_statement, mint_request_parameters, open_confirmed_statement,
    registration_parameters,
};
use ergonames_utils::store::RegistryStore;
use ergonames_utils::types::{MintRequest, RegistrationInformation};

fn id(prefix: &str) -> String {
    format!("{:0<64}", prefix)
}

fn request(b: &str, t: &str) -> MintRequest {
    MintRequest { transaction_id: id(t), box_id: id(b) }
}

fn registration(name: &str, tx: &str, spend: Option<&str>) -> RegistrationInformation {
    RegistrationInformation {
        ergoname_registered: name.to_string(),
        mint_transaction_id: id(tx),
        mint_box_id: id(&format!("b{}", tx)),
        spend_transaction_id: spend.map(id),
        ergoname_token_id: id(&format!("c{}", tx)),
    }
}

fn pending_boxes(store: &RegistryStore) -> Vec<String> {
    let mut v: Vec<String> = store.list_pending().into_iter().map(|r| r.box_id).collect();
    v.sort();
    v
}

#[test]
fn insert_mint_request_twice_is_once() {
    let mut once = RegistryStore::new();
    once.insert_mint_request(&request("b1", "a1"));
    let mut twice = RegistryStore::new();
    twice.insert_mint_request(&request("b1", "a1"));
    twice.insert_mint_request(&request("b1", "a1"));
    assert_eq!(once.mint_request_count(), 1);
    assert_eq!(twice.mint_request_count(), 1);
    assert_eq!(pending_boxes(&once), pending_boxes(&twice));
}

#[test]
fn insert_mint_request_keeps_spent_row() {
    let mut store = RegistryStore::new();
    store.insert_mint_request(&request("b1", "a1"));
    store.mark_spent(&id("b1"));
    store.insert_mint_request(&request("b1", "a1"));
    assert_eq!(store.is_spent(&id("b1")), Some(true));
    assert!(store.list_pending().is_empty());
}

#[test]
fn mark_spent_is_idempotent_and_monotone() {
    let mut store = RegistryStore::new();
    store.insert_mint_request(&request("b1", "a1"));
    store.insert_mint_request(&request("b2", "a2"));
    store.mark_spent(&id("b1"));
    assert_eq!(store.is_spent(&id("b1")), Some(true));
    store.mark_spent(&id("b1"));
    assert_eq!(store.is_spent(&id("b1")), Some(true));
    assert_eq!(store.is_spent(&id("b2")), Some(false));
    assert_eq!(store.mint_request_count(), 2);
}

#[test]
fn mark_spent_unknown_box_is_no_error() {
    let mut store = RegistryStore::new();
    store.insert_mint_request(&request("b1", "a1"));
    store.mark_spent(&id("ff"));
    assert_eq!(store.is_spent(&id("ff")), None);
    assert_eq!(pending_boxes(&store), vec![id("b1")]);
}

#[test]
fn insert_confirmed_twice_is_once() {
    let mut store = RegistryStore::new();
    let reg = registration("alice.ergo", "a1", None);
    store.insert_confirmed(&reg);
    store.insert_confirmed(&reg);
    assert_eq!(store.confirmed_count(), 1);
    let other = registration("alice.ergo", "a9", Some("d9"));
    store.insert_confirmed(&other);
    let rows = store.confirmed_registrations();
    assert_eq!(rows.len(), 1);
    assert_eq!(rows[0].mint_transaction_id, id("a1"));
}

#[test]
fn list_pending_is_exactly_unspent_rows() {
    let mut store = RegistryStore::new();
    for (b, t) in [("b1", "a1"), ("b2", "a2"), ("b3", "a3")] {
        store.insert_mint_request(&request(b, t));
    }
    store.mark_spent(&id("b2"));
    store.insert_mint_request(&request("b2", "a2"));
    store.insert_mint_request(&request("b4", "a4"));
    assert_eq!(pending_boxes(&store), vec![id("b1"), id("b3"), id("b4")]);
    let pending = store.list_pending();
    assert!(pending.iter().any(|r| r.box_id == id("b3") && r.transaction_id == id("a3")));
}

#[test]
fn last_open_confirmed_finds_open_row() {
    let mut store = RegistryStore::new();
    assert!(store.last_open_confirmed().is_none());
    store.insert_confirmed(&registration("a.ergo", "a1", Some("a2")));
    assert!(store.last_open_confirmed().is_none());
    store.insert_confirmed(&registration("b.ergo", "a2", None));
    let open = store.last_open_confirmed().unwrap();
    assert_eq!(open.ergoname_registered, "b.ergo");
    assert_eq!(open.spend_transaction_id, None);
}

#[test]
fn schema_creates_both_tables() {
    let stmts = create_database_schema();
    assert_eq!(stmts.len(), 2);
    assert!(stmts[0].starts_with("CREATE TABLE IF NOT EXISTS confirmed_registry_insertions"));
    assert!(stmts[1].starts_with("CREATE TABLE IF NOT EXISTS mint_requests"));
    assert!(stmts[1].contains("spent BOOLEAN NOT NULL DEFAULT FALSE"));
}

#[test]
fn statement_parameters_follow_column_order() {
    let reg = registration("alice.ergo", "a1", None);
    let p = registration_parameters(&reg);
    assert_eq!(p, vec![
        Some("alice.ergo".to_string()),
        Some(id("a1")),
        Some(id("ba1")),
        None,
        Some(id("ca1")),
    ]);
    let q = mint_request_parameters(&request("b1", "a1"));
    assert_eq!(q, vec![id("b1"), id("a1")]);
}

#[test]
fn statements_keep_conflicts_silent() {
    assert!(insert_confirmed_statement().contains("ON CONFLICT DO NOTHING"));
    assert!(insert_mint_request_statement().contains("ON CONFLICT DO NOTHING"));
    assert_eq!(mark_spent_statement(), "UPDATE mint_requests SET spent = true WHERE box_id = $1");
    assert!(list_pending_statement().ends_with("WHERE spent = false"));
    assert!(open_confirmed_statement().ends_with("WHERE spend_transaction_id IS NULL"));
}
