//! The whole core working together: gate, sessions, crypto and the
//! field-store logic over a toy external store.

use std::collections::HashMap;

use vault_core::crypto::CryptoManager;
use vault_core::errors::FieldError;
use vault_core::fields::FieldName;
use vault_core::gate::authorize_request;
use vault_core::session::SessionManager;
use vault_core::wallet::{StoreWrite, WalletCards};

struct ToyStore {
    rows: HashMap<String, HashMap<String, String>>,
    calls: usize,
}

impl ToyStore {
    fn new() -> ToyStore {
        ToyStore { rows: HashMap::new(), calls: 0 }
    }
}

/// A write that an unauthorized request can never reach.
fn gated_put(
    sm: &mut SessionManager,
    store: &mut ToyStore,
    cm: &CryptoManager,
    header: Option<&str>,
    now: u64,
    field_name: &str,
    document: &str,
) -> Result<(), &'static str> {
    let session = authorize_request(sm, header, now).ok_or("unauthenticated")?;
    let user = session.user_id;
    let plan = WalletCards::insert(cm, field_name, document).map_err(|_| "field error")?;
    store.calls += 1;
    let exists = store.rows.contains_key(&user);
    store.calls += 1;
    match WalletCards::write_for(plan, exists) {
        StoreWrite::Update { field, envelope } => {
            store.rows.get_mut(&user).unwrap().insert(field.column().to_string(), envelope);
        }
        StoreWrite::Insert { field, envelope } => {
            let mut row = HashMap::new();
            row.insert(field.column().to_string(), envelope);
            store.rows.insert(user.clone(), row);
        }
    }
    Ok(())
}

/// A read that an unauthorized request can never reach.
fn gated_get(
    sm: &mut SessionManager,
    store: &mut ToyStore,
    cm: &CryptoManager,
    header: Option<&str>,
    now: u64,
    field_name: &str,
) -> Result<String, &'static str> {
    let session = authorize_request(sm, header, now).ok_or("unauthenticated")?;
    let user = session.user_id;
    let field = FieldName::parse(field_name).ok_or("field error")?;
    store.calls += 1;
    let fetched = store.rows.get(&user).and_then(|row| row.get(field.column()));
    WalletCards::get(cm, fetched).map_err(|e| match e {
        FieldError::NotFound => "not found",
        _ => "field error",
    })
}

#[test]
fn alice_stores_and_reads_her_passport() {
    let cm = CryptoManager::new(&CryptoManager::generate_key()).unwrap();
    let mut sm = SessionManager::new();
    let mut store = ToyStore::new();
    let now: u64 = 10_000;

    let token = sm.create_session("alice", now);
    let header = format!("Bearer {}", token);

    gated_put(
        &mut sm,
        &mut store,
        &cm,
        Some(&header),
        now,
        "passport",
        "{\"number\":\"X123\"}",
    )
    .expect("authenticated put succeeds");

    let doc = gated_get(&mut sm, &mut store, &cm, Some(&header), now, "passport")
        .expect("authenticated get succeeds");
    assert_eq!(doc, "{\"number\":\"X123\"}");

    assert!(sm.logout(&token));

    let calls_before = store.calls;
    let verdict = gated_get(&mut sm, &mut store, &cm, Some(&header), now, "passport");
    assert_eq!(verdict, Err("unauthenticated"));
    assert_eq!(store.calls, calls_before, "a rejected request never reaches the store");
}

#[test]
fn the_store_never_sees_plaintext() {
    let cm = CryptoManager::new(&CryptoManager::generate_key()).unwrap();
    let mut sm = SessionManager::new();
    let mut store = ToyStore::new();
    let token = sm.create_session("alice", 0);
    let header = format!("Bearer {}", token);

    gated_put(&mut sm, &mut store, &cm, Some(&header), 0, "identity_card", "{\"pin\":\"9876\"}")
        .unwrap();

    for row in store.rows.values() {
        for envelope in row.values() {
            assert!(!envelope.contains("9876"));
            assert!(!envelope.contains("pin"));
        }
    }
}
