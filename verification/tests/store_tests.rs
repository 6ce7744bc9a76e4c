use bitcoin_backend::store::{DbError, NodeConfigRepository, NodeConfigStore};
use bitcoin_backend::domain::{NewNodeConfig, NodeConfig};

fn new_config(name: &str) -> NewNodeConfig {
    NewNodeConfig {
        name: name.to_string(),
        rpc_url: format!("http://{}.example:8332", name),
        rpc_user: "user".to_string(),
        rpc_password: "pass".to_string(),
        network: "mainnet".to_string(),
    }
}

fn active_count(configs: &[NodeConfig]) -> usize {
    configs.iter().filter(|c| c.is_active).count()
}

#[test]
fn first_create_is_active() {
    let mut store = NodeConfigStore::new();
    let first = store.create(new_config("a")).unwrap();
    assert!(first.is_active);

    let second = store.create(new_config("b")).unwrap();
    assert!(!second.is_active);

    let listed = store.list().unwrap();
    assert_eq!(listed.len(), 2);
    assert_eq!(listed[0].id, second.id);
    assert!(!listed[0].is_active);
    assert_eq!(listed[1].id, first.id);
    assert!(listed[1].is_active);
}

#[test]
fn created_profile_carries_request_fields() {
    let mut store = NodeConfigStore::new();
    let created = store.create(new_config("node-one")).unwrap();
    assert_eq!(created.name, "node-one");
    assert_eq!(created.rpc_url, "http://node-one.example:8332");
    assert_eq!(created.rpc_user, "user");
    assert_eq!(created.rpc_password, "pass");
    assert_eq!(created.network, "mainnet");
    assert_eq!(created.id.len(), 36);
}

#[test]
fn duplicate_identifier_is_rejected() {
    let mut store = NodeConfigStore::new();
    let first = store
        .create_with_id(new_config("a"), "fixed-id".to_string())
        .unwrap();
    assert!(first.is_active);
    let clash = store.create_with_id(new_config("b"), "fixed-id".to_string());
    assert!(matches!(clash, Err(DbError::DatabaseError(_))));
    assert_eq!(store.list().unwrap().len(), 1);
}

#[test]
fn duplicate_names_and_urls_are_permitted() {
    let mut store = NodeConfigStore::new();
    let first = store.create(new_config("same")).unwrap();
    let second = store.create(new_config("same")).unwrap();
    assert_ne!(first.id, second.id);
    assert_eq!(first.name, second.name);
    assert_eq!(first.rpc_url, second.rpc_url);
    assert_eq!(store.list().unwrap().len(), 2);
}

#[test]
fn get_finds_by_id_and_misses_unknown() {
    let mut store = NodeConfigStore::new();
    let a = store.create(new_config("a")).unwrap();
    let b = store.create(new_config("b")).unwrap();

    let got = store.get(&a.id).unwrap().unwrap();
    assert_eq!(got.id, a.id);
    assert_eq!(got.name, "a");
    let got_b = store.get(&b.id).unwrap().unwrap();
    assert_eq!(got_b.name, "b");

    assert!(store.get("no-such-id").unwrap().is_none());
}

#[test]
fn activate_switches_the_single_active_profile() {
    let mut store = NodeConfigStore::new();
    let a = store.create(new_config("a")).unwrap();
    let b = store.create(new_config("b")).unwrap();

    store.set_active(&b.id).unwrap();

    let listed = store.list().unwrap();
    assert_eq!(active_count(&listed), 1);
    assert!(listed.iter().find(|c| c.id == b.id).unwrap().is_active);
    assert!(!listed.iter().find(|c| c.id == a.id).unwrap().is_active);

    let active = store.get_active().unwrap().unwrap();
    assert_eq!(active.id, b.id);
}

#[test]
fn activate_unknown_id_fails_closed() {
    let mut store = NodeConfigStore::new();
    let a = store.create(new_config("a")).unwrap();
    let before: Vec<(String, bool)> = store
        .list()
        .unwrap()
        .iter()
        .map(|c| (c.id.clone(), c.is_active))
        .collect();

    let result = store.set_active("no-such-id");
    assert!(matches!(result, Err(DbError::NotFound)));

    let after: Vec<(String, bool)> = store
        .list()
        .unwrap()
        .iter()
        .map(|c| (c.id.clone(), c.is_active))
        .collect();
    assert_eq!(before, after);
    assert!(store.get_active().unwrap().unwrap().id == a.id);
}

#[test]
fn delete_active_leaves_no_active() {
    let mut store = NodeConfigStore::new();
    let a = store.create(new_config("a")).unwrap();
    let _b = store.create(new_config("b")).unwrap();

    store.delete(&a.id).unwrap();

    let listed = store.list().unwrap();
    assert_eq!(listed.len(), 1);
    assert_eq!(active_count(&listed), 0);
    assert!(store.get_active().unwrap().is_none());
}

#[test]
fn delete_unknown_id_fails_closed() {
    let mut store = NodeConfigStore::new();
    let _a = store.create(new_config("a")).unwrap();
    let result = store.delete("no-such-id");
    assert!(matches!(result, Err(DbError::NotFound)));
    assert_eq!(store.list().unwrap().len(), 1);
}

#[test]
fn single_active_invariant_across_operations() {
    let mut store = NodeConfigStore::new();
    let a = store.create(new_config("a")).unwrap();
    assert_eq!(active_count(&store.list().unwrap()), 1);

    let b = store.create(new_config("b")).unwrap();
    assert_eq!(active_count(&store.list().unwrap()), 1);

    let c = store.create(new_config("c")).unwrap();
    assert_eq!(active_count(&store.list().unwrap()), 1);

    store.set_active(&c.id).unwrap();
    assert_eq!(active_count(&store.list().unwrap()), 1);

    // Deleting inactive profiles never disturbs the single active one.
    store.delete(&a.id).unwrap();
    assert_eq!(active_count(&store.list().unwrap()), 1);

    store.set_active(&b.id).unwrap();
    store.delete(&c.id).unwrap();
    let listed = store.list().unwrap();
    assert_eq!(listed.len(), 1);
    assert_eq!(active_count(&listed), 1);
    assert_eq!(listed[0].id, b.id);
}

#[test]
fn reads_are_idempotent() {
    let mut store = NodeConfigStore::new();
    let a = store.create(new_config("a")).unwrap();
    let _b = store.create(new_config("b")).unwrap();

    let snapshot = |s: &NodeConfigStore| -> Vec<(String, String, bool)> {
        s.list()
            .unwrap()
            .iter()
            .map(|c| (c.id.clone(), c.name.clone(), c.is_active))
            .collect()
    };

    let first_list = snapshot(&store);
    let second_list = snapshot(&store);
    assert_eq!(first_list, second_list);

    let g1 = store.get(&a.id).unwrap().unwrap();
    let g2 = store.get(&a.id).unwrap().unwrap();
    assert_eq!(g1.id, g2.id);
    assert_eq!(g1.is_active, g2.is_active);

    let act1 = store.get_active().unwrap().unwrap();
    let act2 = store.get_active().unwrap().unwrap();
    assert_eq!(act1.id, act2.id);

    // Reading changed nothing.
    assert_eq!(snapshot(&store), first_list);
}

#[test]
fn lifecycle_scenario() {
    let mut store = NodeConfigStore::new();

    let a = store.create(new_config("a")).unwrap();
    assert!(a.is_active);

    let b = store.create(new_config("b")).unwrap();
    assert!(!b.is_active);

    store.set_active(&b.id).unwrap();

    let listed = store.list().unwrap();
    assert_eq!(listed.len(), 2);
    assert_eq!(listed[0].id, b.id);
    assert!(listed[0].is_active);
    assert_eq!(listed[1].id, a.id);
    assert!(!listed[1].is_active);

    store.delete(&a.id).unwrap();
    let listed = store.list().unwrap();
    assert_eq!(listed.len(), 1);
    assert_eq!(listed[0].id, b.id);
    assert!(listed[0].is_active);

    store.delete(&b.id).unwrap();
    assert!(store.list().unwrap().is_empty());
    assert!(store.get_active().unwrap().is_none());
}
