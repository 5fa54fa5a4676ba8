use product_service::configuration::Settings;
use product_service::data::fetch_products;
use product_service::model::Product;
use product_service::store::ProductStore;

fn record(id: i32, name: &str) -> Product {
    Product {
        id,
        name: name.to_string(),
        price_cents: 1200,
        description: "a long enough description".to_string(),
        image: "/img.png".to_string(),
    }
}

#[test]
fn test_store_starts_empty() {
    let store = ProductStore::new();
    assert_eq!(store.count(), 0);
    assert_eq!(store.next_id(), 1);
    assert!(store.get(1).is_none());
}

#[test]
fn test_store_assigns_sequential_ids() {
    let mut store = ProductStore::new();
    let first_id = store.next_id();
    store.add(record(first_id, "first"));
    let second_id = store.next_id();
    store.add(record(second_id, "second"));
    assert_eq!(first_id, 1);
    assert_eq!(second_id, 2);
    assert_eq!(store.count(), 2);
}

#[test]
fn test_store_get_finds_first_match() {
    let mut store = ProductStore::new();
    store.add(record(1, "one"));
    store.add(record(2, "two"));
    store.add(record(2, "shadowed"));
    let found = store.get(2).unwrap();
    assert_eq!(found.name, "two");
    assert!(store.get(9).is_none());
}

#[test]
fn test_store_update_replaces_record() {
    let mut store = ProductStore::new();
    store.add(record(1, "one"));
    store.add(record(2, "two"));
    store.update(record(2, "two, revised"));
    assert_eq!(store.count(), 2);
    assert_eq!(store.get(2).unwrap().name, "two, revised");
    assert_eq!(store.get(1).unwrap().name, "one");
}

#[test]
fn test_store_remove_deletes_record() {
    let mut store = ProductStore::new();
    store.add(record(1, "one"));
    store.add(record(2, "two"));
    store.add(record(3, "three"));
    store.remove(2);
    assert_eq!(store.count(), 2);
    assert!(store.get(2).is_none());
    assert_eq!(store.get(1).unwrap().name, "one");
    assert_eq!(store.get(3).unwrap().name, "three");
}

#[test]
fn test_store_seeded_from_catalog() {
    let store = ProductStore::from_products(fetch_products(&Settings::new()));
    assert_eq!(store.count(), 10);
    assert_eq!(store.next_id(), 11);
    assert_eq!(store.get(3).unwrap().name, "Mermaid's Mice Trio");
    assert_eq!(store.all().len(), 10);
}
