use protocols::{
    create_item, delete_item, get_item, list_items, update_item, ItemPayload, ItemStore, Status,
};

fn payload(name: &str) -> ItemPayload {
    ItemPayload { name: name.to_string() }
}

#[test]
fn create_assigns_first_id_and_created_status() {
    let mut db = ItemStore::new();
    let (status, item) = create_item(&mut db, payload("first item"));
    assert_eq!(status, Status::Created);
    assert_eq!(status.code(), 201);
    assert_eq!(item.id, 1);
    assert_eq!(item.name, "first item");
}

#[test]
fn readme_walkthrough() {
    let mut db = ItemStore::new();
    let (_, created) = create_item(&mut db, payload("first item"));
    assert_eq!(created.id, 1);

    let listed = list_items(&db);
    assert_eq!(listed.len(), 1);
    assert_eq!(listed[0].id, 1);
    assert_eq!(listed[0].name, "first item");

    let got = get_item(&db, 1).ok().unwrap();
    assert_eq!(got.id, 1);
    assert_eq!(got.name, "first item");

    let updated = update_item(&mut db, 1, payload("updated item")).ok().unwrap();
    assert_eq!(updated.id, 1);
    assert_eq!(updated.name, "updated item");
    assert_eq!(get_item(&db, 1).ok().unwrap().name, "updated item");

    let deleted = delete_item(&mut db, 1);
    assert_eq!(deleted, Status::NoContent);
    assert_eq!(deleted.code(), 204);
    assert_eq!(get_item(&db, 1).err(), Some(Status::NotFound));
    assert!(list_items(&db).is_empty());
}

#[test]
fn missing_items_are_not_found() {
    let mut db = ItemStore::new();
    assert_eq!(get_item(&db, 7).err(), Some(Status::NotFound));
    assert_eq!(Status::NotFound.code(), 404);
    assert_eq!(update_item(&mut db, 7, payload("x")).err(), Some(Status::NotFound));
    assert!(list_items(&db).is_empty());
    assert_eq!(delete_item(&mut db, 7), Status::NotFound);
}

#[test]
fn law_consecutive_ids_on_values() {
    let mut db = ItemStore::new();
    for expected in 1..=5u32 {
        let (_, item) = create_item(&mut db, payload("item"));
        assert_eq!(item.id, expected);
    }
    assert_eq!(db.max_id(), 5);
}

#[test]
fn ids_follow_the_largest_id_in_use() {
    let mut db = ItemStore::new();
    create_item(&mut db, payload("a"));
    create_item(&mut db, payload("b"));
    create_item(&mut db, payload("c"));
    assert_eq!(delete_item(&mut db, 2), Status::NoContent);
    let (_, item) = create_item(&mut db, payload("d"));
    assert_eq!(item.id, 4);
}

#[test]
fn law_delete_undoes_create_on_values() {
    let mut db = ItemStore::new();
    create_item(&mut db, payload("a"));
    create_item(&mut db, payload("b"));
    let (_, newest) = create_item(&mut db, payload("c"));
    assert_eq!(newest.id, 3);
    assert_eq!(delete_item(&mut db, 3), Status::NoContent);
    assert_eq!(db.max_id(), 2);
    let (_, again) = create_item(&mut db, payload("d"));
    assert_eq!(again.id, 3);
    assert_eq!(get_item(&db, 3).ok().unwrap().name, "d");
}

#[test]
fn law_get_after_create_on_values() {
    let mut db = ItemStore::new();
    create_item(&mut db, payload("a"));
    let (_, b) = create_item(&mut db, payload("b"));
    assert_eq!(get_item(&db, b.id).ok().unwrap().name, "b");
    assert_eq!(get_item(&db, 1).ok().unwrap().name, "a");
    assert_eq!(list_items(&db).len(), 2);
}

#[test]
fn law_get_after_update_on_values() {
    let mut db = ItemStore::new();
    create_item(&mut db, payload("a"));
    create_item(&mut db, payload("b"));
    update_item(&mut db, 2, payload("renamed")).ok().unwrap();
    assert_eq!(get_item(&db, 2).ok().unwrap().name, "renamed");
    assert_eq!(get_item(&db, 1).ok().unwrap().name, "a");
    assert_eq!(list_items(&db).len(), 2);
}

#[test]
fn law_get_after_delete_on_values() {
    let mut db = ItemStore::new();
    create_item(&mut db, payload("a"));
    create_item(&mut db, payload("b"));
    assert_eq!(delete_item(&mut db, 1), Status::NoContent);
    assert_eq!(get_item(&db, 1).err(), Some(Status::NotFound));
    assert_eq!(get_item(&db, 2).ok().unwrap().name, "b");
    assert_eq!(delete_item(&mut db, 1), Status::NotFound);
}

#[test]
fn list_holds_each_item_once() {
    let mut db = ItemStore::new();
    for name in ["a", "b", "c", "d"] {
        create_item(&mut db, payload(name));
    }
    let mut listed: Vec<(u32, String)> =
        list_items(&db).into_iter().map(|item| (item.id, item.name)).collect();
    listed.sort();
    assert_eq!(
        listed,
        vec![
            (1, "a".to_string()),
            (2, "b".to_string()),
            (3, "c".to_string()),
            (4, "d".to_string())
        ]
    );
}

#[test]
fn status_codes() {
    assert_eq!(Status::Success.code(), 200);
    assert_eq!(Status::Created.code(), 201);
    assert_eq!(Status::NoContent.code(), 204);
    assert_eq!(Status::NotFound.code(), 404);
}
