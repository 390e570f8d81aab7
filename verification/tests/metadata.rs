use aktualizr_info::metadata::{MetadataAddress, MetadataStore, StoreError, StoredDocument};
use aktualizr_info::sqlstorage::{DocumentError, SQLStorage};
use aktualizr_info::tuf_repository_type::RepositoryType;
use aktualizr_info::tuf_roles::Role;
use aktualizr_info::tuf_version::Version;

fn document(repo: RepositoryType, role: Role, version: i32, meta: &str) -> StoredDocument {
    StoredDocument {
        repo,
        role,
        version: Version::from_int(version),
        meta: meta.as_bytes().to_vec(),
    }
}

fn image_roots() -> MetadataStore {
    let mut store = MetadataStore::new();
    store.insert(document(RepositoryType::image(), Role::root(), 1, "root v1")).unwrap();
    store.insert(document(RepositoryType::image(), Role::root(), 2, "root v2")).unwrap();
    store.insert(document(RepositoryType::image(), Role::root(), 5, "root v5")).unwrap();
    store
}

fn mixed_store() -> MetadataStore {
    let mut store = MetadataStore::new();
    store.insert(document(RepositoryType::image(), Role::root(), 3, "image root v3")).unwrap();
    store
        .insert(document(RepositoryType::director(), Role::root(), 7, "director root v7"))
        .unwrap();
    store
        .insert(document(RepositoryType::image(), Role::targets(), 9, "image targets v9"))
        .unwrap();
    store.insert(document(RepositoryType::image(), Role::root(), 1, "image root v1")).unwrap();
    store.insert(document(RepositoryType::director(), Role::targets(), 2, "director targets v2"))
        .unwrap();
    store
        .insert(document(RepositoryType::director(), Role::root(), 4, "director root v4"))
        .unwrap();
    store.insert(document(RepositoryType::image(), Role::snapshot(), 6, "image snapshot v6"))
        .unwrap();
    store.insert(document(RepositoryType::image(), Role::timestamp(), 8, "image timestamp v8"))
        .unwrap();
    store
        .insert(document(RepositoryType::image(), Role::delegation("east"), 1, "east v1"))
        .unwrap();
    store
        .insert(document(RepositoryType::image(), Role::delegation("west"), 1, "west v1"))
        .unwrap();
    store
}

fn text(meta: Option<&Vec<u8>>) -> Option<String> {
    meta.map(|m| String::from_utf8(m.clone()).unwrap())
}

#[test]
fn latest_query_returns_the_greatest_version() {
    let store = image_roots();
    let address = MetadataAddress::new(RepositoryType::image(), Role::root(), None);
    let found = store.resolve(&address).unwrap();
    assert_eq!(found.version.version(), 5);
    assert_eq!(found.meta, b"root v5".to_vec());
    assert_eq!(text(store.get_document(&address)), Some("root v5".to_string()));
}

#[test]
fn latest_query_with_the_sentinel_version_is_the_same() {
    let store = image_roots();
    let address = MetadataAddress::new(RepositoryType::image(), Role::root(), Some(Version::new()));
    assert!(address.version.is_latest());
    assert_eq!(text(store.get_document(&address)), Some("root v5".to_string()));
    let by_number =
        MetadataAddress::new(RepositoryType::image(), Role::root(), Some(Version::from_int(-1)));
    assert_eq!(text(store.get_document(&by_number)), Some("root v5".to_string()));
}

#[test]
fn pinned_query_returns_that_version() {
    let store = image_roots();
    let address =
        MetadataAddress::new(RepositoryType::image(), Role::root(), Some(Version::from_int(2)));
    let found = store.resolve(&address).unwrap();
    assert_eq!(found.version.version(), 2);
    assert_eq!(text(store.get_document(&address)), Some("root v2".to_string()));
    let first =
        MetadataAddress::new(RepositoryType::image(), Role::root(), Some(Version::from_int(1)));
    assert_eq!(text(store.get_document(&first)), Some("root v1".to_string()));
}

#[test]
fn pinned_query_for_a_missing_version_finds_nothing() {
    let store = image_roots();
    let address =
        MetadataAddress::new(RepositoryType::image(), Role::root(), Some(Version::from_int(9)));
    assert!(store.resolve(&address).is_none());
    assert!(store.get_document(&address).is_none());
}

#[test]
fn query_on_an_empty_store_finds_nothing() {
    let store = MetadataStore::new();
    assert_eq!(store.len(), 0);
    let latest = MetadataAddress::new(RepositoryType::image(), Role::root(), None);
    assert!(store.resolve(&latest).is_none());
    let pinned =
        MetadataAddress::new(RepositoryType::image(), Role::root(), Some(Version::from_int(1)));
    assert!(store.resolve(&pinned).is_none());
}

#[test]
fn query_for_another_repository_or_role_finds_nothing() {
    let store = image_roots();
    let director = MetadataAddress::new(RepositoryType::director(), Role::root(), None);
    assert!(store.resolve(&director).is_none());
    let targets = MetadataAddress::new(RepositoryType::image(), Role::targets(), None);
    assert!(store.resolve(&targets).is_none());
    let unknown = MetadataAddress::new(RepositoryType::new(), Role::root(), None);
    assert!(store.resolve(&unknown).is_none());
}

#[test]
fn latest_does_not_depend_on_the_order_of_insertion() {
    let orders: [[i32; 4]; 4] = [[1, 2, 5, 3], [5, 3, 2, 1], [3, 5, 1, 2], [2, 1, 3, 5]];
    for order in orders {
        let mut store = MetadataStore::new();
        for v in order {
            let body = format!("root v{}", v);
            store.insert(document(RepositoryType::director(), Role::root(), v, &body)).unwrap();
        }
        let latest = MetadataAddress::new(RepositoryType::director(), Role::root(), None);
        assert_eq!(text(store.get_document(&latest)), Some("root v5".to_string()));
        for v in order {
            let pinned = MetadataAddress::new(
                RepositoryType::director(),
                Role::root(),
                Some(Version::from_int(v)),
            );
            assert_eq!(text(store.get_document(&pinned)), Some(format!("root v{}", v)));
        }
    }
}

#[test]
fn latest_answer_is_also_the_answer_for_its_own_version() {
    let store = mixed_store();
    for (repo, role) in [
        (RepositoryType::image(), Role::root()),
        (RepositoryType::director(), Role::root()),
        (RepositoryType::image(), Role::targets()),
        (RepositoryType::director(), Role::targets()),
    ] {
        let latest = MetadataAddress::new(repo, role.clone(), None);
        let found = store.resolve(&latest).unwrap();
        let pinned = MetadataAddress::new(repo, role, Some(found.version));
        let again = store.resolve(&pinned).unwrap();
        assert_eq!(again.meta, found.meta);
        assert_eq!(again.version, found.version);
    }
}

#[test]
fn repositories_and_roles_are_kept_apart() {
    let store = mixed_store();
    assert_eq!(store.len(), 10);
    let image_root = MetadataAddress::new(RepositoryType::image(), Role::root(), None);
    assert_eq!(text(store.get_document(&image_root)), Some("image root v3".to_string()));
    let director_root = MetadataAddress::new(RepositoryType::director(), Role::root(), None);
    assert_eq!(text(store.get_document(&director_root)), Some("director root v7".to_string()));
    let image_targets = MetadataAddress::new(RepositoryType::image(), Role::targets(), None);
    assert_eq!(text(store.get_document(&image_targets)), Some("image targets v9".to_string()));
    let pinned = MetadataAddress::new(
        RepositoryType::director(),
        Role::root(),
        Some(Version::from_int(3)),
    );
    assert!(store.get_document(&pinned).is_none());
}

#[test]
fn delegations_are_told_apart_by_name() {
    let store = mixed_store();
    let east = MetadataAddress::new(RepositoryType::image(), Role::delegation("east"), None);
    assert_eq!(text(store.get_document(&east)), Some("east v1".to_string()));
    let west = MetadataAddress::new(RepositoryType::image(), Role::delegation("west"), None);
    assert_eq!(text(store.get_document(&west)), Some("west v1".to_string()));
    let north = MetadataAddress::new(RepositoryType::image(), Role::delegation("north"), None);
    assert!(store.get_document(&north).is_none());
}

#[test]
fn duplicate_address_is_refused_and_leaves_the_store() {
    let mut store = image_roots();
    let again = document(RepositoryType::image(), Role::root(), 2, "another root v2");
    assert_eq!(store.insert(again), Err(StoreError::DuplicateAddress));
    assert_eq!(store.len(), 3);
    let pinned =
        MetadataAddress::new(RepositoryType::image(), Role::root(), Some(Version::from_int(2)));
    assert_eq!(text(store.get_document(&pinned)), Some("root v2".to_string()));
    let by_name = document(RepositoryType::image(), Role::delegation("root"), 5, "impostor");
    assert_eq!(store.insert(by_name), Err(StoreError::DuplicateAddress));
    assert_eq!(store.len(), 3);
}

#[test]
fn same_version_under_another_repository_or_role_is_accepted() {
    let mut store = image_roots();
    assert_eq!(store.insert(document(RepositoryType::director(), Role::root(), 2, "d")), Ok(()));
    assert_eq!(store.insert(document(RepositoryType::image(), Role::targets(), 2, "t")), Ok(()));
    assert_eq!(store.len(), 5);
}

#[test]
fn reserved_version_is_refused() {
    let mut store = MetadataStore::new();
    let latest = document(RepositoryType::image(), Role::root(), -1, "root");
    assert_eq!(store.insert(latest), Err(StoreError::ReservedVersion));
    assert_eq!(store.len(), 0);
    let sentinel = StoredDocument {
        repo: RepositoryType::image(),
        role: Role::root(),
        version: Version::new(),
        meta: Vec::new(),
    };
    assert_eq!(store.insert(sentinel), Err(StoreError::ReservedVersion));
    assert_eq!(store.insert(document(RepositoryType::image(), Role::root(), -2, "odd")), Ok(()));
    assert_eq!(store.insert(document(RepositoryType::image(), Role::root(), 0, "zero")), Ok(()));
    let address = MetadataAddress::new(RepositoryType::image(), Role::root(), None);
    assert_eq!(text(store.get_document(&address)), Some("zero".to_string()));
}

#[test]
fn address_without_a_version_asks_for_the_latest() {
    let address = MetadataAddress::new(RepositoryType::image(), Role::root(), None);
    assert!(address.version.is_latest());
    assert_eq!(address.repo, RepositoryType::image());
    assert_eq!(address.role, Role::root());
    let pinned = MetadataAddress::new(
        RepositoryType::director(),
        Role::targets(),
        Some(Version::from_int(4)),
    );
    assert_eq!(pinned.version.version(), 4);
    assert_eq!(pinned.repo, RepositoryType::director());
    assert_eq!(pinned.role, Role::targets());
}

#[test]
fn storage_loads_the_latest_roots() {
    let store = mixed_store();
    assert_eq!(SQLStorage::load_image_root(&store), Ok(Some("image root v3".to_string())));
    assert_eq!(SQLStorage::load_director_root(&store), Ok(Some("director root v7".to_string())));
}

#[test]
fn storage_loads_the_latest_of_the_other_roles() {
    let store = mixed_store();
    assert_eq!(
        SQLStorage::load_director_targets(&store),
        Ok(Some("director targets v2".to_string()))
    );
    assert_eq!(
        SQLStorage::load_image_snapshot(&store),
        Ok(Some("image snapshot v6".to_string()))
    );
    assert_eq!(
        SQLStorage::load_image_timestamp(&store),
        Ok(Some("image timestamp v8".to_string()))
    );
    assert_eq!(SQLStorage::load_image_targets(&store), Ok(Some("image targets v9".to_string())));
}

#[test]
fn storage_loads_a_pinned_root() {
    let store = mixed_store();
    let v1 = SQLStorage::load_root_internal(&store, RepositoryType::image(), Version::from_int(1));
    assert_eq!(v1, Ok(Some("image root v1".to_string())));
    let v4 =
        SQLStorage::load_root_internal(&store, RepositoryType::director(), Version::from_int(4));
    assert_eq!(v4, Ok(Some("director root v4".to_string())));
    let missing =
        SQLStorage::load_root_internal(&store, RepositoryType::image(), Version::from_int(2));
    assert_eq!(missing, Ok(None));
    let latest = SQLStorage::load_root_internal(&store, RepositoryType::image(), Version::new());
    assert_eq!(latest, Ok(Some("image root v3".to_string())));
}

#[test]
fn storage_finds_nothing_in_an_empty_store() {
    let store = MetadataStore::new();
    assert_eq!(SQLStorage::load_image_root(&store), Ok(None));
    assert_eq!(SQLStorage::load_director_root(&store), Ok(None));
    assert_eq!(SQLStorage::load_director_targets(&store), Ok(None));
    assert_eq!(SQLStorage::load_image_snapshot(&store), Ok(None));
    assert_eq!(SQLStorage::load_image_timestamp(&store), Ok(None));
    assert_eq!(SQLStorage::load_image_targets(&store), Ok(None));
    let role = Role::offline_updates();
    assert_eq!(
        SQLStorage::load_non_root_internal(&store, RepositoryType::image(), role),
        Ok(None)
    );
}

#[test]
fn storage_refuses_a_document_that_is_not_text() {
    let mut store = MetadataStore::new();
    let broken = StoredDocument {
        repo: RepositoryType::image(),
        role: Role::root(),
        version: Version::from_int(2),
        meta: vec![0x7b, 0xff, 0xfe, 0x7d],
    };
    store.insert(broken).unwrap();
    store.insert(document(RepositoryType::image(), Role::root(), 1, "root v1")).unwrap();
    assert_eq!(SQLStorage::load_image_root(&store), Err(DocumentError));
    let v2 = SQLStorage::load_root_internal(&store, RepositoryType::image(), Version::from_int(2));
    assert_eq!(v2, Err(DocumentError));
    let v1 = SQLStorage::load_root_internal(&store, RepositoryType::image(), Version::from_int(1));
    assert_eq!(v1, Ok(Some("root v1".to_string())));
    assert_eq!(SQLStorage::load_director_root(&store), Ok(None));
    assert_eq!(DocumentError.to_string(), "stored document is not UTF-8 text");
}

#[test]
fn document_text_is_the_text_of_the_bytes() {
    assert_eq!(
        SQLStorage::document_text(&b"{\"signed\": 1}".to_vec()),
        Ok("{\"signed\": 1}".to_string())
    );
    assert_eq!(SQLStorage::document_text(&Vec::new()), Ok(String::new()));
    assert_eq!(
        SQLStorage::document_text(&"caf\u{e9}".as_bytes().to_vec()),
        Ok("caf\u{e9}".to_string())
    );
    assert_eq!(SQLStorage::document_text(&vec![0xc3]), Err(DocumentError));
    assert_eq!(SQLStorage::document_text(&vec![0xed, 0xa0, 0x80]), Err(DocumentError));
    assert_eq!(SQLStorage::document_text(&vec![0xc0, 0x80]), Err(DocumentError));
}
