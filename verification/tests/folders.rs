use asset_store::data_models::User;
use asset_store::disk::Disk;
use asset_store::error::ControllerError;
use asset_store::file_system::{allocate_folder_path, create_folder, create_sub_folder};
use asset_store::store::MetaStore;

/// An admin user inserted directly into the store (the password hash is
/// irrelevant for folder operations).
fn insert_admin(store: &mut MetaStore, name: &str) -> u64 {
    let user = User {
        id: None,
        user: name.to_string(),
        pass: "unused".to_string(),
        keys: vec![],
        key_admins: vec![],
        user_admins: vec![],
        folder_admins: vec![],
        access_group_admins: vec![],
        timestamp: 0,
        timestamp_readable: "".to_string(),
    };
    store.save_user(user).unwrap()
}

#[test]
fn create_public_folder_then_sub_folder() {
    let mut store = MetaStore::new();
    let mut disk = Disk::new();
    let admin = insert_admin(&mut store, "admin");

    let folder = create_folder(&mut store, &mut disk, admin, "root", None, Some("root")).unwrap();
    assert_eq!(folder.tag, "root");
    assert_eq!(folder.path, "root");
    assert!(folder.is_public);
    assert!(folder.access_groups.is_empty());
    assert!(folder.files.is_empty());
    assert!(folder.id.is_some());

    // The sub-folder path is composed from the parent path alone; the
    // parent folder record is not re-verified against the metadata.
    let sub = create_sub_folder(&mut store, &mut disk, admin, "root", "child", None).unwrap();
    assert_eq!(sub.path, "root/child");
    assert_eq!(sub.tag, "child");
    assert!(sub.is_public);
}

#[test]
fn successful_creation_commits_all_three_effects() {
    let mut store = MetaStore::new();
    let mut disk = Disk::new();
    let admin = insert_admin(&mut store, "admin");

    let folder = create_folder(&mut store, &mut disk, admin, "media", None, None).unwrap();
    let id = folder.id.unwrap();

    // Directory on disk, record in the store, and admin linkage: all three.
    assert!(disk.path_exists("assets/media"));
    assert!(store.find_folder_by_path("assets/media").is_some());
    let admin_doc = store.find_user_by_name("admin").unwrap();
    assert!(admin_doc.folder_admins.contains(&id));
}

#[test]
fn create_folder_twice_yields_already_exists() {
    let mut store = MetaStore::new();
    let mut disk = Disk::new();
    let admin = insert_admin(&mut store, "admin");

    assert!(create_folder(&mut store, &mut disk, admin, "dup", None, None).is_ok());
    let second = create_folder(&mut store, &mut disk, admin, "dup", None, None);
    assert_eq!(second.unwrap_err(), ControllerError::AlreadyExists);
}

#[test]
fn missing_admin_compensates_the_record() {
    let mut store = MetaStore::new();
    let mut disk = Disk::new();

    let r = create_folder(&mut store, &mut disk, 42, "orphan", None, None);
    assert_eq!(r.unwrap_err(), ControllerError::NotFound);
    // The record was removed again: a direct store query finds nothing.
    assert!(store.find_folder_by_path("assets/orphan").is_none());
    assert_eq!(store.folder_count(), 0);
}

#[test]
fn access_group_makes_folder_private() {
    let mut store = MetaStore::new();
    let mut disk = Disk::new();
    let admin = insert_admin(&mut store, "admin");

    let folder = create_folder(&mut store, &mut disk, admin, "vault", Some(99), None).unwrap();
    assert!(!folder.is_public);
    assert_eq!(folder.access_groups, vec![99]);
}

#[test]
fn folder_tag_collision_is_refused_even_on_fresh_path() {
    let mut store = MetaStore::new();
    let mut disk = Disk::new();
    let admin = insert_admin(&mut store, "admin");

    assert!(create_folder(&mut store, &mut disk, admin, "tagged", None, None).is_ok());
    // Same tag aimed at a different path: the unique tag index refuses it.
    let second = create_folder(&mut store, &mut disk, admin, "tagged", None, Some("elsewhere"));
    assert_eq!(second.unwrap_err(), ControllerError::AlreadyExists);
    // The directory of the refused attempt stays behind, a degraded state.
    assert!(disk.path_exists("elsewhere"));
    assert!(store.find_folder_by_path("elsewhere").is_none());
}

#[test]
fn allocate_folder_path_composes_and_reserves() {
    let mut disk = Disk::new();
    assert_eq!(allocate_folder_path(&disk, None, "top").unwrap(), "assets/top");
    assert_eq!(allocate_folder_path(&disk, Some("a/b"), "c").unwrap(), "a/b/c");
    disk.create_dir_all("a/b/c");
    assert_eq!(
        allocate_folder_path(&disk, Some("a/b"), "c").unwrap_err(),
        ControllerError::AlreadyExists
    );
}
