use asset_store::data_models::User;
use asset_store::disk::Disk;
use asset_store::error::ControllerError;
use asset_store::file_system::{allocate_asset_path, create_folder, save_asset};
use asset_store::store::MetaStore;

fn insert_admin(store: &mut MetaStore, name: &str) -> u64 {
    let user = User {
        id: None,
        user: name.to_string(),
        pass: "unused".to_string(),
        keys: vec![],
        key_admins: vec![],
        user_admins: vec![],
        folder_admins: vec![],
        access_group_admins: vec![],
        timestamp: 0,
        timestamp_readable: "".to_string(),
    };
    store.save_user(user).unwrap()
}

#[test]
fn save_asset_into_missing_folder_is_refused() {
    let mut store = MetaStore::new();
    let mut disk = Disk::new();

    let r = save_asset(&mut store, &mut disk, vec![1, 2, 3], "vid", "assets/nowhere", "mp4");
    assert_eq!(r.unwrap_err(), ControllerError::NotFound);
    // No metadata record was created.
    assert_eq!(store.asset_count(), 0);
}

#[test]
fn save_asset_writes_bytes_and_record() {
    let mut store = MetaStore::new();
    let mut disk = Disk::new();
    let admin = insert_admin(&mut store, "admin");
    let folder = create_folder(&mut store, &mut disk, admin, "media", None, None).unwrap();

    let data = vec![7u8, 8, 9];
    let asset = save_asset(&mut store, &mut disk, data.clone(), "clip", &folder.path, "mp4")
        .unwrap();

    assert_eq!(asset.tag, "clip");
    assert_eq!(asset.uuid.len(), 36);
    assert_eq!(asset.path, format!("{}/{}.{}", folder.path, asset.uuid, "mp4"));
    assert!(asset.id.is_some());
    // The record is queryable and the bytes are on disk at the path.
    assert!(store.find_asset_by_path(&asset.path).is_some());
    assert_eq!(disk.read_file(&asset.path).unwrap(), &data);
}

#[test]
fn asset_paths_stay_unique_within_a_folder() {
    let mut store = MetaStore::new();
    let mut disk = Disk::new();
    let admin = insert_admin(&mut store, "admin");
    let folder = create_folder(&mut store, &mut disk, admin, "media", None, None).unwrap();

    let a1 = save_asset(&mut store, &mut disk, vec![1], "one", &folder.path, "bin").unwrap();
    let a2 = save_asset(&mut store, &mut disk, vec![2], "two", &folder.path, "bin").unwrap();
    assert_ne!(a1.path, a2.path);
    assert_ne!(a1.uuid, a2.uuid);
    assert_eq!(store.asset_count(), 2);
}

#[test]
fn colliding_identifier_triggers_one_retry() {
    let mut disk = Disk::new();
    disk.create_dir_all("media");
    // Occupy the path the first identifier would get.
    disk.create_dir_all("media/fixed.bin");

    // With a fixed injected generator pair, the retry identifier is chosen.
    let (chosen, path) = allocate_asset_path(&disk, "media", "bin", "fixed", "fresh").unwrap();
    assert_eq!(chosen, "fresh");
    assert_eq!(path, "media/fresh.bin");

    // When the retry collides as well, the collision is surfaced rather
    // than a name silently reused.
    disk.create_dir_all("media/fresh.bin");
    let r = allocate_asset_path(&disk, "media", "bin", "fixed", "fresh");
    assert_eq!(r.unwrap_err(), ControllerError::AlreadyExists);
}

#[test]
fn allocate_asset_path_prefers_the_first_identifier() {
    let mut disk = Disk::new();
    disk.create_dir_all("media");
    let (chosen, path) = allocate_asset_path(&disk, "media", "png", "first", "second").unwrap();
    assert_eq!(chosen, "first");
    assert_eq!(path, "media/first.png");
}
