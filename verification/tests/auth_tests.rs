use asset_store::data_models::User;
use asset_store::error::ControllerError;
use asset_store::auth::{login_user, register_new_access_group};
use asset_store::file_system::create_user;
use asset_store::store::MetaStore;
use asset_store::util::get_readable_timestamp;

#[test]
fn login_with_correct_password_returns_the_user() {
    let mut store = MetaStore::new();
    let created = create_user(&mut store, "admin", "root").unwrap();
    // The plaintext is never stored.
    assert_ne!(created.pass, "root");
    assert_eq!(created.timestamp_readable, get_readable_timestamp(created.timestamp));

    let logged_in = login_user(&store, "admin", "root").unwrap().unwrap();
    assert_eq!(logged_in.user, "admin");
    assert_eq!(logged_in.id, created.id);
}

#[test]
fn login_with_wrong_password_is_none() {
    let mut store = MetaStore::new();
    create_user(&mut store, "admin", "root").unwrap();
    let r = login_user(&store, "admin", "wrong").unwrap();
    assert!(r.is_none());
}

#[test]
fn login_with_unknown_username_is_the_same_none() {
    let store = MetaStore::new();
    // Absent username and wrong password give the very same outcome.
    let r = login_user(&store, "nobody", "root").unwrap();
    assert!(r.is_none());
}

#[test]
fn malformed_stored_hash_is_a_credential_error_not_none() {
    let mut store = MetaStore::new();
    let user = User {
        id: None,
        user: "broken".to_string(),
        pass: "not-a-bcrypt-hash".to_string(),
        keys: vec![],
        key_admins: vec![],
        user_admins: vec![],
        folder_admins: vec![],
        access_group_admins: vec![],
        timestamp: 0,
        timestamp_readable: "".to_string(),
    };
    store.save_user(user).unwrap();
    let r = login_user(&store, "broken", "anything");
    assert_eq!(r.unwrap_err(), ControllerError::CredentialError);
}

#[test]
fn duplicate_username_is_refused() {
    let mut store = MetaStore::new();
    create_user(&mut store, "admin", "one").unwrap();
    let second = create_user(&mut store, "admin", "two");
    assert_eq!(second.unwrap_err(), ControllerError::AlreadyExists);
    assert_eq!(store.user_count(), 1);
}

#[test]
fn access_group_registration_enforces_unique_tags() {
    let mut store = MetaStore::new();
    assert!(register_new_access_group(&mut store, 1, "readers").is_ok());
    assert_eq!(store.access_group_count(), 1);
    let dup = register_new_access_group(&mut store, 1, "readers");
    assert_eq!(dup.unwrap_err(), ControllerError::AlreadyExists);
    assert_eq!(store.access_group_count(), 1);
}
