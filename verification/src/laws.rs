use vstd::prelude::*;
use crate::credentials::bcrypt_verify_of;
use crate::data_models::{Folder, User};
use crate::disk::Disk;
use crate::error::ControllerError;
use crate::file_system::folder_creation_post;
use crate::store::MetaStore;

verus! {

// ---------------------------------------------------------------------------
// Laws that relate several operations of the creation protocols.
// ---------------------------------------------------------------------------

/// Creating a folder twice at the same target: once a creation has
/// succeeded, a second creation aimed at the same target — whatever its
/// admin or access group — reports `AlreadyExists` and changes neither
/// the store nor the directory tree.
pub proof fn lemma_folder_created_twice(
    store0: MetaStore,
    store1: MetaStore,
    store2: MetaStore,
    disk0: Disk,
    disk1: Disk,
    disk2: Disk,
    admin1: u64,
    admin2: u64,
    name: Seq<char>,
    group1: Option<u64>,
    group2: Option<u64>,
    target: Seq<char>,
    f: Folder,
    r2: Result<Folder, ControllerError>,
)
    requires
        folder_creation_post(store0, store1, disk0, disk1, admin1, name, group1, target, Ok(f)),
        folder_creation_post(store1, store2, disk1, disk2, admin2, name, group2, target, r2),
    ensures
        r2 == Err::<Folder, ControllerError>(ControllerError::AlreadyExists),
        store2 == store1,
        disk2 == disk1,
{
    assert(disk1.has_dir(target));
}

/// A folder creation is atomic in its three effects.  On success the
/// directory exists on disk, the metadata record exists in the store,
/// and the admin's administered-folder set holds the new folder's id —
/// all three together.  When the admin does not resolve, the persisted
/// record is compensated away: the store holds exactly the folder
/// records it held before (the directory's fate in that case is a
/// documented gap, not asserted either way).
pub proof fn lemma_folder_creation_atomic(
    pre_store: MetaStore,
    post_store: MetaStore,
    pre_disk: Disk,
    post_disk: Disk,
    admin: u64,
    name: Seq<char>,
    group: Option<u64>,
    target: Seq<char>,
    r: Result<Folder, ControllerError>,
)
    requires
        folder_creation_post(pre_store, post_store, pre_disk, post_disk, admin, name, group, target, r),
    ensures
        r matches Ok(f) ==> {
            &&& post_disk.has_dir(target)
            &&& post_store.has_folder_path(target)
            &&& post_store.user_with_id(admin).folder_admins.contains(f@.id->0)
        },
        r == Err::<Folder, ControllerError>(ControllerError::NotFound) ==> post_store.folders()
            == pre_store.folders(),
{
    if r is Ok {
        let f = r->Ok_0;
        let n = pre_store.folders().len();
        assert(post_store.folders()[n as int].path == target);
    }
}

/// Registration followed by login: once a user has been created under
/// a fresh username, that username resolves to exactly the created
/// record, and the stored credential verifies against the password that
/// was registered — so a login with the same username and password
/// returns this user and never "not found".
pub proof fn lemma_created_user_logs_in(
    pre: MetaStore,
    post: MetaStore,
    u: User,
    name: Seq<char>,
    pass: Seq<char>,
)
    requires
        !pre.has_user_named(name),
        u@.user == name,
        bcrypt_verify_of(pass, u@.pass) == Some(true),
        post.users() == pre.users().push(u@),
    ensures
        post.has_user_named(name),
        post.user_named(name) == u@,
        bcrypt_verify_of(pass, post.user_named(name).pass) == Some(true),
{
    let n = pre.users().len() as int;
    assert(post.users()[n].user == name);
    let k = choose|k: int|
        0 <= k < post.users().len() && (#[trigger] post.users()[k]).user == name;
    assert(k == n) by {
        if k < n {
            assert(pre.users()[k].user == name);
        }
    }
}

/// Asset paths are unique among all assets ever recorded: the store's
/// unique index keeps any two stored asset records on distinct paths
/// (and distinct uuids).
pub proof fn lemma_asset_paths_unique(store: MetaStore, i: int, j: int)
    requires
        store.wf(),
        0 <= i < j < store.assets().len(),
    ensures
        store.assets()[i].path != store.assets()[j].path,
        store.assets()[i].uuid != store.assets()[j].uuid,
{
}

} // verus!
