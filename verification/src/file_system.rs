use vstd::prelude::*;
use crate::credentials::{bcrypt_hash, bcrypt_verify_of, HASH_COST};
use crate::data_models::{Asset, Folder, FolderView, User};
use crate::disk::Disk;
use crate::error::ControllerError;
use crate::paths::{
    asset_main_path, asset_path, join_path, opt_view, spec_asset_path, spec_folder_target,
    spec_join, spec_parent_target,
};
use crate::store::{saved_folder, saved_user, user_granted_folder, MetaStore};
use crate::util::{get_time_meta, get_uuid, readable_of};

verus! {

// ---------------------------------------------------------------------------
// The creation protocols: each operation must leave the directory tree
// and the metadata store consistent, compensating already-committed
// steps when a later step is refused.
// ---------------------------------------------------------------------------

/// The access groups a new folder starts with: the one supplied, or
/// none at all (a public folder).
pub open spec fn starting_groups(group: Option<u64>) -> Seq<u64> {
    match group {
        Some(g) => seq![g],
        None => Seq::<u64>::empty(),
    }
}

/// What a successfully created folder record looks like, and how the
/// store changed around it: the record is appended, the admin's
/// administered-folder set gains its id, and nothing else moves.
pub open spec fn folder_creation_ok(
    pre: MetaStore,
    post: MetaStore,
    admin: u64,
    name: Seq<char>,
    group: Option<u64>,
    target: Seq<char>,
    f: FolderView,
) -> bool {
    &&& f.id == Some(pre.next_id())
    &&& f.tag == name
    &&& f.path == target
    &&& f.files == Seq::<u64>::empty()
    &&& f.is_public == (group is None)
    &&& f.access_groups == starting_groups(group)
    &&& f.timestamp_readable == readable_of(f.timestamp)
    &&& post.folders() == pre.folders().push(f)
    &&& exists|i: int|
        0 <= i < pre.users().len() && (#[trigger] pre.users()[i]).id == Some(admin)
            && post.users() == pre.users().update(
            i,
            user_granted_folder(pre.users()[i], pre.next_id()),
        )
    &&& post.has_user_id(admin)
    &&& post.user_with_id(admin).folder_admins.contains(pre.next_id())
    &&& post.assets() == pre.assets()
    &&& post.access_groups() == pre.access_groups()
    &&& post.next_id() == pre.next_id() + 1
}

/// The full outcome of a folder creation aimed at `target`.
///
/// Exactly one of four outcomes holds, decided by the pre-state: a
/// collision (on disk, or against the stored tags and paths), an
/// exhausted id counter, a missing admin user — in which case the
/// already-persisted record is compensated away and only the directory
/// is left behind — or success, which commits the directory, the
/// record, and the admin linkage together.
pub open spec fn folder_creation_post(
    pre_store: MetaStore,
    post_store: MetaStore,
    pre_disk: Disk,
    post_disk: Disk,
    admin: u64,
    name: Seq<char>,
    group: Option<u64>,
    target: Seq<char>,
    r: Result<Folder, ControllerError>,
) -> bool {
    let existed = pre_disk.has_path(target);
    let conflict = pre_store.folder_conflict(name, target);
    let room = pre_store.next_id() < u64::MAX;
    let admin_ok = pre_store.has_user_id(admin);
    &&& (r == Err::<Folder, ControllerError>(ControllerError::AlreadyExists) <==> (existed
        || conflict))
    &&& (r == Err::<Folder, ControllerError>(ControllerError::StoreError) <==> (!existed
        && !conflict && !room))
    &&& (r == Err::<Folder, ControllerError>(ControllerError::NotFound) <==> (!existed && !conflict
        && room && !admin_ok))
    &&& (r is Ok <==> (!existed && !conflict && room && admin_ok))
    &&& (existed ==> post_disk == pre_disk && post_store == pre_store)
    &&& (!existed ==> (forall|q: Seq<char>| post_disk.has_dir(q) <==> pre_disk.has_dir(q) || q
        == target) && (forall|q: Seq<char>| post_disk.has_file(q) == pre_disk.has_file(q)) && (
    forall|q: Seq<char>|
        post_disk.has_file(q) ==> post_disk.file_content(q) == pre_disk.file_content(q)))
    &&& ((r == Err::<Folder, ControllerError>(ControllerError::AlreadyExists) || r == Err::<
        Folder,
        ControllerError,
    >(ControllerError::StoreError)) ==> post_store == pre_store)
    &&& (r == Err::<Folder, ControllerError>(ControllerError::NotFound) ==> {
        &&& post_store.folders() == pre_store.folders()
        &&& post_store.users() == pre_store.users()
        &&& post_store.assets() == pre_store.assets()
        &&& post_store.access_groups() == pre_store.access_groups()
        &&& post_store.next_id() == pre_store.next_id() + 1
    })
    &&& (r matches Ok(f) ==> folder_creation_ok(pre_store, post_store, admin, name, group, target, f@))
}

/// Creates a user for the file system: hashes the password, builds the
/// record, and persists it under the unique-username index.
///
/// The stored record never holds the plaintext: it holds a hash that
/// bcrypt accepts for `pass`.  A hashing failure is `CredentialError`;
/// a taken username is `AlreadyExists`; an exhausted id counter is
/// `StoreError`.  On any failure the store is untouched.
pub fn create_user(store: &mut MetaStore, user: &str, pass: &str) -> (r: Result<
    User,
    ControllerError,
>)
    requires
        old(store).wf(),
    ensures
        final(store).wf(),
        r matches Ok(u) ==> {
            &&& !old(store).has_user_named(user@)
            &&& u@.user == user@
            &&& u@.id == Some(old(store).next_id())
            &&& bcrypt_verify_of(pass@, u@.pass) == Some(true)
            &&& u@.keys == Seq::<u64>::empty()
            &&& u@.key_admins == Seq::<u64>::empty()
            &&& u@.user_admins == Seq::<u64>::empty()
            &&& u@.folder_admins == Seq::<u64>::empty()
            &&& u@.access_group_admins == Seq::<u64>::empty()
            &&& u@.timestamp_readable == readable_of(u@.timestamp)
            &&& final(store).users() == old(store).users().push(u@)
            &&& final(store).folders() == old(store).folders()
            &&& final(store).assets() == old(store).assets()
            &&& final(store).access_groups() == old(store).access_groups()
            &&& final(store).next_id() == old(store).next_id() + 1
        },
        r is Err ==> *final(store) == *old(store),
        r is Err ==> (r == Err::<User, ControllerError>(ControllerError::AlreadyExists) || r
            == Err::<User, ControllerError>(ControllerError::CredentialError) || r == Err::<
            User,
            ControllerError,
        >(ControllerError::StoreError)),
        r == Err::<User, ControllerError>(ControllerError::AlreadyExists) ==> old(
            store,
        ).has_user_named(user@),
        old(store).has_user_named(user@) ==> (r == Err::<User, ControllerError>(
            ControllerError::AlreadyExists,
        ) || r == Err::<User, ControllerError>(ControllerError::CredentialError)),
        r == Err::<User, ControllerError>(ControllerError::StoreError) ==> (!old(
            store,
        ).has_user_named(user@) && old(store).next_id() == u64::MAX),
{
    let hashed = match bcrypt_hash(pass, HASH_COST) {
        Err(_) => {
            return Err(ControllerError::CredentialError);
        },
        Ok(h) => h,
    };
    let (timestamp, timestamp_readable) = get_time_meta();
    let user_doc = User {
        id: None,
        user: user.to_owned(),
        pass: hashed,
        keys: Vec::new(),
        key_admins: Vec::new(),
        user_admins: Vec::new(),
        folder_admins: Vec::new(),
        access_group_admins: Vec::new(),
        timestamp,
        timestamp_readable,
    };
    let ghost uv0 = user_doc@;
    let ret = user_doc.clone();
    let id = match store.save_user(user_doc) {
        Err(e) => {
            return Err(e);
        },
        Ok(id) => id,
    };
    let mut ret = ret;
    ret.id = Some(id);
    proof {
        assert(ret@ =~= saved_user(uv0, id));
    }
    Ok(ret)
}

/// Creates a folder and its associated store records.
///
/// The target path is the static path when one is supplied (used for
/// sub-folders), else `folder_name` under the root directory.  The
/// directory is created before the record is persisted; if persisting
/// is refused, the directory stays behind as a logged, degraded state.
/// If the admin user does not resolve, the just-persisted record is
/// compensated away (the directory is left in place) and the operation
/// reports `NotFound`: a folder without an accountable admin is never
/// left in the store.
pub fn create_folder(
    store: &mut MetaStore,
    disk: &mut Disk,
    admin: u64,
    folder_name: &str,
    start_access_group: Option<u64>,
    static_folder_path: Option<&str>,
) -> (r: Result<Folder, ControllerError>)
    requires
        old(store).wf(),
        old(disk).wf(),
    ensures
        final(store).wf(),
        final(disk).wf(),
        folder_creation_post(
            *old(store),
            *final(store),
            *old(disk),
            *final(disk),
            admin,
            folder_name@,
            start_access_group,
            spec_folder_target(folder_name@, opt_view(static_folder_path)),
            r,
        ),
{
    let ghost pre_store = *old(store);
    let folder_path: String = match static_folder_path {
        Some(p) => p.to_owned(),
        None => join_path(asset_main_path().as_str(), folder_name),
    };
    let ghost target = spec_folder_target(folder_name@, opt_view(static_folder_path));
    proof {
        assert(folder_path@ == target);
    }

    // Check if a folder already exists at this path on disk.
    if disk.path_exists(folder_path.as_str()) {
        return Err(ControllerError::AlreadyExists);
    }

    // Create the directory on disk first: a half-committed record is
    // harder to retry than a leftover directory.
    disk.create_dir_all(folder_path.as_str());

    let (timestamp, timestamp_readable) = get_time_meta();
    let is_public = start_access_group.is_none();
    let access_groups: Vec<u64> = match start_access_group {
        Some(g) => {
            let mut v: Vec<u64> = Vec::new();
            v.push(g);
            v
        },
        None => Vec::new(),
    };
    let folder_doc = Folder {
        id: None,
        tag: folder_name.to_owned(),
        path: folder_path,
        files: Vec::new(),
        is_public,
        access_groups,
        timestamp,
        timestamp_readable,
    };
    let ghost fv0 = folder_doc@;
    proof {
        assert(fv0.access_groups =~= starting_groups(start_access_group));
        assert(fv0.files =~= Seq::<u64>::empty());
    }
    let ret = folder_doc.clone();

    // Persist the folder record under the unique tag and path indexes.
    let id = match store.save_folder(folder_doc) {
        Err(e) => {
            return Err(e);
        },
        Ok(id) => id,
    };
    let ghost mid_store = *store;

    // Grant the new folder to the requesting admin.  This is the
    // authorization-establishing step: a folder with no linked admin is
    // unusable.
    let found = store.link_folder_admin(admin, id);
    if !found {
        // Compensate: the record has no admin, so remove it again.
        let ghost before_delete = *store;
        proof {
            assert(mid_store.folders()[mid_store.folders().len() - 1].id == Some(id));
            assert(store.has_folder_id(id));
        }
        let removed = store.delete_folder(id);
        proof {
            assert(removed);
            let i = choose|i: int|
                0 <= i < before_delete.folders().len() && (#[trigger] before_delete.folders()[i]).id
                    == Some(id) && store.folders() == before_delete.folders().remove(i);
            let last = before_delete.folders().len() - 1;
            assert(i == last) by {
                if i < last {
                    assert(before_delete.folders()[i].id != before_delete.folders()[last].id);
                }
            }
            assert(store.folders() =~= pre_store.folders());
        }
        return Err(ControllerError::NotFound);
    }

    let mut ret = ret;
    ret.id = Some(id);
    proof {
        assert(ret@ =~= saved_folder(fv0, id));
    }
    Ok(ret)
}

/// Creates a sub-folder: composes `parent_path/folder_name` and runs
/// the same creation protocol against that target.
///
/// Whether `parent_path` corresponds to a previously created folder
/// record is not verified here: callers must ensure it.
pub fn create_sub_folder(
    store: &mut MetaStore,
    disk: &mut Disk,
    admin: u64,
    parent_path: &str,
    folder_name: &str,
    start_access_group: Option<u64>,
) -> (r: Result<Folder, ControllerError>)
    requires
        old(store).wf(),
        old(disk).wf(),
    ensures
        final(store).wf(),
        final(disk).wf(),
        folder_creation_post(
            *old(store),
            *final(store),
            *old(disk),
            *final(disk),
            admin,
            folder_name@,
            start_access_group,
            spec_join(parent_path@, folder_name@),
            r,
        ),
{
    let sub_path = join_path(parent_path, folder_name);
    create_folder(store, disk, admin, folder_name, start_access_group, Some(sub_path.as_str()))
}

/// Reserves a collision-free asset path under `folder_path`.
///
/// `first_id` is tried first; when the derived path already exists on
/// disk, one retry with `retry_id` happens before `AlreadyExists` is
/// surfaced — a colliding name is never silently reused.  Returns the
/// chosen identifier together with the derived path.
pub fn allocate_asset_path(
    disk: &Disk,
    folder_path: &str,
    extension: &str,
    first_id: &str,
    retry_id: &str,
) -> (r: Result<(String, String), ControllerError>)
    ensures
        ({
            let p1 = spec_asset_path(folder_path@, first_id@, extension@);
            let p2 = spec_asset_path(folder_path@, retry_id@, extension@);
            &&& (r is Ok <==> (!disk.has_path(p1) || !disk.has_path(p2)))
            &&& (r == Err::<(String, String), ControllerError>(ControllerError::AlreadyExists)
                <==> (disk.has_path(p1) && disk.has_path(p2)))
            &&& (!disk.has_path(p1) ==> (r matches Ok(pair) && pair.0@ == first_id@ && pair.1@
                == p1))
            &&& ((disk.has_path(p1) && !disk.has_path(p2)) ==> (r matches Ok(pair) && pair.0@
                == retry_id@ && pair.1@ == p2))
            &&& (r matches Ok(pair) ==> !disk.has_path(pair.1@) && pair.1@ == spec_asset_path(
                folder_path@,
                pair.0@,
                extension@,
            ))
        }),
{
    let p1 = asset_path(folder_path, first_id, extension);
    if !disk.path_exists(p1.as_str()) {
        return Ok((first_id.to_owned(), p1));
    }
    let p2 = asset_path(folder_path, retry_id, extension);
    if !disk.path_exists(p2.as_str()) {
        return Ok((retry_id.to_owned(), p2));
    }
    Err(ControllerError::AlreadyExists)
}

/// Derives the target path of a folder (`parent_path/name` when a
/// parent is given, else `name` under the root directory) and reserves
/// it against the directory tree.
pub fn allocate_folder_path(disk: &Disk, parent_path: Option<&str>, name: &str) -> (r: Result<
    String,
    ControllerError,
>)
    ensures
        ({
            let target = spec_parent_target(opt_view(parent_path), name@);
            &&& (r is Ok <==> !disk.has_path(target))
            &&& (r == Err::<String, ControllerError>(ControllerError::AlreadyExists) <==> disk.has_path(
                target,
            ))
            &&& (r matches Ok(p) ==> p@ == target)
        }),
{
    let target: String = match parent_path {
        Some(p) => join_path(p, name),
        None => join_path(asset_main_path().as_str(), name),
    };
    if disk.path_exists(target.as_str()) {
        return Err(ControllerError::AlreadyExists);
    }
    Ok(target)
}

/// Saves an asset: a binary file written into an existing folder, with
/// a matching metadata record.
///
/// Refused with `NotFound` — and nothing is written anywhere — when no
/// directory exists at `folder_path`.  A fresh random identifier names
/// the file; on an on-disk collision one retry with a second fresh
/// identifier precedes `AlreadyExists`.  The record is persisted under
/// the unique uuid and path indexes before the bytes are written.  On
/// success the returned record's path is new to the store and to the
/// disk, and the file at that path holds exactly `file_data`.
pub fn save_asset(
    store: &mut MetaStore,
    disk: &mut Disk,
    file_data: Vec<u8>,
    tag: &str,
    folder_path: &str,
    extension: &str,
) -> (r: Result<Asset, ControllerError>)
    requires
        old(store).wf(),
        old(disk).wf(),
    ensures
        final(store).wf(),
        final(disk).wf(),
        r == Err::<Asset, ControllerError>(ControllerError::NotFound) <==> !old(disk).has_path(
            folder_path@,
        ),
        r is Err ==> *final(store) == *old(store) && *final(disk) == *old(disk),
        r is Err ==> (r == Err::<Asset, ControllerError>(ControllerError::NotFound) || r == Err::<
            Asset,
            ControllerError,
        >(ControllerError::AlreadyExists) || r == Err::<Asset, ControllerError>(
            ControllerError::StoreError,
        )),
        r == Err::<Asset, ControllerError>(ControllerError::StoreError) ==> old(store).next_id()
            == u64::MAX,
        r matches Ok(a) ==> {
            &&& a@.id == Some(old(store).next_id())
            &&& a@.tag == tag@
            &&& a@.uuid.len() == 36
            &&& a@.path == spec_asset_path(folder_path@, a@.uuid, extension@)
            &&& !old(disk).has_path(a@.path)
            &&& !old(store).has_asset_path(a@.path)
            &&& !old(store).has_asset_uuid(a@.uuid)
            &&& a@.timestamp_readable == readable_of(a@.timestamp)
            &&& final(store).assets() == old(store).assets().push(a@)
            &&& final(store).users() == old(store).users()
            &&& final(store).folders() == old(store).folders()
            &&& final(store).access_groups() == old(store).access_groups()
            &&& final(store).next_id() == old(store).next_id() + 1
            &&& forall|q: Seq<char>|
                final(disk).has_file(q) <==> old(disk).has_file(q) || q == a@.path
            &&& forall|q: Seq<char>| final(disk).has_dir(q) == old(disk).has_dir(q)
            &&& final(disk).file_content(a@.path) == file_data@
            &&& forall|q: Seq<char>|
                old(disk).has_file(q) ==> final(disk).file_content(q) == old(disk).file_content(q)
        },
{
    // The folder must already exist on disk.
    if !disk.path_exists(folder_path) {
        return Err(ControllerError::NotFound);
    }

    // Reserve a collision-free path from two fresh identifiers.
    let first_id = get_uuid();
    let retry_id = get_uuid();
    let allocated = allocate_asset_path(
        disk,
        folder_path,
        extension,
        first_id.as_str(),
        retry_id.as_str(),
    );
    let (uuid, path) = match allocated {
        Err(e) => {
            return Err(e);
        },
        Ok(pair) => pair,
    };

    let (timestamp, timestamp_readable) = get_time_meta();
    let asset_doc = Asset { id: None, uuid, tag: tag.to_owned(), path, timestamp, timestamp_readable };
    let ret = asset_doc.clone();

    // Persist the record, then write the bytes to disk.
    let id = match store.save_asset_record(asset_doc) {
        Err(e) => {
            return Err(e);
        },
        Ok(id) => id,
    };
    disk.write(ret.path.as_str(), file_data);

    let mut ret = ret;
    ret.id = Some(id);
    Ok(ret)
}

} // verus!
