use vstd::prelude::*;
use crate::data_models::{
    AccessGroup, AccessGroupView, Asset, AssetView, Folder, FolderView, User, UserView,
};
use crate::error::ControllerError;
use crate::paths::str_eq;

verus! {

// ---------------------------------------------------------------------------
// The metadata store, as the creation protocols see it: one collection
// per entity type, a fresh-id counter, and the unique indexes that the
// backing database is required to maintain (username, folder tag and
// path, asset uuid and path, access-group tag).
//
// A save that would violate a unique index is refused with
// `AlreadyExists` — the store is the authoritative arbiter of
// collisions, exactly as the database's uniqueness constraint is.
// ---------------------------------------------------------------------------

/// The metadata collections, with ids assigned at save time.
pub struct MetaStore {
    users: Vec<User>,
    folders: Vec<Folder>,
    assets: Vec<Asset>,
    access_groups: Vec<AccessGroup>,
    next_id: u64,
}

/// The view of a user record once the store has assigned it `id`.
pub open spec fn saved_user(u: UserView, id: u64) -> UserView {
    UserView {
        id: Some(id),
        user: u.user,
        pass: u.pass,
        keys: u.keys,
        key_admins: u.key_admins,
        user_admins: u.user_admins,
        folder_admins: u.folder_admins,
        access_group_admins: u.access_group_admins,
        timestamp: u.timestamp,
        timestamp_readable: u.timestamp_readable,
    }
}

/// The view of a folder record once the store has assigned it `id`.
pub open spec fn saved_folder(f: FolderView, id: u64) -> FolderView {
    FolderView {
        id: Some(id),
        tag: f.tag,
        path: f.path,
        files: f.files,
        is_public: f.is_public,
        access_groups: f.access_groups,
        timestamp: f.timestamp,
        timestamp_readable: f.timestamp_readable,
    }
}

/// The view of an asset record once the store has assigned it `id`.
pub open spec fn saved_asset(a: AssetView, id: u64) -> AssetView {
    AssetView {
        id: Some(id),
        uuid: a.uuid,
        tag: a.tag,
        path: a.path,
        timestamp: a.timestamp,
        timestamp_readable: a.timestamp_readable,
    }
}

/// The view of an access-group record once the store has assigned it `id`.
pub open spec fn saved_group(g: AccessGroupView, id: u64) -> AccessGroupView {
    AccessGroupView { id: Some(id), tag: g.tag, allowed_keys: g.allowed_keys, timestamp: g.timestamp }
}

/// The view of user `u` after folder `fid` has been granted to it:
/// `fid` is added to its administered folders, as a set (no duplicate
/// entries).
pub open spec fn user_granted_folder(u: UserView, fid: u64) -> UserView {
    UserView {
        id: u.id,
        user: u.user,
        pass: u.pass,
        keys: u.keys,
        key_admins: u.key_admins,
        user_admins: u.user_admins,
        folder_admins: if u.folder_admins.contains(fid) {
            u.folder_admins
        } else {
            u.folder_admins.push(fid)
        },
        access_group_admins: u.access_group_admins,
        timestamp: u.timestamp,
        timestamp_readable: u.timestamp_readable,
    }
}

impl MetaStore {
    // -- views ---------------------------------------------------------

    /// The stored user records.
    pub closed spec fn users(self) -> Seq<UserView> {
        self.users@.map_values(|u: User| u@)
    }

    /// The stored folder records.
    pub closed spec fn folders(self) -> Seq<FolderView> {
        self.folders@.map_values(|f: Folder| f@)
    }

    /// The stored asset records.
    pub closed spec fn assets(self) -> Seq<AssetView> {
        self.assets@.map_values(|a: Asset| a@)
    }

    /// The stored access-group records.
    pub closed spec fn access_groups(self) -> Seq<AccessGroupView> {
        self.access_groups@.map_values(|g: AccessGroup| g@)
    }

    /// The id the next saved record will receive.
    pub closed spec fn next_id(self) -> u64 {
        self.next_id
    }

    // -- membership ----------------------------------------------------

    /// True when a user with username `name` is stored.
    pub open spec fn has_user_named(self, name: Seq<char>) -> bool {
        exists|i: int| 0 <= i < self.users().len() && (#[trigger] self.users()[i]).user == name
    }

    /// True when a user with id `id` is stored.
    pub open spec fn has_user_id(self, id: u64) -> bool {
        exists|i: int| 0 <= i < self.users().len() && (#[trigger] self.users()[i]).id == Some(id)
    }

    /// True when a folder with path `p` is stored.
    pub open spec fn has_folder_path(self, p: Seq<char>) -> bool {
        exists|i: int| 0 <= i < self.folders().len() && (#[trigger] self.folders()[i]).path == p
    }

    /// True when a folder with tag `t` is stored.
    pub open spec fn has_folder_tag(self, t: Seq<char>) -> bool {
        exists|i: int| 0 <= i < self.folders().len() && (#[trigger] self.folders()[i]).tag == t
    }

    /// True when a folder with id `id` is stored.
    pub open spec fn has_folder_id(self, id: u64) -> bool {
        exists|i: int| 0 <= i < self.folders().len() && (#[trigger] self.folders()[i]).id == Some(
            id,
        )
    }

    /// True when saving a folder with tag `t` and path `p` would break a
    /// unique index.
    pub open spec fn folder_conflict(self, t: Seq<char>, p: Seq<char>) -> bool {
        self.has_folder_tag(t) || self.has_folder_path(p)
    }

    /// True when an asset with path `p` is stored.
    pub open spec fn has_asset_path(self, p: Seq<char>) -> bool {
        exists|i: int| 0 <= i < self.assets().len() && (#[trigger] self.assets()[i]).path == p
    }

    /// True when an asset with uuid `u` is stored.
    pub open spec fn has_asset_uuid(self, u: Seq<char>) -> bool {
        exists|i: int| 0 <= i < self.assets().len() && (#[trigger] self.assets()[i]).uuid == u
    }

    /// True when saving an asset with uuid `u` and path `p` would break
    /// a unique index.
    pub open spec fn asset_conflict(self, u: Seq<char>, p: Seq<char>) -> bool {
        self.has_asset_uuid(u) || self.has_asset_path(p)
    }

    /// True when an access group with tag `t` is stored.
    pub open spec fn has_group_tag(self, t: Seq<char>) -> bool {
        exists|i: int|
            0 <= i < self.access_groups().len() && (#[trigger] self.access_groups()[i]).tag == t
    }

    /// The stored user with id `id` (meaningful when `has_user_id(id)`).
    pub open spec fn user_with_id(self, id: u64) -> UserView {
        self.users()[choose|i: int|
            0 <= i < self.users().len() && (#[trigger] self.users()[i]).id == Some(id)]
    }

    /// The stored user with username `name` (meaningful when
    /// `has_user_named(name)`).
    pub open spec fn user_named(self, name: Seq<char>) -> UserView {
        self.users()[choose|i: int|
            0 <= i < self.users().len() && (#[trigger] self.users()[i]).user == name]
    }

    // -- well-formedness -----------------------------------------------

    /// Users: ids assigned, below the counter and distinct; usernames
    /// unique.
    pub open spec fn users_wf(self) -> bool {
        &&& forall|i: int|
            0 <= i < self.users().len() ==> (#[trigger] self.users()[i]).id is Some && self.users()[i].id->0
                < self.next_id()
        &&& forall|i: int, j: int|
            #![trigger self.users()[i], self.users()[j]]
            0 <= i < j < self.users().len() ==> self.users()[i].id != self.users()[j].id
                && self.users()[i].user != self.users()[j].user
    }

    /// Folders: ids assigned, below the counter and distinct; tags and
    /// paths each unique.
    pub open spec fn folders_wf(self) -> bool {
        &&& forall|i: int|
            0 <= i < self.folders().len() ==> (#[trigger] self.folders()[i]).id is Some
                && self.folders()[i].id->0 < self.next_id()
        &&& forall|i: int, j: int|
            #![trigger self.folders()[i], self.folders()[j]]
            0 <= i < j < self.folders().len() ==> self.folders()[i].id != self.folders()[j].id
                && self.folders()[i].tag != self.folders()[j].tag && self.folders()[i].path
                != self.folders()[j].path
    }

    /// Assets: ids assigned, below the counter and distinct; uuids and
    /// paths each unique.
    pub open spec fn assets_wf(self) -> bool {
        &&& forall|i: int|
            0 <= i < self.assets().len() ==> (#[trigger] self.assets()[i]).id is Some
                && self.assets()[i].id->0 < self.next_id()
        &&& forall|i: int, j: int|
            #![trigger self.assets()[i], self.assets()[j]]
            0 <= i < j < self.assets().len() ==> self.assets()[i].id != self.assets()[j].id
                && self.assets()[i].uuid != self.assets()[j].uuid && self.assets()[i].path
                != self.assets()[j].path
    }

    /// Access groups: ids assigned, below the counter and distinct; tags
    /// unique.
    pub open spec fn groups_wf(self) -> bool {
        &&& forall|i: int|
            0 <= i < self.access_groups().len() ==> (#[trigger] self.access_groups()[i]).id is Some
                && self.access_groups()[i].id->0 < self.next_id()
        &&& forall|i: int, j: int|
            #![trigger self.access_groups()[i], self.access_groups()[j]]
            0 <= i < j < self.access_groups().len() ==> self.access_groups()[i].id
                != self.access_groups()[j].id && self.access_groups()[i].tag
                != self.access_groups()[j].tag
    }

    /// The unique indexes the backing store maintains.
    pub open spec fn wf(self) -> bool {
        self.users_wf() && self.folders_wf() && self.assets_wf() && self.groups_wf()
    }

    // -- construction --------------------------------------------------

    /// An empty store.
    pub fn new() -> (r: MetaStore)
        ensures
            r.wf(),
            r.users() == Seq::<UserView>::empty(),
            r.folders() == Seq::<FolderView>::empty(),
            r.assets() == Seq::<AssetView>::empty(),
            r.access_groups() == Seq::<AccessGroupView>::empty(),
            r.next_id() == 1,
    {
        let r = MetaStore {
            users: Vec::new(),
            folders: Vec::new(),
            assets: Vec::new(),
            access_groups: Vec::new(),
            next_id: 1,
        };
        proof {
            assert(r.users() =~= Seq::<UserView>::empty());
            assert(r.folders() =~= Seq::<FolderView>::empty());
            assert(r.assets() =~= Seq::<AssetView>::empty());
            assert(r.access_groups() =~= Seq::<AccessGroupView>::empty());
        }
        r
    }

    // -- lookups -------------------------------------------------------

    /// Finds the index of the user named `name`.
    fn user_index_by_name(&self, name: &str) -> (r: Option<usize>)
        ensures
            match r {
                Some(i) => i < self.users().len() && self.users()[i as int].user == name@,
                None => !self.has_user_named(name@),
            },
    {
        let mut i: usize = 0;
        while i < self.users.len()
            invariant
                i <= self.users@.len(),
                forall|k: int| 0 <= k < i ==> (#[trigger] self.users()[k]).user != name@,
            decreases self.users@.len() - i,
        {
            if str_eq(self.users[i].user.as_str(), name) {
                return Some(i);
            }
            i += 1;
        }
        None
    }

    /// Finds the index of the user with id `id`.
    fn user_index_by_id(&self, id: u64) -> (r: Option<usize>)
        ensures
            match r {
                Some(i) => i < self.users().len() && self.users()[i as int].id == Some(id),
                None => !self.has_user_id(id),
            },
    {
        let mut i: usize = 0;
        while i < self.users.len()
            invariant
                i <= self.users@.len(),
                forall|k: int| 0 <= k < i ==> (#[trigger] self.users()[k]).id != Some(id),
            decreases self.users@.len() - i,
        {
            if self.users[i].id.is_some() {
                let uid = *self.users[i].id.as_ref().unwrap();
                if uid == id {
                    return Some(i);
                }
            }
            i += 1;
        }
        None
    }

    /// Finds the index of the folder with id `id`.
    fn folder_index_by_id(&self, id: u64) -> (r: Option<usize>)
        ensures
            match r {
                Some(i) => i < self.folders().len() && self.folders()[i as int].id == Some(id),
                None => !self.has_folder_id(id),
            },
    {
        let mut i: usize = 0;
        while i < self.folders.len()
            invariant
                i <= self.folders@.len(),
                forall|k: int| 0 <= k < i ==> (#[trigger] self.folders()[k]).id != Some(id),
            decreases self.folders@.len() - i,
        {
            if self.folders[i].id.is_some() {
                let fid = *self.folders[i].id.as_ref().unwrap();
                if fid == id {
                    return Some(i);
                }
            }
            i += 1;
        }
        None
    }

    /// True when a stored folder collides with tag `t` or path `p`.
    fn folder_conflict_check(&self, t: &str, p: &str) -> (r: bool)
        ensures
            r == self.folder_conflict(t@, p@),
    {
        let mut i: usize = 0;
        while i < self.folders.len()
            invariant
                i <= self.folders@.len(),
                forall|k: int|
                    0 <= k < i ==> (#[trigger] self.folders()[k]).tag != t@ && self.folders()[k].path
                        != p@,
            decreases self.folders@.len() - i,
        {
            if str_eq(self.folders[i].tag.as_str(), t) || str_eq(self.folders[i].path.as_str(), p) {
                proof {
                    assert(self.folders()[i as int].tag == t@ || self.folders()[i as int].path
                        == p@);
                }
                return true;
            }
            i += 1;
        }
        false
    }

    /// True when a stored asset collides with uuid `u` or path `p`.
    fn asset_conflict_check(&self, u: &str, p: &str) -> (r: bool)
        ensures
            r == self.asset_conflict(u@, p@),
    {
        let mut i: usize = 0;
        while i < self.assets.len()
            invariant
                i <= self.assets@.len(),
                forall|k: int|
                    0 <= k < i ==> (#[trigger] self.assets()[k]).uuid != u@ && self.assets()[k].path
                        != p@,
            decreases self.assets@.len() - i,
        {
            if str_eq(self.assets[i].uuid.as_str(), u) || str_eq(self.assets[i].path.as_str(), p) {
                proof {
                    assert(self.assets()[i as int].uuid == u@ || self.assets()[i as int].path
                        == p@);
                }
                return true;
            }
            i += 1;
        }
        false
    }

    /// True when a stored access group has tag `t`.
    fn group_tag_check(&self, t: &str) -> (r: bool)
        ensures
            r == self.has_group_tag(t@),
    {
        let mut i: usize = 0;
        while i < self.access_groups.len()
            invariant
                i <= self.access_groups@.len(),
                forall|k: int| 0 <= k < i ==> (#[trigger] self.access_groups()[k]).tag != t@,
            decreases self.access_groups@.len() - i,
        {
            if str_eq(self.access_groups[i].tag.as_str(), t) {
                proof {
                    assert(self.access_groups()[i as int].tag == t@);
                }
                return true;
            }
            i += 1;
        }
        false
    }

    /// Looks up a user record by username.
    pub fn find_user_by_name(&self, name: &str) -> (r: Option<&User>)
        requires
            self.wf(),
        ensures
            match r {
                Some(u) => self.has_user_named(name@) && u@.user == name@ && u@
                    == self.user_named(name@) && exists|i: int|
                    0 <= i < self.users().len() && self.users()[i] == u@,
                None => !self.has_user_named(name@),
            },
    {
        let idx = self.user_index_by_name(name);
        match idx {
            Some(i) => {
                let u = &self.users[i];
                proof {
                    let ii = i as int;
                    assert(self.users()[ii] == u@);
                    let k = choose|k: int|
                        0 <= k < self.users().len() && (#[trigger] self.users()[k]).user == name@;
                    assert(k == ii) by {
                        if k < ii {
                            assert(self.users()[k].user != self.users()[ii].user);
                        } else if ii < k {
                            assert(self.users()[ii].user != self.users()[k].user);
                        }
                    }
                }
                Some(u)
            },
            None => None,
        }
    }

    /// The number of stored user records.
    pub fn user_count(&self) -> (n: usize)
        ensures
            n == self.users().len(),
    {
        self.users.len()
    }

    /// The number of stored folder records.
    pub fn folder_count(&self) -> (n: usize)
        ensures
            n == self.folders().len(),
    {
        self.folders.len()
    }

    /// The number of stored asset records.
    pub fn asset_count(&self) -> (n: usize)
        ensures
            n == self.assets().len(),
    {
        self.assets.len()
    }

    /// The number of stored access-group records.
    pub fn access_group_count(&self) -> (n: usize)
        ensures
            n == self.access_groups().len(),
    {
        self.access_groups.len()
    }

    /// Looks up an asset record by path.
    pub fn find_asset_by_path(&self, p: &str) -> (r: Option<&Asset>)
        ensures
            match r {
                Some(a) => self.has_asset_path(p@) && a@.path == p@ && exists|i: int|
                    0 <= i < self.assets().len() && self.assets()[i] == a@,
                None => !self.has_asset_path(p@),
            },
    {
        let mut i: usize = 0;
        while i < self.assets.len()
            invariant
                i <= self.assets@.len(),
                forall|k: int| 0 <= k < i ==> (#[trigger] self.assets()[k]).path != p@,
            decreases self.assets@.len() - i,
        {
            if str_eq(self.assets[i].path.as_str(), p) {
                let a = &self.assets[i];
                proof {
                    assert(self.assets()[i as int] == a@);
                }
                return Some(a);
            }
            i += 1;
        }
        None
    }

    /// Looks up a folder record by path.
    pub fn find_folder_by_path(&self, p: &str) -> (r: Option<&Folder>)
        ensures
            match r {
                Some(f) => self.has_folder_path(p@) && f@.path == p@ && exists|i: int|
                    0 <= i < self.folders().len() && self.folders()[i] == f@,
                None => !self.has_folder_path(p@),
            },
    {
        let mut i: usize = 0;
        while i < self.folders.len()
            invariant
                i <= self.folders@.len(),
                forall|k: int| 0 <= k < i ==> (#[trigger] self.folders()[k]).path != p@,
            decreases self.folders@.len() - i,
        {
            if str_eq(self.folders[i].path.as_str(), p) {
                let f = &self.folders[i];
                proof {
                    assert(self.folders()[i as int] == f@);
                }
                return Some(f);
            }
            i += 1;
        }
        None
    }

    // -- saves ---------------------------------------------------------

    /// Persists a user record, assigning it a fresh id.  Refused with
    /// `AlreadyExists` when the username is taken (the unique index on
    /// usernames), with `StoreError` when no id is left.
    pub fn save_user(&mut self, user: User) -> (r: Result<u64, ControllerError>)
        requires
            old(self).wf(),
            user.id is None,
        ensures
            final(self).wf(),
            r matches Ok(id) ==> {
                &&& !old(self).has_user_named(user@.user)
                &&& old(self).next_id() < u64::MAX
                &&& id == old(self).next_id()
                &&& final(self).users() == old(self).users().push(saved_user(user@, id))
                &&& final(self).next_id() == old(self).next_id() + 1
                &&& final(self).folders() == old(self).folders()
                &&& final(self).assets() == old(self).assets()
                &&& final(self).access_groups() == old(self).access_groups()
            },
            r is Err ==> *final(self) == *old(self),
            r is Err ==> (r == Err::<u64, ControllerError>(ControllerError::AlreadyExists) || r
                == Err::<u64, ControllerError>(ControllerError::StoreError)),
            r == Err::<u64, ControllerError>(ControllerError::AlreadyExists) <==> old(
                self,
            ).has_user_named(user@.user),
            r == Err::<u64, ControllerError>(ControllerError::StoreError) <==> (!old(
                self,
            ).has_user_named(user@.user) && old(self).next_id() == u64::MAX),
    {
        let ghost pre = *old(self);
        if self.user_index_by_name(&user.user).is_some() {
            return Err(ControllerError::AlreadyExists);
        }
        if self.next_id == u64::MAX {
            return Err(ControllerError::StoreError);
        }
        let id = self.next_id;
        self.next_id = id + 1;
        let ghost uv0 = user@;
        let mut user = user;
        user.id = Some(id);
        let ghost uv = user@;
        self.users.push(user);
        proof {
            assert(uv =~= saved_user(uv0, id));
            assert(self.users() =~= pre.users().push(uv));
            assert(self.folders() =~= pre.folders());
            assert(self.assets() =~= pre.assets());
            assert(self.access_groups() =~= pre.access_groups());
        }
        Ok(id)
    }

    /// Persists a folder record, assigning it a fresh id.  Refused with
    /// `AlreadyExists` when the tag or the path is taken (the unique
    /// indexes on folders), with `StoreError` when no id is left.
    pub fn save_folder(&mut self, folder: Folder) -> (r: Result<u64, ControllerError>)
        requires
            old(self).wf(),
            folder.id is None,
        ensures
            final(self).wf(),
            r matches Ok(id) ==> {
                &&& !old(self).folder_conflict(folder@.tag, folder@.path)
                &&& old(self).next_id() < u64::MAX
                &&& id == old(self).next_id()
                &&& final(self).folders() == old(self).folders().push(saved_folder(folder@, id))
                &&& final(self).next_id() == old(self).next_id() + 1
                &&& final(self).users() == old(self).users()
                &&& final(self).assets() == old(self).assets()
                &&& final(self).access_groups() == old(self).access_groups()
            },
            r is Err ==> *final(self) == *old(self),
            r is Err ==> (r == Err::<u64, ControllerError>(ControllerError::AlreadyExists) || r
                == Err::<u64, ControllerError>(ControllerError::StoreError)),
            r == Err::<u64, ControllerError>(ControllerError::AlreadyExists) <==> old(
                self,
            ).folder_conflict(folder@.tag, folder@.path),
            r == Err::<u64, ControllerError>(ControllerError::StoreError) <==> (!old(
                self,
            ).folder_conflict(folder@.tag, folder@.path) && old(self).next_id() == u64::MAX),
    {
        let ghost pre = *old(self);
        if self.folder_conflict_check(&folder.tag, &folder.path) {
            return Err(ControllerError::AlreadyExists);
        }
        if self.next_id == u64::MAX {
            return Err(ControllerError::StoreError);
        }
        let id = self.next_id;
        self.next_id = id + 1;
        let ghost fv0 = folder@;
        let mut folder = folder;
        folder.id = Some(id);
        let ghost fv = folder@;
        self.folders.push(folder);
        proof {
            assert(fv =~= saved_folder(fv0, id));
            assert(self.folders() =~= pre.folders().push(fv));
            assert(self.users() =~= pre.users());
            assert(self.assets() =~= pre.assets());
            assert(self.access_groups() =~= pre.access_groups());
        }
        Ok(id)
    }

    /// Persists an asset record, assigning it a fresh id.  Refused with
    /// `AlreadyExists` when the uuid or the path is taken (the unique
    /// indexes on assets), with `StoreError` when no id is left.
    pub fn save_asset_record(&mut self, asset: Asset) -> (r: Result<u64, ControllerError>)
        requires
            old(self).wf(),
            asset.id is None,
        ensures
            final(self).wf(),
            r matches Ok(id) ==> {
                &&& !old(self).asset_conflict(asset@.uuid, asset@.path)
                &&& old(self).next_id() < u64::MAX
                &&& id == old(self).next_id()
                &&& final(self).assets() == old(self).assets().push(saved_asset(asset@, id))
                &&& final(self).next_id() == old(self).next_id() + 1
                &&& final(self).users() == old(self).users()
                &&& final(self).folders() == old(self).folders()
                &&& final(self).access_groups() == old(self).access_groups()
            },
            r is Err ==> *final(self) == *old(self),
            r is Err ==> (r == Err::<u64, ControllerError>(ControllerError::AlreadyExists) || r
                == Err::<u64, ControllerError>(ControllerError::StoreError)),
            r == Err::<u64, ControllerError>(ControllerError::AlreadyExists) <==> old(
                self,
            ).asset_conflict(asset@.uuid, asset@.path),
            r == Err::<u64, ControllerError>(ControllerError::StoreError) <==> (!old(
                self,
            ).asset_conflict(asset@.uuid, asset@.path) && old(self).next_id() == u64::MAX),
    {
        let ghost pre = *old(self);
        if self.asset_conflict_check(&asset.uuid, &asset.path) {
            return Err(ControllerError::AlreadyExists);
        }
        if self.next_id == u64::MAX {
            return Err(ControllerError::StoreError);
        }
        let id = self.next_id;
        self.next_id = id + 1;
        let ghost av0 = asset@;
        let mut asset = asset;
        asset.id = Some(id);
        let ghost av = asset@;
        self.assets.push(asset);
        proof {
            assert(av =~= saved_asset(av0, id));
            assert(self.assets() =~= pre.assets().push(av));
            assert(self.users() =~= pre.users());
            assert(self.folders() =~= pre.folders());
            assert(self.access_groups() =~= pre.access_groups());
        }
        Ok(id)
    }

    /// Persists an access-group record, assigning it a fresh id.
    /// Refused with `AlreadyExists` when the tag is taken (the unique
    /// index on group tags), with `StoreError` when no id is left.
    pub fn save_access_group(&mut self, group: AccessGroup) -> (r: Result<u64, ControllerError>)
        requires
            old(self).wf(),
            group.id is None,
        ensures
            final(self).wf(),
            r matches Ok(id) ==> {
                &&& !old(self).has_group_tag(group@.tag)
                &&& old(self).next_id() < u64::MAX
                &&& id == old(self).next_id()
                &&& final(self).access_groups() == old(self).access_groups().push(
                    saved_group(group@, id),
                )
                &&& final(self).next_id() == old(self).next_id() + 1
                &&& final(self).users() == old(self).users()
                &&& final(self).folders() == old(self).folders()
                &&& final(self).assets() == old(self).assets()
            },
            r is Err ==> *final(self) == *old(self),
            r is Err ==> (r == Err::<u64, ControllerError>(ControllerError::AlreadyExists) || r
                == Err::<u64, ControllerError>(ControllerError::StoreError)),
            r == Err::<u64, ControllerError>(ControllerError::AlreadyExists) <==> old(
                self,
            ).has_group_tag(group@.tag),
            r == Err::<u64, ControllerError>(ControllerError::StoreError) <==> (!old(
                self,
            ).has_group_tag(group@.tag) && old(self).next_id() == u64::MAX),
    {
        let ghost pre = *old(self);
        if self.group_tag_check(&group.tag) {
            return Err(ControllerError::AlreadyExists);
        }
        if self.next_id == u64::MAX {
            return Err(ControllerError::StoreError);
        }
        let id = self.next_id;
        self.next_id = id + 1;
        let ghost gv0 = group@;
        let mut group = group;
        group.id = Some(id);
        let ghost gv = group@;
        self.access_groups.push(group);
        proof {
            assert(gv =~= saved_group(gv0, id));
            assert(self.access_groups() =~= pre.access_groups().push(gv));
            assert(self.users() =~= pre.users());
            assert(self.folders() =~= pre.folders());
            assert(self.assets() =~= pre.assets());
        }
        Ok(id)
    }

    // -- updates -------------------------------------------------------

    /// Appends folder `folder_id` to the administered folders of the
    /// user with id `admin_id`, if that user exists (set semantics: a
    /// folder already granted is not entered twice).  Reports whether a
    /// user was found and updated.
    pub fn link_folder_admin(&mut self, admin_id: u64, folder_id: u64) -> (found: bool)
        requires
            old(self).wf(),
        ensures
            final(self).wf(),
            found == old(self).has_user_id(admin_id),
            !found ==> *final(self) == *old(self),
            found ==> exists|i: int|
                0 <= i < old(self).users().len() && (#[trigger] old(self).users()[i]).id == Some(
                    admin_id,
                ) && final(self).users() == old(self).users().update(
                    i,
                    user_granted_folder(old(self).users()[i], folder_id),
                ),
            found ==> final(self).has_user_id(admin_id) && final(self).user_with_id(
                admin_id,
            ).folder_admins.contains(folder_id),
            final(self).folders() == old(self).folders(),
            final(self).assets() == old(self).assets(),
            final(self).access_groups() == old(self).access_groups(),
            final(self).next_id() == old(self).next_id(),
    {
        let ghost pre = *old(self);
        let idx = self.user_index_by_id(admin_id);
        match idx {
            None => false,
            Some(i) => {
                let mut u = self.users.remove(i);
                let ghost uv = u@;
                if !contains_id(&u.folder_admins, folder_id) {
                    u.folder_admins.push(folder_id);
                }
                proof {
                    assert(u@ =~= user_granted_folder(uv, folder_id));
                }
                self.users.insert(i, u);
                proof {
                    let ii = i as int;
                    assert(self.users@ =~= pre.users@.update(ii, self.users@[ii]));
                    assert(self.users() =~= pre.users().update(
                        ii,
                        user_granted_folder(pre.users()[ii], folder_id),
                    ));
                    assert(self.folders() =~= pre.folders());
                    assert(self.assets() =~= pre.assets());
                    assert(self.access_groups() =~= pre.access_groups());
                    assert(self.users()[ii].id == Some(admin_id));
                    assert(self.has_user_id(admin_id));
                    let k = choose|k: int|
                        0 <= k < self.users().len() && (#[trigger] self.users()[k]).id == Some(
                            admin_id,
                        );
                    assert(k == ii) by {
                        if k < ii {
                            assert(self.users()[k].id != self.users()[ii].id);
                        } else if ii < k {
                            assert(self.users()[ii].id != self.users()[k].id);
                        }
                    }
                    assert(user_granted_folder(pre.users()[ii], folder_id).folder_admins.contains(
                        folder_id,
                    )) by {
                        let fa = pre.users()[ii].folder_admins;
                        if !fa.contains(folder_id) {
                            assert(fa.push(folder_id)[fa.len() as int] == folder_id);
                        }
                    }
                    assert(self.user_with_id(admin_id) == self.users()[ii]);
                    assert(self.user_with_id(admin_id).folder_admins.contains(folder_id));
                }
                true
            },
        }
    }

    /// Deletes the folder record with id `folder_id`, if it is stored.
    /// Reports whether a record was removed.
    pub fn delete_folder(&mut self, folder_id: u64) -> (found: bool)
        requires
            old(self).wf(),
        ensures
            final(self).wf(),
            found == old(self).has_folder_id(folder_id),
            !found ==> *final(self) == *old(self),
            found ==> exists|i: int|
                0 <= i < old(self).folders().len() && (#[trigger] old(self).folders()[i]).id
                    == Some(folder_id) && final(self).folders() == old(self).folders().remove(i),
            final(self).users() == old(self).users(),
            final(self).assets() == old(self).assets(),
            final(self).access_groups() == old(self).access_groups(),
            final(self).next_id() == old(self).next_id(),
    {
        let ghost pre = *old(self);
        let idx = self.folder_index_by_id(folder_id);
        match idx {
            None => false,
            Some(i) => {
                self.folders.remove(i);
                proof {
                    assert(self.folders() =~= pre.folders().remove(i as int));
                    assert(self.users() =~= pre.users());
                    assert(self.assets() =~= pre.assets());
                    assert(self.access_groups() =~= pre.access_groups());
                }
                true
            },
        }
    }
}

/// True when `v` holds the id `x`.
fn contains_id(v: &Vec<u64>, x: u64) -> (r: bool)
    ensures
        r == v@.contains(x),
{
    let mut i: usize = 0;
    while i < v.len()
        invariant
            i <= v@.len(),
            forall|k: int| 0 <= k < i ==> v@[k] != x,
        decreases v@.len() - i,
    {
        if v[i] == x {
            return true;
        }
        i += 1;
    }
    false
}

} // verus!
