use vstd::prelude::*;

verus! {

// ---------------------------------------------------------------------------
// Mathematical views of the stored records.
//
// Contracts throughout the crate speak of these views, so that a cloned
// record and its original are interchangeable in specifications.
// ---------------------------------------------------------------------------

/// Abstract value of a [`User`] record.
#[verifier::ext_equal]
pub ghost struct UserView {
    pub id: Option<u64>,
    pub user: Seq<char>,
    pub pass: Seq<char>,
    pub keys: Seq<u64>,
    pub key_admins: Seq<u64>,
    pub user_admins: Seq<u64>,
    pub folder_admins: Seq<u64>,
    pub access_group_admins: Seq<u64>,
    pub timestamp: u64,
    pub timestamp_readable: Seq<char>,
}

/// Abstract value of a [`Folder`] record.
#[verifier::ext_equal]
pub ghost struct FolderView {
    pub id: Option<u64>,
    pub tag: Seq<char>,
    pub path: Seq<char>,
    pub files: Seq<u64>,
    pub is_public: bool,
    pub access_groups: Seq<u64>,
    pub timestamp: u64,
    pub timestamp_readable: Seq<char>,
}

/// Abstract value of an [`Asset`] record.
#[verifier::ext_equal]
pub ghost struct AssetView {
    pub id: Option<u64>,
    pub uuid: Seq<char>,
    pub tag: Seq<char>,
    pub path: Seq<char>,
    pub timestamp: u64,
    pub timestamp_readable: Seq<char>,
}

/// Abstract value of an [`AccessGroup`] record.
#[verifier::ext_equal]
pub ghost struct AccessGroupView {
    pub id: Option<u64>,
    pub tag: Seq<char>,
    pub allowed_keys: Seq<u64>,
    pub timestamp: u64,
}

/// Abstract value of a [`Key`] record.
#[verifier::ext_equal]
pub ghost struct KeyView {
    pub id: Option<u64>,
    pub uuid: Seq<char>,
    pub active: bool,
    pub timestamp: u64,
}

// ---------------------------------------------------------------------------
// The records themselves.
// ---------------------------------------------------------------------------

/// A user of the store: a unique username, a salted password hash, and
/// the sets of entity ids this user administers.
///
/// `id` is `None` until the record is persisted; the metadata store
/// assigns the id.  The username is unique across all users.
#[derive(Debug)]
pub struct User {
    pub id: Option<u64>,
    pub user: String,
    pub pass: String,
    pub keys: Vec<u64>,
    pub key_admins: Vec<u64>,
    pub user_admins: Vec<u64>,
    pub folder_admins: Vec<u64>,
    pub access_group_admins: Vec<u64>,
    pub timestamp: u64,
    pub timestamp_readable: String,
}

/// A folder: a named, path-addressed container mapping to one directory
/// on disk plus one metadata record.
///
/// Path and tag are each globally unique.  A folder is either public
/// (`is_public` and no access groups) or private and bound to access
/// groups.
#[derive(Debug)]
pub struct Folder {
    pub id: Option<u64>,
    pub tag: String,
    pub path: String,
    pub files: Vec<u64>,
    pub is_public: bool,
    pub access_groups: Vec<u64>,
    pub timestamp: u64,
    pub timestamp_readable: String,
}

/// An asset: a binary file stored under a folder's path with a matching
/// metadata record.  Path and uuid are each globally unique.
#[derive(Debug)]
pub struct Asset {
    pub id: Option<u64>,
    pub uuid: String,
    pub tag: String,
    pub path: String,
    pub timestamp: u64,
    pub timestamp_readable: String,
}

/// A named set of authorization keys; a non-public folder grants access
/// to holders of any key in its associated groups.  The tag is unique.
#[derive(Debug)]
pub struct AccessGroup {
    pub id: Option<u64>,
    pub tag: String,
    pub allowed_keys: Vec<u64>,
    pub timestamp: u64,
}

/// An authorization key: a unique uuid and a revocable `active` flag.
#[derive(Debug)]
pub struct Key {
    pub id: Option<u64>,
    pub uuid: String,
    pub active: bool,
    pub timestamp: u64,
}

// ---------------------------------------------------------------------------
// Views.
// ---------------------------------------------------------------------------

impl View for User {
    type V = UserView;

    open spec fn view(&self) -> UserView {
        UserView {
            id: self.id,
            user: self.user@,
            pass: self.pass@,
            keys: self.keys@,
            key_admins: self.key_admins@,
            user_admins: self.user_admins@,
            folder_admins: self.folder_admins@,
            access_group_admins: self.access_group_admins@,
            timestamp: self.timestamp,
            timestamp_readable: self.timestamp_readable@,
        }
    }
}

impl View for Folder {
    type V = FolderView;

    open spec fn view(&self) -> FolderView {
        FolderView {
            id: self.id,
            tag: self.tag@,
            path: self.path@,
            files: self.files@,
            is_public: self.is_public,
            access_groups: self.access_groups@,
            timestamp: self.timestamp,
            timestamp_readable: self.timestamp_readable@,
        }
    }
}

impl View for Asset {
    type V = AssetView;

    open spec fn view(&self) -> AssetView {
        AssetView {
            id: self.id,
            uuid: self.uuid@,
            tag: self.tag@,
            path: self.path@,
            timestamp: self.timestamp,
            timestamp_readable: self.timestamp_readable@,
        }
    }
}

impl View for AccessGroup {
    type V = AccessGroupView;

    open spec fn view(&self) -> AccessGroupView {
        AccessGroupView {
            id: self.id,
            tag: self.tag@,
            allowed_keys: self.allowed_keys@,
            timestamp: self.timestamp,
        }
    }
}

impl View for Key {
    type V = KeyView;

    open spec fn view(&self) -> KeyView {
        KeyView { id: self.id, uuid: self.uuid@, active: self.active, timestamp: self.timestamp }
    }
}

// ---------------------------------------------------------------------------
// Cloning.  The clone of a record has the same view as the original.
// ---------------------------------------------------------------------------

/// Copies a vector of entity ids element by element.
fn clone_ids(v: &Vec<u64>) -> (r: Vec<u64>)
    ensures
        r@ == v@,
{
    let mut r: Vec<u64> = Vec::new();
    let mut i: usize = 0;
    while i < v.len()
        invariant
            i <= v.len(),
            r@ == v@.subrange(0, i as int),
        decreases v.len() - i,
    {
        r.push(v[i]);
        proof {
            assert(v@.subrange(0, i + 1 as int) =~= v@.subrange(0, i as int).push(v@[i as int]));
        }
        i += 1;
    }
    proof {
        assert(r@ =~= v@);
    }
    r
}

impl Clone for User {
    fn clone(&self) -> (r: Self)
        ensures
            r@ == self@,
    {
        User {
            id: self.id,
            user: self.user.clone(),
            pass: self.pass.clone(),
            keys: clone_ids(&self.keys),
            key_admins: clone_ids(&self.key_admins),
            user_admins: clone_ids(&self.user_admins),
            folder_admins: clone_ids(&self.folder_admins),
            access_group_admins: clone_ids(&self.access_group_admins),
            timestamp: self.timestamp,
            timestamp_readable: self.timestamp_readable.clone(),
        }
    }
}

impl Clone for Folder {
    fn clone(&self) -> (r: Self)
        ensures
            r@ == self@,
    {
        Folder {
            id: self.id,
            tag: self.tag.clone(),
            path: self.path.clone(),
            files: clone_ids(&self.files),
            is_public: self.is_public,
            access_groups: clone_ids(&self.access_groups),
            timestamp: self.timestamp,
            timestamp_readable: self.timestamp_readable.clone(),
        }
    }
}

impl Clone for Asset {
    fn clone(&self) -> (r: Self)
        ensures
            r@ == self@,
    {
        Asset {
            id: self.id,
            uuid: self.uuid.clone(),
            tag: self.tag.clone(),
            path: self.path.clone(),
            timestamp: self.timestamp,
            timestamp_readable: self.timestamp_readable.clone(),
        }
    }
}

impl Clone for AccessGroup {
    fn clone(&self) -> (r: Self)
        ensures
            r@ == self@,
    {
        AccessGroup {
            id: self.id,
            tag: self.tag.clone(),
            allowed_keys: clone_ids(&self.allowed_keys),
            timestamp: self.timestamp,
        }
    }
}

impl Clone for Key {
    fn clone(&self) -> (r: Self)
        ensures
            r@ == self@,
    {
        Key {
            id: self.id,
            uuid: self.uuid.clone(),
            active: self.active,
            timestamp: self.timestamp,
        }
    }
}

} // verus!
