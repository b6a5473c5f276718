use vstd::prelude::*;
use crate::credentials::{bcrypt_check, bcrypt_verify_of};
use crate::data_models::{AccessGroup, AccessGroupView, User};
use crate::error::ControllerError;
use crate::store::MetaStore;
use crate::util::get_time_meta;

verus! {

/// Attempts to log a user in with a username and an unhashed password.
///
/// A missing username and a wrong password are indistinguishable to
/// the caller: both come back as `Ok(None)`.  Only a failure of the
/// credential check itself (a malformed stored hash) is an error, and
/// it is reported as `CredentialError`, never as "not found".
pub fn login_user(store: &MetaStore, user: &str, pass: &str) -> (r: Result<
    Option<User>,
    ControllerError,
>)
    requires
        store.wf(),
    ensures
        r matches Ok(Some(u)) ==> {
            &&& store.has_user_named(user@)
            &&& u@ == store.user_named(user@)
            &&& u@.user == user@
            &&& bcrypt_verify_of(pass@, u@.pass) == Some(true)
        },
        r == Ok::<Option<User>, ControllerError>(None) <==> (!store.has_user_named(user@) || (
        store.has_user_named(user@) && bcrypt_verify_of(pass@, store.user_named(user@).pass)
            == Some(false))),
        r is Err ==> {
            &&& r == Err::<Option<User>, ControllerError>(ControllerError::CredentialError)
            &&& store.has_user_named(user@)
            &&& bcrypt_verify_of(pass@, store.user_named(user@).pass) is None
        },
{
    let found = store.find_user_by_name(user);
    match found {
        None => Ok(None),
        Some(u) => {
            let verified = bcrypt_check(pass, u.pass.as_str());
            match verified {
                Err(_) => Err(ControllerError::CredentialError),
                Ok(true) => Ok(Some(u.clone())),
                Ok(false) => Ok(None),
            }
        },
    }
}

/// Registers a new access group: a fresh record with tag `tag` and no
/// keys yet.  Refused with `AlreadyExists` when the tag is taken, with
/// `StoreError` when the store cannot assign an id.  The requesting
/// admin is recorded nowhere: groups have no administrator linkage at
/// creation time.
pub fn register_new_access_group(store: &mut MetaStore, admin: u64, tag: &str) -> (r: Result<
    (),
    ControllerError,
>)
    requires
        old(store).wf(),
    ensures
        final(store).wf(),
        r is Ok <==> (!old(store).has_group_tag(tag@) && old(store).next_id() < u64::MAX),
        r is Ok ==> {
            &&& exists|g: AccessGroupView|
                final(store).access_groups() == old(store).access_groups().push(g) && g.tag == tag@
                    && g.allowed_keys == Seq::<u64>::empty() && g.id == Some(old(store).next_id())
            &&& final(store).users() == old(store).users()
            &&& final(store).folders() == old(store).folders()
            &&& final(store).assets() == old(store).assets()
            &&& final(store).next_id() == old(store).next_id() + 1
        },
        r is Err ==> *final(store) == *old(store),
        r == Err::<(), ControllerError>(ControllerError::AlreadyExists) <==> old(
            store,
        ).has_group_tag(tag@),
        r == Err::<(), ControllerError>(ControllerError::StoreError) <==> (!old(
            store,
        ).has_group_tag(tag@) && old(store).next_id() == u64::MAX),
{
    let _ = admin;
    let (timestamp, _timestamp_readable) = get_time_meta();
    let group = AccessGroup { id: None, tag: tag.to_owned(), allowed_keys: Vec::new(), timestamp };
    let ghost gv = group@;
    match store.save_access_group(group) {
        Ok(_) => {
            proof {
                assert(gv.allowed_keys =~= Seq::<u64>::empty());
            }
            Ok(())
        },
        Err(e) => Err(e),
    }
}

} // verus!
