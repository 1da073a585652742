//! How the reply of a store callback becomes the result of a store operation.
//!
//! Each store operation calls one C callback, which returns an integer status
//! and, for lookups, may hand back an object. The functions here take what the
//! callback returned and decide the operation's result; the call itself is
//! made by the caller of this crate.
use vstd::prelude::*;
use crate::callback::{StoreCallback, StoreError};
use libc::c_int;

verus! {

/// The error reported when `cb` returned `status`.
pub open spec fn callback_failure(cb: StoreCallback, status: c_int) -> StoreError {
    StoreError::CallbackReturnedInteger { callback: cb, code: status }
}

/// An operation that only reports success: zero is success, anything else fails.
pub open spec fn status_outcome(cb: StoreCallback, status: c_int) -> Result<(), StoreError> {
    if status == 0 {
        Ok(())
    } else {
        Err(callback_failure(cb, status))
    }
}

/// An operation that answers yes or no: zero is no, one is yes, anything
/// else fails.
pub open spec fn flag_outcome(cb: StoreCallback, status: c_int) -> Result<bool, StoreError> {
    if status == 0 {
        Ok(false)
    } else if status == 1 {
        Ok(true)
    } else {
        Err(callback_failure(cb, status))
    }
}

/// An operation that fills in a value: on a zero status the value is the
/// result.
pub open spec fn value_outcome<V>(cb: StoreCallback, status: c_int, value: V) -> Result<V, StoreError> {
    if status == 0 {
        Ok(value)
    } else {
        Err(callback_failure(cb, status))
    }
}

/// A lookup that must find something: on a zero status a missing object
/// fails with `missing`.
pub open spec fn required_outcome<T>(
    cb: StoreCallback,
    status: c_int,
    found: Option<T>,
    missing: StoreError,
) -> Result<T, StoreError> {
    if status != 0 {
        Err(callback_failure(cb, status))
    } else {
        match found {
            Some(x) => Ok(x),
            None => Err(missing),
        }
    }
}

/// A lookup that may find nothing: on a zero status the result is what was
/// found, if anything.
pub open spec fn optional_outcome<T>(cb: StoreCallback, status: c_int, found: Option<T>) -> Result<
    Option<T>,
    StoreError,
> {
    if status != 0 {
        Err(callback_failure(cb, status))
    } else {
        Ok(found)
    }
}

/// A status that an operation does not accept is always reported as the
/// failure of the callback that returned it, carrying that callback and that
/// status, whatever else the callback handed back; it is never reported as a
/// missing record. Zero is the only accepted status, and for the yes-or-no
/// operations one is accepted too.
pub proof fn rejected_status_is_reported<T>(
    cb: StoreCallback,
    status: c_int,
    value: T,
    found: Option<T>,
    missing: StoreError,
)
    ensures
        callback_failure(cb, status) == (StoreError::CallbackReturnedInteger {
            callback: cb,
            code: status,
        }),
        status != 0 ==> {
            &&& status_outcome(cb, status) == Err::<(), StoreError>(
                StoreError::CallbackReturnedInteger { callback: cb, code: status },
            )
            &&& value_outcome(cb, status, value) == Err::<T, StoreError>(
                StoreError::CallbackReturnedInteger { callback: cb, code: status },
            )
            &&& required_outcome(cb, status, found, missing) == Err::<T, StoreError>(
                StoreError::CallbackReturnedInteger { callback: cb, code: status },
            )
            &&& optional_outcome(cb, status, found) == Err::<Option<T>, StoreError>(
                StoreError::CallbackReturnedInteger { callback: cb, code: status },
            )
        },
        status != 0 && status != 1 ==> flag_outcome(cb, status) == Err::<bool, StoreError>(
            StoreError::CallbackReturnedInteger { callback: cb, code: status },
        ),
        status == 0 || status == 1 ==> flag_outcome(cb, status) == Ok::<bool, StoreError>(
            status == 1,
        ),
{
}

/// On an accepted status, a lookup gives back exactly the object that the
/// callback handed over, and the two kinds of lookup agree on it; they
/// differ only when nothing was found.
pub proof fn accepted_lookup_returns_found<T>(cb: StoreCallback, x: T, missing: StoreError)
    ensures
        required_outcome(cb, 0, Some(x), missing) == Ok::<T, StoreError>(x),
        optional_outcome(cb, 0, Some(x)) == Ok::<Option<T>, StoreError>(Some(x)),
        required_outcome(cb, 0, None::<T>, missing) == Err::<T, StoreError>(missing),
        optional_outcome(cb, 0, None::<T>) == Ok::<Option<T>, StoreError>(None),
{
}

fn status_reply(cb: StoreCallback, status: c_int) -> (r: Result<(), StoreError>)
    ensures
        r == status_outcome(cb, status),
{
    if status != 0 {
        Err(StoreError::CallbackReturnedInteger { callback: cb, code: status })
    } else {
        Ok(())
    }
}

fn flag_reply(cb: StoreCallback, status: c_int) -> (r: Result<bool, StoreError>)
    ensures
        r == flag_outcome(cb, status),
{
    match status {
        0 => Ok(false),
        1 => Ok(true),
        code => Err(StoreError::CallbackReturnedInteger { callback: cb, code }),
    }
}

fn required_reply<T>(cb: StoreCallback, status: c_int, found: Option<T>, missing: StoreError) -> (r:
    Result<T, StoreError>)
    ensures
        r == required_outcome(cb, status, found, missing),
{
    if status != 0 {
        return Err(StoreError::CallbackReturnedInteger { callback: cb, code: status });
    }
    match found {
        Some(x) => Ok(x),
        None => Err(missing),
    }
}

fn optional_reply<T>(cb: StoreCallback, status: c_int, found: Option<T>) -> (r: Result<
    Option<T>,
    StoreError,
>)
    ensures
        r == optional_outcome(cb, status, found),
{
    if status != 0 {
        return Err(StoreError::CallbackReturnedInteger { callback: cb, code: status });
    }
    Ok(found)
}

// Identity key store.

/// Result of fetching the local identity key pair, from the status of
/// `get_identity_key_pair` and the private key it handed back, if any.
pub fn identity_key_pair_reply<K>(status: c_int, key: Option<K>) -> (r: Result<K, StoreError>)
    ensures
        r == required_outcome(
            StoreCallback::GetIdentityKeyPair,
            status,
            key,
            StoreError::NoIdentityKeyPair,
        ),
        status != 0 ==> (r matches Err(e) && e == (StoreError::CallbackReturnedInteger { callback: StoreCallback::GetIdentityKeyPair, code: status })),
        status == 0 ==> (match key {
            Some(x) => r matches Ok(v) && v == x,
            None => r matches Err(e) && e == StoreError::NoIdentityKeyPair,
        }),
{
    required_reply(StoreCallback::GetIdentityKeyPair, status, key, StoreError::NoIdentityKeyPair)
}

/// Result of fetching the local registration id, from the status of
/// `get_local_registration_id` and the id it wrote.
pub fn local_registration_id_reply(status: c_int, id: u32) -> (r: Result<u32, StoreError>)
    ensures
        r == value_outcome(StoreCallback::GetLocalRegistrationId, status, id),
        status != 0 ==> (r matches Err(e) && e == (StoreError::CallbackReturnedInteger { callback: StoreCallback::GetLocalRegistrationId, code: status })),
        status == 0 ==> (r matches Ok(v) && v == id),
{
    if status != 0 {
        return Err(
            StoreError::CallbackReturnedInteger {
                callback: StoreCallback::GetLocalRegistrationId,
                code: status,
            },
        );
    }
    Ok(id)
}

/// Result of saving an identity: whether it replaced a different one.
pub fn save_identity_reply(status: c_int) -> (r: Result<bool, StoreError>)
    ensures
        r == flag_outcome(StoreCallback::SaveIdentity, status),
        status != 0 && status != 1 ==> (r matches Err(e) && e == (StoreError::CallbackReturnedInteger { callback: StoreCallback::SaveIdentity, code: status })),
        status == 0 ==> r == Ok::<bool, StoreError>(false),
        status == 1 ==> r == Ok::<bool, StoreError>(true),
{
    flag_reply(StoreCallback::SaveIdentity, status)
}

/// Result of asking whether an identity is trusted.
pub fn trusted_identity_reply(status: c_int) -> (r: Result<bool, StoreError>)
    ensures
        r == flag_outcome(StoreCallback::IsTrustedIdentity, status),
        status != 0 && status != 1 ==> (r matches Err(e) && e == (StoreError::CallbackReturnedInteger { callback: StoreCallback::IsTrustedIdentity, code: status })),
        status == 0 ==> r == Ok::<bool, StoreError>(false),
        status == 1 ==> r == Ok::<bool, StoreError>(true),
{
    flag_reply(StoreCallback::IsTrustedIdentity, status)
}

/// Result of looking up the identity stored for an address.
pub fn identity_reply<K>(status: c_int, key: Option<K>) -> (r: Result<Option<K>, StoreError>)
    ensures
        r == optional_outcome(StoreCallback::GetIdentity, status, key),
        status != 0 ==> (r matches Err(e) && e == (StoreError::CallbackReturnedInteger { callback: StoreCallback::GetIdentity, code: status })),
        status == 0 ==> (r matches Ok(v) && v == key),
{
    optional_reply(StoreCallback::GetIdentity, status, key)
}

// Pre-key store.

/// Result of loading a pre-key record.
pub fn pre_key_reply<R>(status: c_int, record: Option<R>) -> (r: Result<R, StoreError>)
    ensures
        r == required_outcome(
            StoreCallback::LoadPreKey,
            status,
            record,
            StoreError::InvalidPreKeyId,
        ),
        status != 0 ==> (r matches Err(e) && e == (StoreError::CallbackReturnedInteger { callback: StoreCallback::LoadPreKey, code: status })),
        status == 0 ==> (match record {
            Some(x) => r matches Ok(v) && v == x,
            None => r matches Err(e) && e == StoreError::InvalidPreKeyId,
        }),
{
    required_reply(StoreCallback::LoadPreKey, status, record, StoreError::InvalidPreKeyId)
}

/// Result of storing a pre-key record.
pub fn save_pre_key_reply(status: c_int) -> (r: Result<(), StoreError>)
    ensures
        r == status_outcome(StoreCallback::StorePreKey, status),
        status != 0 ==> (r matches Err(e) && e == (StoreError::CallbackReturnedInteger { callback: StoreCallback::StorePreKey, code: status })),
        status == 0 ==> r is Ok,
{
    status_reply(StoreCallback::StorePreKey, status)
}

/// Result of removing a pre-key record.
pub fn remove_pre_key_reply(status: c_int) -> (r: Result<(), StoreError>)
    ensures
        r == status_outcome(StoreCallback::RemovePreKey, status),
        status != 0 ==> (r matches Err(e) && e == (StoreError::CallbackReturnedInteger { callback: StoreCallback::RemovePreKey, code: status })),
        status == 0 ==> r is Ok,
{
    status_reply(StoreCallback::RemovePreKey, status)
}

// Signed pre-key store.

/// Result of loading a signed pre-key record.
pub fn signed_pre_key_reply<R>(status: c_int, record: Option<R>) -> (r: Result<R, StoreError>)
    ensures
        r == required_outcome(
            StoreCallback::LoadSignedPreKey,
            status,
            record,
            StoreError::InvalidSignedPreKeyId,
        ),
        status != 0 ==> (r matches Err(e) && e == (StoreError::CallbackReturnedInteger { callback: StoreCallback::LoadSignedPreKey, code: status })),
        status == 0 ==> (match record {
            Some(x) => r matches Ok(v) && v == x,
            None => r matches Err(e) && e == StoreError::InvalidSignedPreKeyId,
        }),
{
    required_reply(
        StoreCallback::LoadSignedPreKey,
        status,
        record,
        StoreError::InvalidSignedPreKeyId,
    )
}

/// Result of storing a signed pre-key record.
pub fn save_signed_pre_key_reply(status: c_int) -> (r: Result<(), StoreError>)
    ensures
        r == status_outcome(StoreCallback::StoreSignedPreKey, status),
        status != 0 ==> (r matches Err(e) && e == (StoreError::CallbackReturnedInteger { callback: StoreCallback::StoreSignedPreKey, code: status })),
        status == 0 ==> r is Ok,
{
    status_reply(StoreCallback::StoreSignedPreKey, status)
}

// Session store.

/// Result of loading the session record for an address.
pub fn session_reply<R>(status: c_int, record: Option<R>) -> (r: Result<Option<R>, StoreError>)
    ensures
        r == optional_outcome(StoreCallback::LoadSession, status, record),
        status != 0 ==> (r matches Err(e) && e == (StoreError::CallbackReturnedInteger { callback: StoreCallback::LoadSession, code: status })),
        status == 0 ==> (r matches Ok(v) && v == record),
{
    optional_reply(StoreCallback::LoadSession, status, record)
}

/// Result of storing the session record for an address.
pub fn store_session_reply(status: c_int) -> (r: Result<(), StoreError>)
    ensures
        r == status_outcome(StoreCallback::StoreSession, status),
        status != 0 ==> (r matches Err(e) && e == (StoreError::CallbackReturnedInteger { callback: StoreCallback::StoreSession, code: status })),
        status == 0 ==> r is Ok,
{
    status_reply(StoreCallback::StoreSession, status)
}

// Sender-key store.

/// Result of loading the sender-key record for a sender key name.
pub fn sender_key_reply<R>(status: c_int, record: Option<R>) -> (r: Result<Option<R>, StoreError>)
    ensures
        r == optional_outcome(StoreCallback::LoadSenderKey, status, record),
        status != 0 ==> (r matches Err(e) && e == (StoreError::CallbackReturnedInteger { callback: StoreCallback::LoadSenderKey, code: status })),
        status == 0 ==> (r matches Ok(v) && v == record),
{
    optional_reply(StoreCallback::LoadSenderKey, status, record)
}

/// Result of storing the sender-key record for a sender key name.
pub fn store_sender_key_reply(status: c_int) -> (r: Result<(), StoreError>)
    ensures
        r == status_outcome(StoreCallback::StoreSenderKey, status),
        status != 0 ==> (r matches Err(e) && e == (StoreError::CallbackReturnedInteger { callback: StoreCallback::StoreSenderKey, code: status })),
        status == 0 ==> r is Ok,
{
    status_reply(StoreCallback::StoreSenderKey, status)
}

} // verus!
