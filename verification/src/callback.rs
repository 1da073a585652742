//! The callbacks through which C code supplies storage, and the errors that
//! a failed callback turns into.
use libc::c_int;
use vstd::prelude::*;

verus! {

/// One entry of the callback tables that C code fills in for the identity,
/// pre-key, signed pre-key, session and sender-key stores.
#[derive(Debug, Clone, Copy, PartialEq, Eq, Structural)]
pub enum StoreCallback {
    GetIdentityKeyPair,
    GetLocalRegistrationId,
    SaveIdentity,
    GetIdentity,
    IsTrustedIdentity,
    LoadPreKey,
    StorePreKey,
    RemovePreKey,
    LoadSignedPreKey,
    StoreSignedPreKey,
    LoadSession,
    StoreSession,
    LoadSenderKey,
    StoreSenderKey,
}

/// The name under which a failing callback is reported.
pub open spec fn callback_name(cb: StoreCallback) -> Seq<char> {
    match cb {
        StoreCallback::GetIdentityKeyPair => "get_identity_key_pair"@,
        StoreCallback::GetLocalRegistrationId => "get_local_registration_id"@,
        StoreCallback::SaveIdentity => "save_identity"@,
        StoreCallback::GetIdentity => "get_identity"@,
        StoreCallback::IsTrustedIdentity => "is_trusted_identity"@,
        StoreCallback::LoadPreKey => "load_pre_key"@,
        StoreCallback::StorePreKey => "store_pre_key"@,
        StoreCallback::RemovePreKey => "remove_pre_key"@,
        StoreCallback::LoadSignedPreKey => "load_signed_pre_key"@,
        StoreCallback::StoreSignedPreKey => "store_signed_pre_key"@,
        StoreCallback::LoadSession => "load_session"@,
        StoreCallback::StoreSession => "store_session"@,
        StoreCallback::LoadSenderKey => "load_sender_key"@,
        StoreCallback::StoreSenderKey => "store_sender_key"@,
    }
}

impl StoreCallback {
    /// The name of the callback, as it appears in error reports.
    pub fn name(&self) -> (name: &'static str)
        ensures
            name@ == callback_name(*self),
            *self == StoreCallback::GetIdentityKeyPair ==> name@ == "get_identity_key_pair"@,
            *self == StoreCallback::GetLocalRegistrationId ==> name@ == "get_local_registration_id"@,
            *self == StoreCallback::SaveIdentity ==> name@ == "save_identity"@,
            *self == StoreCallback::GetIdentity ==> name@ == "get_identity"@,
            *self == StoreCallback::IsTrustedIdentity ==> name@ == "is_trusted_identity"@,
            *self == StoreCallback::LoadPreKey ==> name@ == "load_pre_key"@,
            *self == StoreCallback::StorePreKey ==> name@ == "store_pre_key"@,
            *self == StoreCallback::RemovePreKey ==> name@ == "remove_pre_key"@,
            *self == StoreCallback::LoadSignedPreKey ==> name@ == "load_signed_pre_key"@,
            *self == StoreCallback::StoreSignedPreKey ==> name@ == "store_signed_pre_key"@,
            *self == StoreCallback::LoadSession ==> name@ == "load_session"@,
            *self == StoreCallback::StoreSession ==> name@ == "store_session"@,
            *self == StoreCallback::LoadSenderKey ==> name@ == "load_sender_key"@,
            *self == StoreCallback::StoreSenderKey ==> name@ == "store_sender_key"@,
    {
        match self {
            StoreCallback::GetIdentityKeyPair => "get_identity_key_pair",
            StoreCallback::GetLocalRegistrationId => "get_local_registration_id",
            StoreCallback::SaveIdentity => "save_identity",
            StoreCallback::GetIdentity => "get_identity",
            StoreCallback::IsTrustedIdentity => "is_trusted_identity",
            StoreCallback::LoadPreKey => "load_pre_key",
            StoreCallback::StorePreKey => "store_pre_key",
            StoreCallback::RemovePreKey => "remove_pre_key",
            StoreCallback::LoadSignedPreKey => "load_signed_pre_key",
            StoreCallback::StoreSignedPreKey => "store_signed_pre_key",
            StoreCallback::LoadSession => "load_session",
            StoreCallback::StoreSession => "store_session",
            StoreCallback::LoadSenderKey => "load_sender_key",
            StoreCallback::StoreSenderKey => "store_sender_key",
        }
    }
}

/// Different callbacks are reported under different names, so an error
/// report always tells which callback failed.
pub proof fn callback_names_distinct(a: StoreCallback, b: StoreCallback)
    ensures
        a != b ==> callback_name(a) != callback_name(b),
{
    reveal_strlit("get_identity_key_pair");
    reveal_strlit("get_local_registration_id");
    reveal_strlit("save_identity");
    reveal_strlit("get_identity");
    reveal_strlit("is_trusted_identity");
    reveal_strlit("load_pre_key");
    reveal_strlit("store_pre_key");
    reveal_strlit("remove_pre_key");
    reveal_strlit("load_signed_pre_key");
    reveal_strlit("store_signed_pre_key");
    reveal_strlit("load_session");
    reveal_strlit("store_session");
    reveal_strlit("load_sender_key");
    reveal_strlit("store_sender_key");
    if a != b {
        let na = callback_name(a);
        let nb = callback_name(b);
        if na.len() == nb.len() {
            assert(na[0] != nb[0] || na[1] != nb[1] || na[5] != nb[5] || na[6] != nb[6]);
        }
    }
}

/// What a store operation fails with when its callback does not deliver.
#[derive(Debug, Clone, Copy, PartialEq, Eq, Structural)]
pub enum StoreError {
    /// The callback returned a status that the operation does not accept.
    CallbackReturnedInteger { callback: StoreCallback, code: c_int },
    /// The identity callback succeeded but handed back no key pair.
    NoIdentityKeyPair,
    /// The pre-key callback succeeded but found no record under the id.
    InvalidPreKeyId,
    /// The signed pre-key callback succeeded but found no record under the id.
    InvalidSignedPreKeyId,
}

} // verus!
