use signal_ffi::callback::{StoreCallback, StoreError};
use signal_ffi::store::{
    identity_key_pair_reply, identity_reply, local_registration_id_reply, pre_key_reply,
    remove_pre_key_reply, save_identity_reply, save_pre_key_reply, save_signed_pre_key_reply,
    sender_key_reply, session_reply, signed_pre_key_reply, store_sender_key_reply,
    store_session_reply, trusted_identity_reply,
};

fn failed(callback: StoreCallback, code: i32) -> StoreError {
    StoreError::CallbackReturnedInteger { callback, code }
}

#[test]
fn identity_key_pair_found() {
    assert_eq!(identity_key_pair_reply(0, Some(7u8)), Ok(7u8));
}

#[test]
fn identity_key_pair_missing() {
    assert_eq!(identity_key_pair_reply::<u8>(0, None), Err(StoreError::NoIdentityKeyPair));
}

#[test]
fn identity_key_pair_failed_callback_wins_over_key() {
    assert_eq!(
        identity_key_pair_reply(-1, Some(7u8)),
        Err(failed(StoreCallback::GetIdentityKeyPair, -1))
    );
}

#[test]
fn local_registration_id_values() {
    assert_eq!(local_registration_id_reply(0, 12345), Ok(12345));
    assert_eq!(
        local_registration_id_reply(3, 12345),
        Err(failed(StoreCallback::GetLocalRegistrationId, 3))
    );
}

#[test]
fn save_identity_flags() {
    assert_eq!(save_identity_reply(0), Ok(false));
    assert_eq!(save_identity_reply(1), Ok(true));
    assert_eq!(save_identity_reply(2), Err(failed(StoreCallback::SaveIdentity, 2)));
    assert_eq!(save_identity_reply(-1), Err(failed(StoreCallback::SaveIdentity, -1)));
}

#[test]
fn trusted_identity_flags() {
    assert_eq!(trusted_identity_reply(0), Ok(false));
    assert_eq!(trusted_identity_reply(1), Ok(true));
    assert_eq!(
        trusted_identity_reply(i32::MIN),
        Err(failed(StoreCallback::IsTrustedIdentity, i32::MIN))
    );
}

#[test]
fn identity_lookup() {
    assert_eq!(identity_reply(0, Some("key")), Ok(Some("key")));
    assert_eq!(identity_reply::<&str>(0, None), Ok(None));
    assert_eq!(identity_reply(5, Some("key")), Err(failed(StoreCallback::GetIdentity, 5)));
}

#[test]
fn pre_key_lookup() {
    assert_eq!(pre_key_reply(0, Some(vec![1u8, 2])), Ok(vec![1u8, 2]));
    assert_eq!(pre_key_reply::<Vec<u8>>(0, None), Err(StoreError::InvalidPreKeyId));
    assert_eq!(pre_key_reply::<Vec<u8>>(1, None), Err(failed(StoreCallback::LoadPreKey, 1)));
}

#[test]
fn signed_pre_key_lookup() {
    assert_eq!(signed_pre_key_reply(0, Some(9u32)), Ok(9u32));
    assert_eq!(signed_pre_key_reply::<u32>(0, None), Err(StoreError::InvalidSignedPreKeyId));
    assert_eq!(
        signed_pre_key_reply(-7, Some(9u32)),
        Err(failed(StoreCallback::LoadSignedPreKey, -7))
    );
}

#[test]
fn session_lookup() {
    assert_eq!(session_reply(0, Some(1u64)), Ok(Some(1u64)));
    assert_eq!(session_reply::<u64>(0, None), Ok(None));
    assert_eq!(session_reply::<u64>(42, None), Err(failed(StoreCallback::LoadSession, 42)));
}

#[test]
fn sender_key_lookup() {
    assert_eq!(sender_key_reply(0, Some(1u64)), Ok(Some(1u64)));
    assert_eq!(sender_key_reply::<u64>(0, None), Ok(None));
    assert_eq!(sender_key_reply::<u64>(-2, None), Err(failed(StoreCallback::LoadSenderKey, -2)));
}

#[test]
fn status_only_operations() {
    assert_eq!(save_pre_key_reply(0), Ok(()));
    assert_eq!(save_pre_key_reply(1), Err(failed(StoreCallback::StorePreKey, 1)));
    assert_eq!(remove_pre_key_reply(0), Ok(()));
    assert_eq!(remove_pre_key_reply(-1), Err(failed(StoreCallback::RemovePreKey, -1)));
    assert_eq!(save_signed_pre_key_reply(0), Ok(()));
    assert_eq!(save_signed_pre_key_reply(9), Err(failed(StoreCallback::StoreSignedPreKey, 9)));
    assert_eq!(store_session_reply(0), Ok(()));
    assert_eq!(store_session_reply(1), Err(failed(StoreCallback::StoreSession, 1)));
    assert_eq!(store_sender_key_reply(0), Ok(()));
    assert_eq!(store_sender_key_reply(1), Err(failed(StoreCallback::StoreSenderKey, 1)));
}

#[test]
fn rejected_status_is_reported_on_every_kind() {
    for status in [-1, 2, 100, i32::MAX] {
        assert!(matches!(save_pre_key_reply(status), Err(StoreError::CallbackReturnedInteger { code, .. }) if code == status));
        assert!(matches!(save_identity_reply(status), Err(StoreError::CallbackReturnedInteger { code, .. }) if code == status));
        assert!(matches!(pre_key_reply(status, Some(1u8)), Err(StoreError::CallbackReturnedInteger { code, .. }) if code == status));
        assert!(matches!(session_reply(status, Some(1u8)), Err(StoreError::CallbackReturnedInteger { code, .. }) if code == status));
        assert!(matches!(local_registration_id_reply(status, 1), Err(StoreError::CallbackReturnedInteger { code, .. }) if code == status));
    }
}

#[test]
fn callback_names() {
    assert_eq!(StoreCallback::GetIdentityKeyPair.name(), "get_identity_key_pair");
    assert_eq!(StoreCallback::GetLocalRegistrationId.name(), "get_local_registration_id");
    assert_eq!(StoreCallback::SaveIdentity.name(), "save_identity");
    assert_eq!(StoreCallback::GetIdentity.name(), "get_identity");
    assert_eq!(StoreCallback::IsTrustedIdentity.name(), "is_trusted_identity");
    assert_eq!(StoreCallback::LoadPreKey.name(), "load_pre_key");
    assert_eq!(StoreCallback::StorePreKey.name(), "store_pre_key");
    assert_eq!(StoreCallback::RemovePreKey.name(), "remove_pre_key");
    assert_eq!(StoreCallback::LoadSignedPreKey.name(), "load_signed_pre_key");
    assert_eq!(StoreCallback::StoreSignedPreKey.name(), "store_signed_pre_key");
    assert_eq!(StoreCallback::LoadSession.name(), "load_session");
    assert_eq!(StoreCallback::StoreSession.name(), "store_session");
    assert_eq!(StoreCallback::LoadSenderKey.name(), "load_sender_key");
    assert_eq!(StoreCallback::StoreSenderKey.name(), "store_sender_key");
}

#[test]
fn callback_names_are_distinct() {
    let all = [
        StoreCallback::GetIdentityKeyPair,
        StoreCallback::GetLocalRegistrationId,
        StoreCallback::SaveIdentity,
        StoreCallback::GetIdentity,
        StoreCallback::IsTrustedIdentity,
        StoreCallback::LoadPreKey,
        StoreCallback::StorePreKey,
        StoreCallback::RemovePreKey,
        StoreCallback::LoadSignedPreKey,
        StoreCallback::StoreSignedPreKey,
        StoreCallback::LoadSession,
        StoreCallback::StoreSession,
        StoreCallback::LoadSenderKey,
        StoreCallback::StoreSenderKey,
    ];
    for (i, a) in all.iter().enumerate() {
        for (j, b) in all.iter().enumerate() {
            assert_eq!(i == j, a.name() == b.name());
        }
    }
}
