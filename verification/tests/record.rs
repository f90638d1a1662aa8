use admin_config::{AccountInfo, Config, ErrorCode, Identity, Signer};

fn key(fill: u8) -> Identity {
    Identity::new([fill; 32])
}

fn authority(key: Identity) -> Signer {
    match Signer::try_from(&AccountInfo { key, is_signer: true }) {
        Some(signer) => signer,
        None => panic!("a signed reference must upgrade"),
    }
}

#[test]
fn identity_keeps_its_bytes() {
    let mut bytes = [0u8; 32];
    for (i, byte) in bytes.iter_mut().enumerate() {
        *byte = 255 - i as u8;
    }
    let identity = Identity::new(bytes);
    assert_eq!(identity.to_bytes(), bytes);
    assert_eq!(identity.bytes, bytes);
}

#[test]
fn identities_with_the_same_bytes_are_equal() {
    assert_eq!(key(4), key(4));
    assert!(key(0) == Identity { bytes: [0; 32] });
}

#[test]
fn identities_differ_when_any_byte_differs() {
    let base = key(4);
    for position in 0..32 {
        let mut bytes = [4u8; 32];
        bytes[position] = 5;
        let other = Identity::new(bytes);
        assert_ne!(base, other);
        assert_ne!(other, base);
        assert!(!(base == other));
    }
}

#[test]
fn signed_reference_upgrades_to_signer() {
    let info = AccountInfo { key: key(1), is_signer: true };
    match Signer::try_from(&info) {
        Some(signer) => assert_eq!(signer.key(), key(1)),
        None => panic!("a signed reference must upgrade"),
    }
}

#[test]
fn signer_keeps_the_reference_it_was_made_from() {
    let signer = authority(key(3));
    let info = signer.info();
    assert_eq!(info.key, key(3));
    assert!(info.is_signer);
}

#[test]
fn unsigned_reference_does_not_upgrade() {
    let info = AccountInfo { key: key(1), is_signer: false };
    assert!(Signer::try_from(&info).is_none());
}

#[test]
fn uninitialized_record_names_nobody() {
    let config = Config::uninitialized();
    assert!(!config.is_initialized());
    assert_eq!(config.admin(), None);
    assert!(!config.is_admin(&key(0)));
    assert!(!config.is_admin(&key(1)));
}

#[test]
fn initialized_record_names_its_admin() {
    let config = Config::initialized(key(8));
    assert!(config.is_initialized());
    assert_eq!(config.admin(), Some(key(8)));
    assert!(config.is_admin(&key(8)));
    assert!(!config.is_admin(&key(9)));
}

#[test]
fn create_installs_the_creator_once() {
    let mut config = Config::uninitialized();
    assert_eq!(config.create(&authority(key(1))), Ok(()));
    assert_eq!(config.admin(), Some(key(1)));
    assert_eq!(config.create(&authority(key(2))), Err(ErrorCode::AlreadyInitialized));
    assert_eq!(config.admin(), Some(key(1)));
    assert_eq!(config.create(&authority(key(1))), Err(ErrorCode::AlreadyInitialized));
    assert_eq!(config.admin(), Some(key(1)));
}

#[test]
fn transfer_needs_the_admin_as_authority() {
    let mut config = Config::initialized(key(1));
    assert_eq!(config.transfer(&authority(key(2)), key(2)), Err(ErrorCode::InvalidAdmin));
    assert_eq!(config.admin(), Some(key(1)));
    assert_eq!(config.transfer(&authority(key(1)), key(2)), Ok(()));
    assert_eq!(config.admin(), Some(key(2)));
    assert_eq!(config.transfer(&authority(key(1)), key(1)), Err(ErrorCode::InvalidAdmin));
    assert_eq!(config.admin(), Some(key(2)));
}

#[test]
fn transfer_on_a_record_never_created_is_refused() {
    let mut config = Config::uninitialized();
    assert_eq!(config.transfer(&authority(key(1)), key(2)), Err(ErrorCode::InvalidAdmin));
    assert_eq!(config.admin(), None);
}

#[test]
fn messages_say_what_was_wrong() {
    assert_eq!(ErrorCode::InvalidAdmin.message(), "Invalid admin account provided.");
    assert_eq!(
        ErrorCode::AlreadyInitialized.message(),
        "Config account is already initialized."
    );
    assert_eq!(
        ErrorCode::MissingAdminSignature.message(),
        "Admin account did not sign the request."
    );
}

#[test]
fn error_codes_are_distinct() {
    assert_ne!(ErrorCode::InvalidAdmin, ErrorCode::AlreadyInitialized);
    assert_ne!(ErrorCode::InvalidAdmin, ErrorCode::MissingAdminSignature);
    assert_ne!(ErrorCode::AlreadyInitialized, ErrorCode::MissingAdminSignature);
}
