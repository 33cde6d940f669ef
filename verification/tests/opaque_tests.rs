use safex_opaque::{
    canonicalize_private_key, decrypt_payload, encrypt_payload, random_fake_private_key,
    ClientLedger, ErrorKind, SafexOpaqueClientStart, SafexOpaqueLoginStart, SafexOpaqueManager,
};

fn new_manager(ttl_secs: u64) -> SafexOpaqueManager {
    let server_id = b"srv".to_vec();
    let secret_key = b"an administrator supplied secret of arbitrary shape".to_vec();
    let oprf_seed = vec![0x5au8; 64];
    SafexOpaqueManager::new(&server_id, &secret_key, &oprf_seed, ttl_secs).expect("server setup")
}

struct Registered {
    client: ClientLedger,
    manager: SafexOpaqueManager,
    upload: Vec<u8>,
    reg_export_key: Vec<u8>,
}

fn register(pin: &[u8], secret_id: &[u8], ttl_secs: u64) -> Registered {
    let mut client = ClientLedger::new();
    let manager = new_manager(ttl_secs);
    let start = client.start_registration(pin).expect("client start registration");
    let response = manager
        .registration_response(&secret_id.to_vec(), &start.message())
        .expect("server registration response");
    let finish = client
        .finish_registration(start.handle(), pin, &response)
        .expect("client finish registration");
    Registered {
        client,
        manager,
        upload: finish.upload(),
        reg_export_key: finish.export_key(),
    }
}

#[test]
fn full_flow_round_trip() {
    let pin = b"A1B2C3";
    let secret_id = b"user-123";
    let mut r = register(pin, secret_id, 60);
    assert_eq!(r.reg_export_key.len(), 64);

    let login = r.client.start_login(pin).expect("client start login");
    let (session_id, ke2) = r
        .manager
        .login_start(&secret_id.to_vec(), &r.upload, &login.message())
        .expect("server login start");
    let finish = r.client.finish_login(login.handle(), pin, &ke2).expect("client finish login");
    assert_eq!(finish.export_key(), r.reg_export_key);
    assert_eq!(finish.export_key().len(), 64);
    assert_eq!(finish.session_key().len(), 64);

    let resolved = r
        .manager
        .login_finish(&session_id.clone().into_bytes(), &finish.finalization())
        .expect("server login finish");
    assert_eq!(resolved, secret_id.to_vec());

    let payload = encrypt_payload(&finish.export_key(), &b"super secret data".to_vec())
        .expect("encrypt");
    let restored = decrypt_payload(&finish.export_key(), &payload).expect("decrypt");
    assert_eq!(restored, b"super secret data".to_vec());
}

#[test]
fn session_id_is_32_lowercase_hex_chars() {
    let pin = b"112233";
    let secret_id = b"hex-user";
    let mut r = register(pin, secret_id, 60);
    let login = r.client.start_login(pin).expect("start login");
    let (session_id, _ke2) = r
        .manager
        .login_start(&secret_id.to_vec(), &r.upload, &login.message())
        .expect("login start");
    assert_eq!(session_id.len(), 32);
    assert!(session_id.chars().all(|c| c.is_ascii_hexdigit() && !c.is_ascii_uppercase()));
}

#[test]
fn wrong_pin_fails_at_client_finish() {
    let secret_id = b"user-wrong-pin";
    let mut r = register(b"A1B2C3", secret_id, 60);
    let login = r.client.start_login(b"X9Y8Z7").expect("start login");
    let (_session_id, ke2) = r
        .manager
        .login_start(&secret_id.to_vec(), &r.upload, &login.message())
        .expect("login start");
    let err = r.client.finish_login(login.handle(), b"X9Y8Z7", &ke2).unwrap_err();
    assert_eq!(err.kind(), ErrorKind::ProtocolFailure);
}

#[test]
fn fake_record_path_is_indistinguishable() {
    // A well-formed record that belongs to a different account and PIN: the
    // server must still answer, and the client must fail only at finish,
    // exactly as with a wrong PIN.
    let other = register(b"000000", b"other-user", 60);
    let mut r = register(b"A1B2C3", b"real-user", 60);
    let login = r.client.start_login(b"A1B2C3").expect("start login");
    let (_session_id, ke2) = r
        .manager
        .login_start(&b"never-registered".to_vec(), &other.upload, &login.message())
        .expect("login start must succeed for unknown accounts");
    assert_eq!(ke2.len(), 320);
    let err = r.client.finish_login(login.handle(), b"A1B2C3", &ke2).unwrap_err();
    assert_eq!(err.kind(), ErrorKind::ProtocolFailure);
}

#[test]
fn finish_registration_rejects_unknown_handle() {
    let mut client = ClientLedger::new();
    let start = client.start_registration(b"123456").expect("start registration");
    let bad_handle = start.handle().wrapping_add(42);
    let err = client.finish_registration(bad_handle, b"123456", &[]).unwrap_err();
    assert_eq!(err.kind(), ErrorKind::UnknownHandle);
    assert!(err.message().contains("unknown registration handle"));
}

#[test]
fn finish_login_rejects_unknown_handle() {
    let mut client = ClientLedger::new();
    let start = client.start_login(b"654321").expect("start login");
    let bad_handle = start.handle().wrapping_add(1);
    let err = client.finish_login(bad_handle, b"654321", &[]).unwrap_err();
    assert_eq!(err.kind(), ErrorKind::UnknownHandle);
    assert!(err.message().contains("unknown login handle"));
}

#[test]
fn registration_handle_is_single_use() {
    let pin = b"777777";
    let secret_id = b"single-use";
    let mut client = ClientLedger::new();
    let manager = new_manager(60);
    let start = client.start_registration(pin).expect("start registration");
    let response = manager
        .registration_response(&secret_id.to_vec(), &start.message())
        .expect("registration response");
    client.finish_registration(start.handle(), pin, &response).expect("first finish");
    let err = client.finish_registration(start.handle(), pin, &response).unwrap_err();
    assert_eq!(err.kind(), ErrorKind::UnknownHandle);
}

#[test]
fn login_handle_is_consumed_even_on_failure() {
    let mut client = ClientLedger::new();
    let start = client.start_login(b"999999").expect("start login");
    // A malformed response fails the finish, but the handle is spent.
    let err = client.finish_login(start.handle(), b"999999", &[1, 2, 3]).unwrap_err();
    assert_eq!(err.kind(), ErrorKind::ProtocolFailure);
    let err = client.finish_login(start.handle(), b"999999", &[1, 2, 3]).unwrap_err();
    assert_eq!(err.kind(), ErrorKind::UnknownHandle);
}

#[test]
fn session_is_single_use() {
    let pin = b"A1B2C3";
    let secret_id = b"twice";
    let mut r = register(pin, secret_id, 60);
    let login = r.client.start_login(pin).expect("start login");
    let (session_id, ke2) = r
        .manager
        .login_start(&secret_id.to_vec(), &r.upload, &login.message())
        .expect("login start");
    let finish = r.client.finish_login(login.handle(), pin, &ke2).expect("finish login");
    let sid_bytes = session_id.into_bytes();
    r.manager.login_finish(&sid_bytes, &finish.finalization()).expect("first finish");
    let err = r.manager.login_finish(&sid_bytes, &finish.finalization()).unwrap_err();
    assert_eq!(err.kind(), ErrorKind::UnknownSession);
}

#[test]
fn expired_session_is_rejected_and_consumed() {
    let pin = b"A1B2C3";
    let secret_id = b"expiring";
    let mut r = register(pin, secret_id, 1);
    let login = r.client.start_login(pin).expect("start login");
    let (session_id, ke2) = r
        .manager
        .login_start(&secret_id.to_vec(), &r.upload, &login.message())
        .expect("login start");
    let finish = r.client.finish_login(login.handle(), pin, &ke2).expect("finish login");
    let sid_bytes = session_id.into_bytes();
    // Observe the session one millisecond after any representable expiry.
    let err = r.manager.login_finish_at(u64::MAX, &sid_bytes, &finish.finalization()).unwrap_err();
    assert_eq!(err.kind(), ErrorKind::Expired);
    assert!(err.message().contains("opaque session expired"));
    // The expiry observation consumed the session.
    let err = r.manager.login_finish(&sid_bytes, &finish.finalization()).unwrap_err();
    assert_eq!(err.kind(), ErrorKind::UnknownSession);
}

#[test]
fn login_start_validates_inputs() {
    let pin = b"A1B2C3";
    let secret_id = b"validate";
    let mut r = register(pin, secret_id, 60);
    let login = r.client.start_login(pin).expect("start login");

    let err = r.manager.login_start(&Vec::new(), &r.upload, &login.message()).unwrap_err();
    assert_eq!(err.kind(), ErrorKind::InvalidInput);
    assert!(err.message().contains("secret ID is required"));

    let err = r.manager.login_start(&secret_id.to_vec(), &Vec::new(), &login.message()).unwrap_err();
    assert_eq!(err.kind(), ErrorKind::InvalidInput);
    assert!(err.message().contains("opaque record is required"));
}

#[test]
fn registration_response_rejects_empty_secret_id() {
    let mut client = ClientLedger::new();
    let manager = new_manager(60);
    let start = client.start_registration(b"123456").expect("start registration");
    let err = manager.registration_response(&Vec::new(), &start.message()).unwrap_err();
    assert_eq!(err.kind(), ErrorKind::InvalidInput);
    assert!(err.message().contains("secret ID is required"));
}

#[test]
fn login_finish_validates_session_id() {
    let mut manager = new_manager(60);
    let err = manager.login_finish(&Vec::new(), &vec![0u8; 64]).unwrap_err();
    assert_eq!(err.kind(), ErrorKind::InvalidInput);
    assert!(err.message().contains("session ID is required"));

    let err = manager.login_finish(&vec![0xFFu8, 0xFE], &vec![0u8; 64]).unwrap_err();
    assert_eq!(err.kind(), ErrorKind::InvalidInput);
    assert!(err.message().contains("session ID must be valid UTF-8"));

    let unknown = b"00112233445566778899aabbccddeeff".to_vec();
    let err = manager.login_finish(&unknown, &vec![0u8; 64]).unwrap_err();
    assert_eq!(err.kind(), ErrorKind::UnknownSession);
    assert!(err.message().contains("opaque session not found"));

    // Valid multi-byte UTF-8 passes the encoding check and fails lookup.
    let multibyte = "sitzungsschl\u{00fc}ssel".as_bytes().to_vec();
    let err = manager.login_finish(&multibyte, &vec![0u8; 64]).unwrap_err();
    assert_eq!(err.kind(), ErrorKind::UnknownSession);

    // An overlong encoding is not valid UTF-8.
    let err = manager.login_finish(&vec![0xC0u8, 0x80], &vec![0u8; 64]).unwrap_err();
    assert_eq!(err.kind(), ErrorKind::InvalidInput);
    assert!(err.message().contains("session ID must be valid UTF-8"));
}

#[test]
fn manager_rejects_bad_oprf_seed_length() {
    let err = SafexOpaqueManager::new(
        &b"srv".to_vec(),
        &b"secret".to_vec(),
        &vec![1u8; 63],
        60,
    )
    .err()
    .expect("a 63-byte OPRF seed must be rejected");
    assert_eq!(err.kind(), ErrorKind::ProtocolFailure);
}

#[test]
fn manager_accepts_zero_ttl_by_clamping() {
    // A zero time-to-live is clamped to one second rather than rejected.
    let _ = new_manager(0);
}

#[test]
fn canonicalize_is_deterministic_and_idempotent() {
    let input = b"not a scalar at all, any bytes do".to_vec();
    let k1 = canonicalize_private_key(&input).expect("canonicalize");
    let k2 = canonicalize_private_key(&input).expect("canonicalize");
    assert_eq!(k1, k2);
    assert_eq!(k1.len(), 32);
    // A canonical key maps to itself.
    let k3 = canonicalize_private_key(&k1).expect("canonicalize");
    assert_eq!(k3, k1);
    // The empty input is accepted too.
    let k4 = canonicalize_private_key(&Vec::new()).expect("canonicalize");
    assert_eq!(k4.len(), 32);
}

#[test]
fn fake_private_keys_are_valid_and_fresh() {
    let k1 = random_fake_private_key(32).expect("sample");
    let k2 = random_fake_private_key(32).expect("sample");
    assert_eq!(k1.len(), 32);
    assert_eq!(k2.len(), 32);
    assert_ne!(k1, k2);
    // A sampled key is already canonical.
    assert_eq!(canonicalize_private_key(&k1).expect("canonicalize"), k1);
}

#[test]
fn handles_are_nonzero() {
    let mut client = ClientLedger::new();
    let start = client.start_registration(b"123456").expect("start");
    assert_ne!(start.handle(), 0);
    let start = client.start_login(b"123456").expect("start");
    assert_ne!(start.handle(), 0);
}

#[test]
fn boundary_structs_carry_fields_through() {
    let mut client = ClientLedger::new();
    let start = client.start_registration(b"246801").expect("start registration");
    let c = SafexOpaqueClientStart::from_registration(&start);
    assert_eq!(c.handle, start.handle());
    assert_eq!(c.message.data, start.message());

    let login = SafexOpaqueLoginStart::new("00ff".to_string(), vec![1, 2, 3]);
    assert_eq!(login.session_id.data, b"00ff".to_vec());
    assert_eq!(login.response.data, vec![1, 2, 3]);
}

#[test]
fn malformed_record_is_hard_reject() {
    // A record that does not deserialize must fail login start outright; it
    // must never be answered through the fake-record path.
    let mut manager = new_manager(60);
    let err = manager
        .login_start(&b"some-user".to_vec(), &vec![1u8, 2, 3], &vec![0u8; 96])
        .unwrap_err();
    assert_eq!(err.kind(), ErrorKind::ProtocolFailure);
}
