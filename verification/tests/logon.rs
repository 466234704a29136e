use rdpkit::logon::{
    hmac_md5, ClientAutoReconnect, LogonErrorNotificationData, LogonErrorNotificationType, LogonErrorsInfo,
    ServerAutoReconnect, CLIENT_AUTO_RECONNECT_COOKIE_SIZE,
};

#[test]
fn hmac_md5_matches_rfc2202_vector_1() {
    let key = [0x0bu8; 16];
    let data = b"Hi There";
    let expected = [
        0x92, 0x94, 0x72, 0x7a, 0x36, 0x38, 0xbb, 0x1c, 0x13, 0xf4, 0x8e, 0xf8, 0x15, 0x8b, 0xfc, 0x9d,
    ];
    assert_eq!(hmac_md5(&key, data), expected);
}

#[test]
fn hmac_md5_matches_rfc2202_vector_2() {
    let expected = [
        0x75, 0x0c, 0x78, 0x3e, 0x6a, 0xb0, 0xb5, 0x03, 0xea, 0xa8, 0x6e, 0x31, 0x0a, 0x5d, 0xb7, 0x38,
    ];
    assert_eq!(hmac_md5(b"Jefe", b"what do ya want for nothing?"), expected);
}

#[test]
fn hmac_md5_long_key_is_hashed_first() {
    // The RFC 2202 vector with an 80-byte key, which is replaced by its MD5 digest.
    let key = [0xaau8; 80];
    let expected = [
        0x6b, 0x1a, 0xb7, 0xfe, 0x4b, 0xd7, 0xbf, 0x8f, 0x0b, 0x62, 0xe6, 0xce, 0x61, 0xb9, 0xd0, 0xcd,
    ];
    assert_eq!(hmac_md5(&key, b"Test Using Larger Than Block-Size Key - Hash Key First"), expected);
}

#[test]
fn client_auto_reconnect_verifier_known_answer() {
    let server = ServerAutoReconnect {
        logon_id: 0x0201,
        random_bits: [1, 2, 3, 4, 5, 6, 7, 8, 9, 10, 11, 12, 13, 14, 15, 16],
    };
    let expected_verifier = [
        0x89, 0x40, 0x25, 0xa9, 0x9d, 0x64, 0xab, 0x96, 0x64, 0x19, 0xec, 0x1e, 0xf1, 0x3c, 0x26, 0x1c,
    ];

    let client = ClientAutoReconnect::from_server_enhanced_security(&server);
    assert_eq!(client.logon_id, 0x0201);
    assert_eq!(client.security_verifier, expected_verifier);
}

#[test]
fn client_verifier_is_not_a_copy_of_random_bits() {
    let random_bits = [1, 2, 3, 4, 5, 6, 7, 8, 9, 10, 11, 12, 13, 14, 15, 16];
    let server = ServerAutoReconnect { logon_id: 7, random_bits };
    let client = ClientAutoReconnect::from_server_enhanced_security(&server);
    assert_ne!(client.security_verifier, random_bits);
}

#[test]
fn client_auto_reconnect_wire_layout() {
    let server = ServerAutoReconnect {
        logon_id: 0x0403_0201,
        random_bits: [1, 2, 3, 4, 5, 6, 7, 8, 9, 10, 11, 12, 13, 14, 15, 16],
    };
    let client = ClientAutoReconnect::from_server_enhanced_security(&server);
    let bytes = client.to_bytes();

    assert_eq!(bytes.len(), CLIENT_AUTO_RECONNECT_COOKIE_SIZE);
    assert_eq!(&bytes[0..4], &[0x1c, 0x00, 0x00, 0x00]);
    assert_eq!(&bytes[4..8], &[0x01, 0x00, 0x00, 0x00]);
    assert_eq!(&bytes[8..12], &[0x01, 0x02, 0x03, 0x04]);
    assert_eq!(&bytes[12..28], &client.security_verifier);
}

#[test]
fn client_verifier_depends_on_client_random() {
    let server = ServerAutoReconnect { logon_id: 1, random_bits: [9u8; 16] };
    let a = ClientAutoReconnect::from_server(&server, &[0u8; 32]);
    let b = ClientAutoReconnect::from_server(&server, &[1u8; 32]);
    assert_ne!(a.security_verifier, b.security_verifier);
    assert_eq!(a.security_verifier, hmac_md5(&[9u8; 16], &[0u8; 32]));
}

#[test]
fn server_auto_reconnect_round_trip() {
    let server = ServerAutoReconnect { logon_id: 0xdead_beef, random_bits: [0x5a; 16] };
    let mut buf = Vec::new();
    server.encode(&mut buf);
    assert_eq!(buf.len(), 32);
    assert_eq!(&buf[0..12], &[28, 0, 0, 0, 28, 0, 0, 0, 1, 0, 0, 0]);
    let (decoded, n) = ServerAutoReconnect::decode(&buf).expect("decode");
    assert_eq!(n, 32);
    assert_eq!(decoded.logon_id, 0xdead_beef);
    assert_eq!(decoded.random_bits, [0x5a; 16]);
}

#[test]
fn server_auto_reconnect_rejects_bad_version() {
    let server = ServerAutoReconnect { logon_id: 1, random_bits: [0; 16] };
    let mut buf = Vec::new();
    server.encode(&mut buf);
    buf[8] = 2;
    assert!(ServerAutoReconnect::decode(&buf).is_err());
    assert!(ServerAutoReconnect::decode(&buf[..31]).is_err());
}

#[test]
fn logon_errors_info_round_trip() {
    let info = LogonErrorsInfo {
        error_type: LogonErrorNotificationType::SessionBusyOptions,
        error_data: LogonErrorNotificationData::SessionId(0x1234),
    };
    let mut buf = Vec::new();
    info.encode(&mut buf);
    let (decoded, n) = LogonErrorsInfo::decode(&buf).expect("decode");
    assert_eq!(n, buf.len());
    assert_eq!(decoded.error_type.as_u32(), info.error_type.as_u32());
    assert_eq!(decoded.error_data.to_u32(), 0x1234);
}
