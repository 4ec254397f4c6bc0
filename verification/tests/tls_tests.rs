use neo::credentials::{key_from_items, load_certs, PemItem};
use neo::tls::{
    alpn_protocols, build_tls_server_config, classify_handshake_failure, FailureClass,
    HandshakeFault, TlsConfigError, BAD_CERTIFICATE_ALERT,
};

/// A throwaway RSA private key used only by these tests, held as its DER bytes.
const TEST_RSA_KEY_DER: &[u8] = &[
    48, 130, 4, 165, 2, 1, 0, 2, 130, 1, 1, 0, 174, 183, 113, 123, 65, 193, 149, 150, 169, 129,
    189, 15, 144, 155, 164, 205, 194, 175, 72, 255, 226, 123, 150, 78, 191, 248, 219, 136, 125,
    8, 135, 157, 248, 147, 18, 209, 186, 199, 218, 249, 161, 246, 224, 95, 246, 214, 189, 159,
    149, 153, 206, 48, 192, 91, 109, 182, 216, 0, 184, 187, 241, 24, 68, 134, 60, 90, 241, 46,
    179, 254, 184, 95, 103, 85, 145, 182, 232, 55, 156, 209, 4, 179, 14, 133, 68, 75, 230, 220,
    232, 96, 20, 233, 211, 96, 116, 192, 144, 207, 226, 76, 53, 39, 235, 251, 67, 46, 67, 227,
    149, 124, 53, 150, 56, 201, 64, 128, 135, 40, 52, 186, 121, 147, 146, 98, 165, 162, 157, 78,
    124, 207, 238, 245, 5, 219, 158, 233, 219, 56, 47, 94, 124, 185, 21, 162, 6, 153, 146, 69,
    224, 58, 204, 95, 234, 33, 34, 203, 23, 25, 62, 5, 24, 65, 123, 32, 21, 14, 73, 91, 39, 86,
    90, 22, 5, 252, 224, 243, 77, 183, 247, 180, 143, 236, 10, 119, 209, 52, 115, 94, 195, 3,
    87, 180, 97, 207, 208, 14, 213, 95, 200, 46, 127, 59, 220, 9, 221, 47, 127, 3, 106, 205,
    186, 29, 8, 169, 115, 97, 201, 83, 117, 223, 209, 148, 118, 203, 210, 156, 157, 57, 79, 13,
    170, 5, 150, 59, 174, 10, 140, 62, 84, 199, 146, 157, 34, 5, 54, 66, 123, 42, 211, 80, 254,
    212, 237, 241, 102, 9, 2, 3, 1, 0, 1, 2, 130, 1, 0, 2, 176, 187, 116, 30, 67, 238, 5, 151,
    16, 72, 52, 214, 252, 11, 231, 201, 54, 214, 197, 24, 155, 224, 233, 121, 219, 159, 81, 202,
    57, 195, 230, 45, 170, 55, 112, 205, 168, 169, 217, 97, 226, 65, 209, 61, 207, 250, 95, 220,
    140, 180, 237, 70, 65, 2, 41, 168, 115, 129, 15, 101, 38, 131, 174, 71, 123, 250, 89, 28,
    66, 27, 93, 8, 185, 38, 24, 110, 196, 165, 203, 8, 43, 83, 174, 191, 84, 80, 139, 237, 72,
    198, 206, 255, 156, 194, 202, 38, 80, 181, 44, 222, 232, 1, 162, 105, 176, 149, 134, 9, 202,
    189, 174, 128, 85, 175, 173, 192, 81, 182, 87, 122, 192, 200, 38, 113, 184, 213, 37, 150,
    51, 203, 142, 76, 47, 239, 7, 62, 32, 131, 209, 189, 16, 131, 134, 133, 147, 199, 65, 253,
    128, 157, 180, 245, 121, 66, 250, 54, 175, 200, 201, 187, 35, 192, 106, 56, 228, 38, 65, 35,
    208, 183, 200, 96, 205, 117, 121, 110, 156, 33, 123, 107, 158, 32, 51, 41, 185, 230, 79, 92,
    226, 200, 137, 122, 26, 222, 181, 246, 171, 106, 220, 147, 1, 78, 21, 233, 182, 176, 107,
    163, 30, 196, 54, 40, 91, 235, 37, 146, 104, 94, 5, 138, 25, 36, 127, 52, 171, 136, 10, 161,
    21, 163, 16, 75, 200, 241, 2, 66, 34, 96, 174, 60, 147, 247, 97, 130, 81, 21, 43, 210, 7,
    64, 94, 91, 15, 164, 3, 2, 129, 129, 0, 236, 65, 71, 89, 57, 102, 31, 228, 105, 143, 184,
    81, 16, 174, 217, 124, 99, 147, 230, 250, 148, 35, 144, 114, 61, 34, 166, 81, 101, 20, 69,
    118, 150, 109, 101, 7, 230, 181, 25, 146, 177, 181, 82, 230, 52, 114, 99, 152, 87, 176, 39,
    255, 169, 51, 130, 198, 45, 114, 253, 196, 244, 219, 25, 185, 150, 35, 49, 187, 156, 193,
    33, 12, 86, 215, 159, 133, 217, 157, 187, 169, 223, 123, 179, 206, 115, 248, 235, 54, 158,
    197, 142, 144, 111, 66, 201, 171, 242, 131, 56, 62, 98, 101, 64, 212, 207, 164, 172, 93, 68,
    140, 62, 204, 40, 24, 47, 209, 219, 95, 252, 170, 232, 8, 35, 132, 24, 93, 31, 31, 2, 129,
    129, 0, 189, 81, 137, 199, 62, 1, 22, 226, 166, 177, 253, 208, 243, 58, 18, 115, 103, 128,
    103, 169, 250, 140, 183, 136, 149, 56, 53, 170, 5, 100, 243, 111, 223, 133, 251, 162, 101,
    250, 92, 37, 30, 26, 228, 212, 240, 103, 94, 187, 10, 68, 41, 159, 15, 86, 222, 139, 231,
    55, 158, 204, 114, 193, 69, 15, 13, 181, 247, 115, 11, 159, 103, 237, 163, 127, 37, 42, 35,
    32, 64, 127, 106, 126, 117, 219, 198, 110, 201, 82, 185, 196, 226, 99, 25, 22, 118, 29, 151,
    157, 107, 180, 62, 124, 38, 60, 199, 117, 179, 94, 24, 230, 132, 66, 97, 31, 200, 89, 188,
    145, 136, 96, 19, 23, 225, 161, 100, 210, 93, 215, 2, 129, 129, 0, 168, 46, 12, 25, 98, 247,
    229, 10, 23, 111, 60, 217, 80, 83, 247, 244, 73, 122, 150, 249, 152, 12, 253, 29, 165, 145,
    141, 237, 241, 83, 141, 227, 78, 80, 79, 148, 97, 82, 88, 3, 10, 72, 54, 220, 51, 71, 158,
    200, 106, 219, 182, 141, 147, 168, 92, 150, 176, 241, 227, 222, 154, 35, 130, 91, 143, 154,
    60, 35, 255, 1, 168, 129, 253, 43, 255, 158, 43, 252, 210, 3, 170, 88, 135, 246, 22, 174,
    130, 218, 94, 9, 234, 99, 189, 32, 65, 42, 11, 56, 8, 8, 184, 200, 181, 111, 8, 229, 131,
    225, 221, 19, 44, 252, 238, 41, 209, 152, 197, 94, 190, 33, 247, 141, 27, 163, 68, 40, 190,
    39, 2, 129, 129, 0, 131, 105, 250, 45, 167, 200, 177, 206, 26, 208, 42, 211, 196, 66, 103,
    84, 92, 96, 49, 149, 56, 42, 61, 172, 61, 136, 139, 23, 190, 46, 217, 28, 171, 24, 34, 24,
    20, 153, 185, 36, 186, 197, 8, 91, 23, 149, 105, 152, 132, 3, 212, 176, 104, 193, 112, 49,
    197, 10, 66, 220, 192, 59, 144, 104, 102, 168, 13, 96, 122, 140, 232, 99, 120, 190, 101, 89,
    222, 144, 32, 181, 81, 130, 254, 228, 211, 213, 75, 66, 117, 89, 73, 156, 104, 105, 195, 11,
    191, 150, 178, 144, 167, 95, 30, 91, 202, 72, 213, 125, 87, 227, 139, 163, 88, 47, 235, 174,
    254, 202, 54, 212, 25, 236, 213, 222, 102, 81, 240, 121, 2, 129, 129, 0, 164, 208, 243, 173,
    29, 103, 120, 96, 251, 184, 26, 213, 17, 20, 4, 111, 36, 43, 51, 132, 111, 76, 15, 202, 160,
    118, 156, 236, 225, 110, 154, 15, 43, 103, 97, 5, 70, 241, 210, 52, 12, 185, 112, 23, 18,
    201, 95, 17, 29, 73, 228, 178, 251, 146, 138, 168, 57, 26, 74, 197, 51, 124, 30, 74, 93, 58,
    164, 176, 245, 204, 116, 103, 134, 155, 216, 42, 176, 5, 253, 115, 80, 220, 30, 169, 207,
    68, 63, 138, 241, 148, 201, 53, 185, 79, 8, 47, 243, 95, 71, 85, 138, 97, 18, 110, 97, 202,
    165, 3, 12, 132, 155, 226, 236, 67, 150, 91, 173, 140, 109, 23, 150, 252, 228, 18, 220, 166,
    53, 168,
];

const TEST_CERT_PEM: &str = "-----BEGIN CERTIFICATE-----\nMIIDCTCCAfGgAwIBAgIUdoah4GEoac7Y/adwVuS//KmWZnowDQYJKoZIhvcNAQEL\nBQAwFDESMBAGA1UEAwwJbG9jYWxob3N0MB4XDTI2MTAxMTA3NDQxNloXDTM2MTAw\nODA3NDQxNlowFDESMBAGA1UEAwwJbG9jYWxob3N0MIIBIjANBgkqhkiG9w0BAQEF\nAAOCAQ8AMIIBCgKCAQEArrdxe0HBlZapgb0PkJukzcKvSP/ie5ZOv/jbiH0Ih534\nkxLRusfa+aH24F/21r2flZnOMMBbbbbYALi78RhEhjxa8S6z/rhfZ1WRtug3nNEE\nsw6FREvm3OhgFOnTYHTAkM/iTDUn6/tDLkPjlXw1ljjJQICHKDS6eZOSYqWinU58\nz+71Bdue6ds4L158uRWiBpmSReA6zF/qISLLFxk+BRhBeyAVDklbJ1ZaFgX84PNN\nt/e0j+wKd9E0c17DA1e0Yc/QDtVfyC5/O9wJ3S9/A2rNuh0IqXNhyVN139GUdsvS\nnJ05Tw2qBZY7rgqMPlTHkp0iBTZCeyrTUP7U7fFmCQIDAQABo1MwUTAdBgNVHQ4E\nFgQUsNftIPeu650qNYf1k13b2hYkkwowHwYDVR0jBBgwFoAUsNftIPeu650qNYf1\nk13b2hYkkwowDwYDVR0TAQH/BAUwAwEB/zANBgkqhkiG9w0BAQsFAAOCAQEAQs/l\n4XZdI1UNh2uxDUihlcZXJtHtjpe/6kPYRdSv9pN0v5E0phnw1UUhvHgd3G/k35fx\nKzTJYozpkiRXl1yaItfa3mcVOHHSXdl3LmPhpGaqLDFw80R/ah7dtjqk+y5svfFd\nMNbQIPuqxipX0JW2VJkZHqCWVbGs3TV7O1chGpxBnhJLRY4kFdhz0Gp43ulNGYRB\n+fWy5qbARVSQylalk0nVugLX2uzCqKsfzEU1suNsN+IiPBAhU0Co3WGnpv/F4Pfy\ntrTpbAvVoKXKQywFXPKudJP5nueRfsYXUjRb5E0bVmUxeyd3z4NbAlPDGUtYcuF7\n4CquZCIdsZVLQIXV9g==\n-----END CERTIFICATE-----\n";

#[test]
fn bad_certificate_alert_is_benign() {
    let c = classify_handshake_failure(&HandshakeFault::AlertReceived(BAD_CERTIFICATE_ALERT));
    assert_eq!(c, FailureClass::Benign);
}

#[test]
fn other_alerts_are_noteworthy() {
    let c = classify_handshake_failure(&HandshakeFault::AlertReceived(40));
    assert_eq!(c, FailureClass::Noteworthy);
    let c = classify_handshake_failure(&HandshakeFault::AlertReceived(0));
    assert_eq!(c, FailureClass::Noteworthy);
}

#[test]
fn non_alert_faults_are_noteworthy() {
    let c = classify_handshake_failure(&HandshakeFault::Other);
    assert_eq!(c, FailureClass::Noteworthy);
}

#[test]
fn alpn_prefers_h2_then_http11() {
    let protos = alpn_protocols();
    assert_eq!(protos.len(), 2);
    assert_eq!(protos[0], b"h2".to_vec());
    assert_eq!(protos[1], b"http/1.1".to_vec());
}

#[test]
fn valid_credentials_load() {
    let chain = load_certs(TEST_CERT_PEM.as_bytes()).unwrap();
    assert_eq!(chain.ders().len(), 1);
    let key = key_from_items(&vec![PemItem::RsaKey(TEST_RSA_KEY_DER.to_vec())]).unwrap();
    assert_eq!(key.der().as_slice(), TEST_RSA_KEY_DER);
}

#[test]
fn tls_config_builds_from_valid_credentials() {
    let chain = load_certs(TEST_CERT_PEM.as_bytes()).unwrap();
    let key = key_from_items(&vec![PemItem::RsaKey(TEST_RSA_KEY_DER.to_vec())]).unwrap();
    let cfg = build_tls_server_config(&chain, &key);
    assert!(cfg.is_ok(), "a valid RSA key must be accepted");
}

#[test]
fn tls_config_rejects_unparseable_key() {
    let chain = load_certs(TEST_CERT_PEM.as_bytes()).unwrap();
    let key = key_from_items(&vec![PemItem::RsaKey(vec![1u8, 2u8, 3u8])]).unwrap();
    let r = build_tls_server_config(&chain, &key);
    assert!(matches!(r, Err(TlsConfigError::KeyRejected)));
}
