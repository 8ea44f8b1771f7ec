use safe_gateway::services::chains::chains_url;
use safe_gateway::services::notifications::{
    build_backend_request, registration_delete_url, registration_post_url, DeviceData,
    SafeRegistration,
};

#[test]
fn chains_url_carries_the_limit() {
    assert_eq!(chains_url(&Some("20".to_string())), "/v1/chains/?limit=20");
    assert_eq!(chains_url(&None), "/v1/chains/?limit=");
}

#[test]
fn registration_urls() {
    assert_eq!(registration_post_url(), "/v1/notifications/devices/");
    assert_eq!(
        registration_delete_url("uuid-1", "0xSafe"),
        "/v1/notifications/devices/uuid-1/safes/0xSafe/"
    );
}

#[test]
fn backend_request_pairs_device_with_one_registration() {
    let device = DeviceData {
        uuid: Some("uuid-1".to_string()),
        cloud_messaging_token: "token-1".to_string(),
        bundle: "io.example.wallet".to_string(),
        version: "1.2.3".to_string(),
    };
    let registration = SafeRegistration {
        chain_id: "1".to_string(),
        safes: vec!["0xA".to_string(), "0xB".to_string()],
        signatures: vec!["0xsig".to_string()],
    };
    let request = build_backend_request(&device, &registration);
    assert_eq!(request.notification_device_data.uuid, Some("uuid-1".to_string()));
    assert_eq!(request.notification_device_data.cloud_messaging_token, "token-1");
    assert_eq!(request.safes, vec!["0xA".to_string(), "0xB".to_string()]);
    assert_eq!(request.signatures, vec!["0xsig".to_string()]);
}
