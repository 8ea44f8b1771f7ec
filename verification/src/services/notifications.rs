//! Device-registration requests: the upstream URLs and the per-account
//! backend payload.

use vstd::prelude::*;

use crate::providers::clone_string_vec;

verus! {

/// A client device asking for push notifications.
#[derive(Debug)]
pub struct DeviceData {
    pub uuid: Option<String>,
    pub cloud_messaging_token: String,
    pub bundle: String,
    pub version: String,
}

impl DeviceData {
    /// A field-for-field copy.
    pub fn duplicate(&self) -> (r: DeviceData)
        ensures
            match self.uuid {
                Some(u) => r.uuid matches Some(v) && v@ == u@,
                None => r.uuid is None,
            },
            r.cloud_messaging_token@ == self.cloud_messaging_token@,
            r.bundle@ == self.bundle@,
            r.version@ == self.version@,
    {
        DeviceData {
            uuid: match self.uuid.as_ref() {
                Some(u) => Some(u.clone()),
                None => None,
            },
            cloud_messaging_token: self.cloud_messaging_token.clone(),
            bundle: self.bundle.clone(),
            version: self.version.clone(),
        }
    }
}

/// One chain's worth of accounts a device registers for.
#[derive(Debug)]
pub struct SafeRegistration {
    pub chain_id: String,
    pub safes: Vec<String>,
    pub signatures: Vec<String>,
}

/// The registration payload the indexing service takes.
#[derive(Debug)]
pub struct BackendRegistrationRequest {
    pub notification_device_data: DeviceData,
    pub safes: Vec<String>,
    pub signatures: Vec<String>,
}

/// The registration request as a client hands it in.
#[derive(Debug)]
pub struct NotificationRegistrationRequest {
    pub device_data: DeviceData,
    pub safe_registrations: Vec<SafeRegistration>,
}

/// Shapes one chain's registration into the backend payload: the device
/// data together with that chain's accounts and signatures.
pub fn build_backend_request(device_data: &DeviceData, safe_registration: &SafeRegistration) -> (r:
    BackendRegistrationRequest)
    ensures
        match device_data.uuid {
            Some(u) => r.notification_device_data.uuid matches Some(v) && v@ == u@,
            None => r.notification_device_data.uuid is None,
        },
        r.notification_device_data.cloud_messaging_token@ == device_data.cloud_messaging_token@,
        r.notification_device_data.bundle@ == device_data.bundle@,
        r.notification_device_data.version@ == device_data.version@,
        r.safes@.map_values(|s: String| s@) == safe_registration.safes@.map_values(
            |s: String| s@,
        ),
        r.signatures@.map_values(|s: String| s@) == safe_registration.signatures@.map_values(
            |s: String| s@,
        ),
{
    BackendRegistrationRequest {
        notification_device_data: device_data.duplicate(),
        safes: clone_string_vec(&safe_registration.safes),
        signatures: clone_string_vec(&safe_registration.signatures),
    }
}

/// The upstream path that registers a device.
pub fn registration_post_url() -> (r: String)
    ensures
        r@ == "/v1/notifications/devices/"@,
{
    "/v1/notifications/devices/".to_owned()
}

/// The upstream path that deletes one device registration for one
/// account.
pub open spec fn registration_delete_url_spec(uuid: Seq<char>, safe_address: Seq<char>) -> Seq<
    char,
> {
    "/v1/notifications/devices/"@.add(uuid).add("/safes/"@).add(safe_address).add("/"@)
}

/// Builds the upstream path that deletes one device registration.
pub fn registration_delete_url(uuid: &str, safe_address: &str) -> (r: String)
    ensures
        r@ == registration_delete_url_spec(uuid@, safe_address@),
{
    let r = "/v1/notifications/devices/".to_owned().concat(uuid).concat("/safes/").concat(
        safe_address,
    ).concat("/");
    proof {
        assert(r@ =~= registration_delete_url_spec(uuid@, safe_address@));
    }
    r
}

} // verus!
