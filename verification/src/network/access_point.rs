//! Settings of the Wi-Fi access point that the node opens.
use vstd::prelude::*;
use vstd::string::StringSliceAdditionalSpecFns;
use vstd::utf8::encode_utf8;

verus! {

/// Longest access-point name, in bytes (the capacity of the name field of
/// `embedded_svc::wifi::AccessPointConfiguration`).
pub const SSID_MAX_BYTES: usize = 32;

/// Longest passphrase, in bytes (the capacity of the password field of
/// `embedded_svc::wifi::AccessPointConfiguration`).
pub const PASSWORD_MAX_BYTES: usize = 64;

/// How stations authenticate to the access point.
#[derive(Debug, Clone, Copy, PartialEq, Eq)]
pub enum ApAuthMethod {
    /// WPA2 with a pre-shared passphrase.
    Wpa2Personal,
}

/// The access point's configuration, in plain values.
pub struct AccessPointSettings {
    pub ssid: String,
    pub password: String,
    /// Whether the access point hides its name from scans.
    pub ssid_hidden: bool,
    pub auth_method: ApAuthMethod,
    pub channel: u8,
}

/// Whether `ssid` and `password` fit the access point's name and
/// passphrase fields.
pub fn fits_access_point(ssid: &str, password: &str) -> (res: bool)
    ensures
        res == (ssid.spec_bytes().len() <= SSID_MAX_BYTES && password.spec_bytes().len()
            <= PASSWORD_MAX_BYTES),
{
    ssid.as_bytes().len() <= SSID_MAX_BYTES && password.as_bytes().len() <= PASSWORD_MAX_BYTES
}

/// The configuration of a hidden WPA2 access point named `ssid`, protected by
/// `password`, on `channel`.
pub fn access_point_settings(ssid: &str, password: &str, channel: u8) -> (res: AccessPointSettings)
    requires
        ssid.spec_bytes().len() <= SSID_MAX_BYTES,
        password.spec_bytes().len() <= PASSWORD_MAX_BYTES,
    ensures
        res.ssid@ == ssid@,
        res.password@ == password@,
        res.ssid_hidden,
        res.auth_method == ApAuthMethod::Wpa2Personal,
        res.channel == channel,
{
    AccessPointSettings {
        ssid: ssid.to_owned(),
        password: password.to_owned(),
        ssid_hidden: true,
        auth_method: ApAuthMethod::Wpa2Personal,
        channel,
    }
}

/// The Wi-Fi configuration type of `embedded-svc`, carried through without
/// looking inside.
#[verifier::external_type_specification]
#[verifier::external_body]
pub struct ExWifiConfiguration(embedded_svc::wifi::Configuration);

/// The `embedded-svc` access-point configuration with this name, passphrase,
/// visibility, authentication and channel, every other field at its default.
pub uninterp spec fn access_point_configuration_of(
    ssid: Seq<char>,
    password: Seq<char>,
    ssid_hidden: bool,
    auth_method: ApAuthMethod,
    channel: u8,
) -> embedded_svc::wifi::Configuration;

/// Builds `embedded_svc::wifi::Configuration::AccessPoint` from `settings`:
/// the name and passphrase go into the fixed-capacity `heapless` strings of
/// `AccessPointConfiguration` (whose conversion fails, and so would panic
/// here, beyond 32 and 64 bytes), the other fields are copied, and the rest
/// keep `AccessPointConfiguration::default()`. The contract claims that the
/// result depends on those five values alone.
#[verifier::external_body]
fn wifi_configuration(settings: &AccessPointSettings) -> (res: embedded_svc::wifi::Configuration)
    requires
        encode_utf8(settings.ssid@).len() <= SSID_MAX_BYTES,
        encode_utf8(settings.password@).len() <= PASSWORD_MAX_BYTES,
    ensures
        res == access_point_configuration_of(
            settings.ssid@,
            settings.password@,
            settings.ssid_hidden,
            settings.auth_method,
            settings.channel,
        ),
{
    embedded_svc::wifi::Configuration::AccessPoint(embedded_svc::wifi::AccessPointConfiguration {
        ssid: settings.ssid.as_str().try_into().unwrap(),
        ssid_hidden: settings.ssid_hidden,
        auth_method: match settings.auth_method {
            ApAuthMethod::Wpa2Personal => embedded_svc::wifi::AuthMethod::WPA2Personal,
        },
        password: settings.password.as_str().try_into().unwrap(),
        channel: settings.channel,
        ..Default::default()
    })
}

/// The `embedded-svc` configuration of the hidden WPA2 access point named
/// `ssid`, protected by `password`, on `channel`.
pub fn access_point_configuration(ssid: &str, password: &str, channel: u8) -> (res:
    embedded_svc::wifi::Configuration)
    requires
        ssid.spec_bytes().len() <= SSID_MAX_BYTES,
        password.spec_bytes().len() <= PASSWORD_MAX_BYTES,
    ensures
        res == access_point_configuration_of(
            ssid@,
            password@,
            true,
            ApAuthMethod::Wpa2Personal,
            channel,
        ),
{
    let settings = access_point_settings(ssid, password, channel);
    wifi_configuration(&settings)
}

} // verus!
