//! The node's settings and their default values; the firmware reads the
//! actual values from its configuration file when it is built.
use vstd::prelude::*;

verus! {

/// The node's settings: the access point it opens and the limits of its
/// websocket endpoint.
#[derive(Debug, Copy, Clone)]
pub struct Config {
    /// Name of the access point.
    pub ap_ssid: &'static str,
    /// WPA2 passphrase of the access point.
    pub ap_password: &'static str,
    /// Longest websocket payload, in bytes, that the endpoint accepts.
    pub ap_max_payload_len: usize,
    /// Stack size of the HTTP server task, in bytes.
    pub ap_stack_size: usize,
    /// Wi-Fi channel of the access point.
    pub ap_wifi_channel: u8,
}

impl Default for Config {
    /// The settings used when nothing overrides them: no name, no
    /// passphrase, payloads of at most 8 bytes, a 1024-byte server stack and
    /// channel 11.
    fn default() -> (res: Self)
        ensures
            res.ap_ssid@ == Seq::<char>::empty(),
            res.ap_password@ == Seq::<char>::empty(),
            res.ap_max_payload_len == 8,
            res.ap_stack_size == 1024,
            res.ap_wifi_channel == 11,
    {
        proof {
            reveal_strlit("");
        }
        Config {
            ap_ssid: "",
            ap_password: "",
            ap_max_payload_len: 8,
            ap_stack_size: 1024,
            ap_wifi_channel: 11,
        }
    }
}

} // verus!
