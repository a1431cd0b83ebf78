//! Configuration: every value the search needs is named here and
//! injected, with documented defaults — nothing is an embedded literal
//! of the control logic.
//!
//! `MountParams` describes the mount point the probe creates and
//! deletes, and the lifecycle server that manages it. Formatting these
//! values into a request payload, and carrying it to the server, is the
//! surrounding application's business.

use vstd::prelude::*;

verus! {

/// The mount point under test and the lifecycle server managing it.
pub struct MountParams {
    /// Name of the mount point (the node identifier).
    pub node_id: String,
    /// Host of the lifecycle server's configuration endpoint.
    pub server_host: String,
    /// Port of the lifecycle server's configuration endpoint.
    pub server_port: u16,
    /// Username for the lifecycle server.
    pub server_username: String,
    /// Password for the lifecycle server.
    pub server_password: String,
    /// Host of the device the mount point connects to.
    pub device_host: String,
    /// Port of the device.
    pub device_port: u16,
    /// Transport used to reach the device.
    pub transport_type: String,
    /// Device type.
    pub device_type: String,
    /// Device firmware version.
    pub device_version: String,
    /// Username on the device.
    pub device_username: String,
    /// Password on the device.
    pub device_password: String,
    /// Whether the server reconciles an existing configuration.
    pub reconcile: bool,
    /// Journal size for the mount.
    pub journal_size: u64,
    /// Journal size for dry runs.
    pub dry_run_journal_size: u64,
    /// Keepalive timeout, in seconds.
    pub keepalive_timeout_s: u64,
    /// Where the server's log stream is found.
    pub log_path: String,
}

impl Default for MountParams {
    /// The documented defaults of the search target.
    fn default() -> (p: MountParams)
        ensures
            p.node_id@ == "ME_CLI"@,
            p.server_host@ == "localhost"@,
            p.server_port == 8181u16,
            p.server_username@ == "admin"@,
            p.server_password@ == "admin"@,
            p.device_host@ == "192.168.1.223"@,
            p.device_port == 23u16,
            p.transport_type@ == "telnet"@,
            p.device_type@ == "ios xr"@,
            p.device_version@ == "6.6.1"@,
            p.device_username@ == "cisco"@,
            p.device_password@ == "ciscocisco"@,
            p.reconcile == false,
            p.journal_size == 150u64,
            p.dry_run_journal_size == 150u64,
            p.keepalive_timeout_s == 180u64,
            p.log_path@ == "data/log/karaf.log"@,
    {
        MountParams {
            node_id: "ME_CLI".to_owned(),
            server_host: "localhost".to_owned(),
            server_port: 8181,
            server_username: "admin".to_owned(),
            server_password: "admin".to_owned(),
            device_host: "192.168.1.223".to_owned(),
            device_port: 23,
            transport_type: "telnet".to_owned(),
            device_type: "ios xr".to_owned(),
            device_version: "6.6.1".to_owned(),
            device_username: "cisco".to_owned(),
            device_password: "ciscocisco".to_owned(),
            reconcile: false,
            journal_size: 150,
            dry_run_journal_size: 150,
            keepalive_timeout_s: 180,
            log_path: "data/log/karaf.log".to_owned(),
        }
    }
}

} // verus!
