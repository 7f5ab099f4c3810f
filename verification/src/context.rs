//! Settings of one operator deployment.

use vstd::prelude::*;

verus! {

/// How tun-mode proxy pods get access to /dev/net/tun. One choice for the
/// whole deployment.
#[derive(Debug, Clone, PartialEq, Eq)]
pub enum TunDeviceAccess {
    /// Run the proxy container privileged and mount /dev/net/tun from the
    /// host. The simplest variant and the default; the cluster has to admit
    /// privileged pods in the operator namespace.
    Privileged,
    /// Request one unit of a device-plugin resource and add only the
    /// network-administration capability.
    DevicePlugin {
        /// Extended-resource name advertised by the device plugin.
        resource: String,
    },
}

/// Settings of one operator deployment.
#[derive(Debug)]
pub struct Context {
    pub operator_namespace: String,
    pub headscale_image: String,
    pub proxy_image: String,
    /// Image of the forwarder containers in egress proxy pods.
    pub socat_image: String,
    /// How tun-mode proxy pods get access to /dev/net/tun.
    pub tun_device: TunDeviceAccess,
    /// Whether egress DNS rewrites are kept in the CoreDNS ConfigMap.
    pub egress_dns_coredns_custom: bool,
    pub operator_image: String,
    /// Whether this deployment claims objects that name no deployment. One
    /// deployment at most does.
    pub claim_default: bool,
}

} // verus!
