//! Docker tunnels that run OpenVPN with a mounted configuration.
use vstd::prelude::*;

use crate::context::Context;
use crate::docker::{DockerMount, DockerTunnel};
use crate::session::{Plan, Progress, Reply};
use crate::tunnel::{TunnelMeta, TunnelType};

verus! {

/// A Docker tunnel whose container gets the OpenVPN configuration file, and
/// the credentials file if there is one, mounted read-only.
#[derive(Debug, Clone)]
pub struct DockerOpenVPNTunnel {
    pub docker_tunnel: DockerTunnel,
    pub config_file: String,
    pub auth_file: Option<String>,
}

impl DockerOpenVPNTunnel {
    /// The configuration file at `/config.ovpn`, then the credentials file,
    /// if any, at `/auth.txt`.
    pub open spec fn mounts(&self) -> Seq<(Seq<char>, Seq<char>)> {
        seq![(self.config_file@, "/config.ovpn"@)] + match self.auth_file {
            Some(auth) => seq![(auth@, "/auth.txt"@)],
            None => Seq::empty(),
        }
    }

    pub open spec fn start_plan(&self, ctx: &Context, rs: Seq<Reply>, at: int) -> Plan<()> {
        self.docker_tunnel.start_with_mounts_plan(ctx, self.mounts(), rs, at)
    }

    pub open spec fn stop_plan(&self, rs: Seq<Reply>, at: int) -> Plan<()> {
        self.docker_tunnel.stop_plan(rs, at)
    }

    pub open spec fn running_plan(&self, rs: Seq<Reply>, at: int) -> Plan<bool> {
        self.docker_tunnel.running_plan(rs, at)
    }

    pub fn meta(&self) -> (r: &TunnelMeta)
        ensures
            *r == self.docker_tunnel.meta,
    {
        self.docker_tunnel.meta()
    }

    pub fn tunnel_type(&self) -> (r: TunnelType)
        ensures
            r == TunnelType::DockerOpenVPN,
    {
        TunnelType::DockerOpenVPN
    }

    pub fn start(&self, context: &Context, replies: &[Reply], at: usize) -> (r: Progress<()>)
        ensures
            r@ == self.start_plan(context, replies@, at as int),
    {
        let mut mounts: Vec<DockerMount> = Vec::new();
        mounts.push(
            DockerMount {
                host_endpoint: self.config_file.clone(),
                container_endpoint: String::from_str("/config.ovpn"),
            },
        );
        if let Some(auth_file) = &self.auth_file {
            mounts.push(
                DockerMount {
                    host_endpoint: auth_file.clone(),
                    container_endpoint: String::from_str("/auth.txt"),
                },
            );
        }
        assert(mounts@.map_values(|m: DockerMount| m@) =~= self.mounts());
        self.docker_tunnel.start_with_mounts(context, mounts.as_slice(), replies, at)
    }

    pub fn stop(&self, replies: &[Reply], at: usize) -> (r: Progress<()>)
        ensures
            r@ == self.stop_plan(replies@, at as int),
    {
        self.docker_tunnel.stop(replies, at)
    }

    pub fn is_running(&self, replies: &[Reply], at: usize) -> (r: Progress<bool>)
        ensures
            r@ == self.running_plan(replies@, at as int),
    {
        self.docker_tunnel.is_running(replies, at)
    }
}

} // verus!
