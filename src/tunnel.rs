//! The tunnel contract: identity, kind, and the start / stop / restart /
//! status operations, over the three kinds of tunnel.
use vstd::prelude::*;

use crate::context::Context;
use crate::docker::DockerTunnel;
use crate::docker_openvpn::DockerOpenVPNTunnel;
use crate::session::{Plan, Progress, Reply};
use crate::ssh::SshTunnel;

verus! {

/// The name and description of a tunnel.
#[derive(Debug, Clone, PartialEq, Eq, Hash)]
pub struct TunnelMeta {
    pub name: String,
    pub description: Option<String>,
}

impl TunnelMeta {
    /// A copy of the metadata.
    pub fn copied(&self) -> (r: Self)
        ensures
            r == *self,
    {
        let description = match &self.description {
            Some(d) => Some(d.clone()),
            None => None,
        };
        TunnelMeta { name: self.name.clone(), description }
    }
}

/// The kind of a tunnel, for display.
#[derive(Debug, Clone, Copy, PartialEq, Eq, Hash, Structural)]
pub enum TunnelType {
    Ssh,
    Docker,
    DockerOpenVPN,
}

impl TunnelType {
    pub open spec fn label_text(self) -> Seq<char> {
        match self {
            TunnelType::Ssh => "SSH tunnel"@,
            TunnelType::Docker => "Docker Tunnel"@,
            TunnelType::DockerOpenVPN => "Docker OpenVPN Tunnel"@,
        }
    }

    /// The human-readable name of the kind.
    pub fn label(&self) -> (r: &'static str)
        ensures
            r@ == self.label_text(),
    {
        match self {
            TunnelType::Ssh => "SSH tunnel",
            TunnelType::Docker => "Docker Tunnel",
            TunnelType::DockerOpenVPN => "Docker OpenVPN Tunnel",
        }
    }
}

/// A configured tunnel, of one of the three kinds.
#[derive(Debug, Clone)]
pub enum Tunnel {
    Ssh(SshTunnel),
    Docker(DockerTunnel),
    DockerOpenVPN(DockerOpenVPNTunnel),
}

/// `p` with the value of a finished success dropped.
pub open spec fn unit_plan(p: Plan<bool>) -> Plan<()> {
    match p {
        Plan::Ask { request } => Plan::Ask { request },
        Plan::Finished { result, next } => Plan::Finished {
            result: match result {
                Ok(_) => Ok(()),
                Err(e) => Err(e),
            },
            next,
        },
    }
}

/// Runs `second` from where `first` ended, if `first` succeeded.
pub open spec fn and_then(first: Plan<()>, second: spec_fn(int) -> Plan<()>) -> Plan<()> {
    match first {
        Plan::Finished { result: Ok(_), next } => second(next),
        _ => first,
    }
}

impl Tunnel {
    pub open spec fn meta_spec(&self) -> TunnelMeta {
        match self {
            Tunnel::Ssh(t) => t.meta,
            Tunnel::Docker(t) => t.meta,
            Tunnel::DockerOpenVPN(t) => t.docker_tunnel.meta,
        }
    }

    pub open spec fn name_spec(&self) -> Seq<char> {
        self.meta_spec().name@
    }

    pub fn meta(&self) -> (r: &TunnelMeta)
        ensures
            *r == self.meta_spec(),
    {
        match self {
            Tunnel::Ssh(t) => t.meta(),
            Tunnel::Docker(t) => t.meta(),
            Tunnel::DockerOpenVPN(t) => t.meta(),
        }
    }

    pub fn name(&self) -> (r: &str)
        ensures
            r@ == self.name_spec(),
    {
        self.meta().name.as_str()
    }

    pub open spec fn kind(&self) -> TunnelType {
        match self {
            Tunnel::Ssh(_) => TunnelType::Ssh,
            Tunnel::Docker(_) => TunnelType::Docker,
            Tunnel::DockerOpenVPN(_) => TunnelType::DockerOpenVPN,
        }
    }

    pub fn tunnel_type(&self) -> (r: TunnelType)
        ensures
            r == self.kind(),
    {
        match self {
            Tunnel::Ssh(t) => t.tunnel_type(),
            Tunnel::Docker(t) => t.tunnel_type(),
            Tunnel::DockerOpenVPN(t) => t.tunnel_type(),
        }
    }

    pub open spec fn start_plan(&self, ctx: &Context, rs: Seq<Reply>, at: int) -> Plan<()> {
        match self {
            Tunnel::Ssh(t) => t.start_plan(ctx, rs, at),
            Tunnel::Docker(t) => t.start_plan(ctx, rs, at),
            Tunnel::DockerOpenVPN(t) => t.start_plan(ctx, rs, at),
        }
    }

    pub open spec fn stop_plan(&self, ctx: &Context, rs: Seq<Reply>, at: int) -> Plan<()> {
        match self {
            Tunnel::Ssh(t) => t.stop_plan(ctx, rs, at),
            Tunnel::Docker(t) => t.stop_plan(rs, at),
            Tunnel::DockerOpenVPN(t) => t.stop_plan(rs, at),
        }
    }

    pub open spec fn running_plan(&self, ctx: &Context, rs: Seq<Reply>, at: int) -> Plan<bool> {
        match self {
            Tunnel::Ssh(t) => t.running_plan(ctx, rs, at),
            Tunnel::Docker(t) => t.running_plan(rs, at),
            Tunnel::DockerOpenVPN(t) => t.running_plan(rs, at),
        }
    }

    /// SSH tunnels stop on a best-effort basis and then start; the others
    /// start only once they stopped.
    pub open spec fn restart_plan(&self, ctx: &Context, rs: Seq<Reply>, at: int) -> Plan<()> {
        match self {
            Tunnel::Ssh(t) => t.restart_plan(ctx, rs, at),
            _ => and_then(self.stop_plan(ctx, rs, at), |n: int| self.start_plan(ctx, rs, n)),
        }
    }

    pub fn start(&self, context: &Context, replies: &[Reply], at: usize) -> (r: Progress<()>)
        ensures
            r@ == self.start_plan(context, replies@, at as int),
    {
        match self {
            Tunnel::Ssh(t) => t.start(context, replies, at),
            Tunnel::Docker(t) => t.start(context, replies, at),
            Tunnel::DockerOpenVPN(t) => t.start(context, replies, at),
        }
    }

    pub fn stop(&self, context: &Context, replies: &[Reply], at: usize) -> (r: Progress<()>)
        ensures
            r@ == self.stop_plan(context, replies@, at as int),
    {
        match self {
            Tunnel::Ssh(t) => t.stop(context, replies, at),
            Tunnel::Docker(t) => t.stop(replies, at),
            Tunnel::DockerOpenVPN(t) => t.stop(replies, at),
        }
    }

    pub fn is_running(&self, context: &Context, replies: &[Reply], at: usize) -> (r: Progress<bool>)
        ensures
            r@ == self.running_plan(context, replies@, at as int),
    {
        match self {
            Tunnel::Ssh(t) => t.is_running(context, replies, at),
            Tunnel::Docker(t) => t.is_running(replies, at),
            Tunnel::DockerOpenVPN(t) => t.is_running(replies, at),
        }
    }

    pub fn restart(&self, context: &Context, replies: &[Reply], at: usize) -> (r: Progress<()>)
        ensures
            r@ == self.restart_plan(context, replies@, at as int),
    {
        match self {
            Tunnel::Ssh(t) => t.restart(context, replies, at),
            _ => match self.stop(context, replies, at) {
                Progress::Finished { result: Ok(_), next } => self.start(context, replies, next),
                other => other,
            },
        }
    }
}

} // verus!
