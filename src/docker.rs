//! Tunnels backed by a Docker container.
use vstd::prelude::*;

use crate::context::Context;
use crate::error::{Error, ErrorView};
use crate::session::{message_of, texts, Backend, Plan, Progress, Reply, Request, RequestView};
use crate::text::{decimal, decimal_text};
use crate::tunnel::{unit_plan, TunnelMeta, TunnelType};

verus! {

/// A read-only bind of a host path into a container.
#[derive(Debug, Clone)]
pub struct DockerMount {
    pub host_endpoint: String,
    pub container_endpoint: String,
}

impl View for DockerMount {
    type V = (Seq<char>, Seq<char>);

    open spec fn view(&self) -> (Seq<char>, Seq<char>) {
        (self.host_endpoint@, self.container_endpoint@)
    }
}

/// A tunnel run as a detached Docker container that publishes one port.
#[derive(Debug, Clone)]
pub struct DockerTunnel {
    pub meta: TunnelMeta,
    pub image_name: String,
    pub container_name: String,
    pub container_port: u16,
    pub listen_host: String,
    pub listen_port: u16,
}

/// The `--mount` argument for a bind of `host` (expanded) to `container`.
pub open spec fn mount_arg(ctx: &Context, host: Seq<char>, container: Seq<char>) -> Seq<char> {
    "type=bind,source="@ + ctx.expand_path(host) + ",destination="@ + container + ",readonly=true"@
}

/// `--mount` and its argument, for each mount in turn.
pub open spec fn mount_args(ctx: &Context, mounts: Seq<(Seq<char>, Seq<char>)>) -> Seq<Seq<char>> {
    Seq::new(
        2 * mounts.len(),
        |k: int|
            if k % 2 == 0 {
                "--mount"@
            } else {
                mount_arg(ctx, mounts[k / 2].0, mounts[k / 2].1)
            },
    )
}

impl DockerTunnel {
    pub open spec fn inspect_args(&self) -> Seq<Seq<char>> {
        seq!["inspect"@, "-f"@, "{{.State.Running}}"@, self.container_name@]
    }

    pub open spec fn stop_args(&self) -> Seq<Seq<char>> {
        seq!["stop"@, self.container_name@]
    }

    /// `listen_host:listen_port`, the address to resolve.
    pub open spec fn listen_address(&self) -> Seq<char> {
        self.listen_host@ + ":"@ + decimal(self.listen_port as nat)
    }

    /// The arguments of `docker run`, once the listen address resolved to `addr`.
    pub open spec fn run_args(
        &self,
        ctx: &Context,
        mounts: Seq<(Seq<char>, Seq<char>)>,
        addr: Seq<char>,
    ) -> Seq<Seq<char>> {
        seq![
            "run"@,
            "--detach"@,
            "--rm"@,
            "--name"@,
            self.container_name@,
            "--publish"@,
            addr + ":"@ + decimal(self.container_port as nat),
            "--device=/dev/net/tun"@,
            "--cap-add=NET_ADMIN"@,
        ] + mount_args(ctx, mounts) + seq![self.image_name@]
    }

    /// Resolve the listen address, then run the container with the mounts.
    pub open spec fn start_with_mounts_plan(
        &self,
        ctx: &Context,
        mounts: Seq<(Seq<char>, Seq<char>)>,
        rs: Seq<Reply>,
        at: int,
    ) -> Plan<()> {
        if at >= rs.len() {
            Plan::Ask { request: RequestView::Resolve { address: self.listen_address() } }
        } else {
            match rs[at] {
                Reply::Resolved { first: Some(addr) } => Backend::Docker.checked(
                    self.run_args(ctx, mounts, addr@),
                    rs,
                    at + 1,
                ),
                Reply::Resolved { first: None } => Plan::Finished {
                    result: Err(ErrorView::DomainNotFound { domain: self.listen_host@ }),
                    next: at + 1,
                },
                r => Plan::Finished {
                    result: Err(
                        ErrorView::ResolveSocketAddr {
                            address: self.listen_address(),
                            message: message_of(r),
                        },
                    ),
                    next: at + 1,
                },
            }
        }
    }

    pub open spec fn start_plan(&self, ctx: &Context, rs: Seq<Reply>, at: int) -> Plan<()> {
        self.start_with_mounts_plan(ctx, Seq::empty(), rs, at)
    }

    /// Stop the container only if it runs.
    pub open spec fn stop_plan(&self, rs: Seq<Reply>, at: int) -> Plan<()> {
        match self.running_plan(rs, at) {
            Plan::Finished { result: Ok(true), next } => Backend::Docker.checked(
                self.stop_args(),
                rs,
                next,
            ),
            p => unit_plan(p),
        }
    }

    /// Running means that `docker inspect` of the container exits with 0.
    pub open spec fn running_plan(&self, rs: Seq<Reply>, at: int) -> Plan<bool> {
        Backend::Docker.query(self.inspect_args(), rs, at)
    }

    fn listen_address_text(&self) -> (r: String)
        ensures
            r@ == self.listen_address(),
    {
        let mut r = self.listen_host.clone();
        r.append(":");
        r.append(decimal_text(self.listen_port as u64).as_str());
        r
    }

    /// The arguments of `docker run`.
    pub fn run_arguments(&self, context: &Context, mounts: &[DockerMount], addr: &str) -> (r: Vec<
        String,
    >)
        ensures
            texts(r@) == self.run_args(context, mounts@.map_values(|m: DockerMount| m@), addr@),
    {
        let ghost ms = mounts@.map_values(|m: DockerMount| m@);
        let mut publish = String::from_str(addr);
        publish.append(":");
        publish.append(decimal_text(self.container_port as u64).as_str());
        let mut args: Vec<String> = Vec::new();
        args.push(String::from_str("run"));
        args.push(String::from_str("--detach"));
        args.push(String::from_str("--rm"));
        args.push(String::from_str("--name"));
        args.push(self.container_name.clone());
        args.push(String::from_str("--publish"));
        args.push(publish);
        args.push(String::from_str("--device=/dev/net/tun"));
        args.push(String::from_str("--cap-add=NET_ADMIN"));
        let ghost head = texts(args@);
        let mut j: usize = 0;
        assert(texts(args@) =~= head + mount_args(context, ms.take(0)));
        while j < mounts.len()
            invariant
                j <= mounts@.len(),
                ms == mounts@.map_values(|m: DockerMount| m@),
                texts(args@) == head + mount_args(context, ms.take(j as int)),
            decreases mounts@.len() - j,
        {
            let mount = &mounts[j];
            let mut arg = String::from_str("type=bind,source=");
            arg.append(context.apply_path(mount.host_endpoint.as_str()).as_str());
            arg.append(",destination=");
            arg.append(mount.container_endpoint.as_str());
            arg.append(",readonly=true");
            let ghost before = args@;
            args.push(String::from_str("--mount"));
            args.push(arg);
            proof {
                assert(ms.take(j + 1) =~= ms.take(j as int).push(ms[j as int]));
                assert(texts(args@) =~= texts(before) + seq!["--mount"@, mount_arg(context, ms[j as int].0, ms[j as int].1)]);
                assert(mount_args(context, ms.take(j + 1)) =~= mount_args(context, ms.take(j as int))
                    + seq!["--mount"@, mount_arg(context, ms[j as int].0, ms[j as int].1)]);
            }
            j = j + 1;
        }
        let ghost before = args@;
        args.push(self.image_name.clone());
        proof {
            assert(ms.take(mounts@.len() as int) =~= ms);
            assert(texts(args@) =~= texts(before) + seq![self.image_name@]);
        }
        args
    }

    /// Starts the container with `mounts` bound into it read-only.
    pub fn start_with_mounts(
        &self,
        context: &Context,
        mounts: &[DockerMount],
        replies: &[Reply],
        at: usize,
    ) -> (r: Progress<()>)
        ensures
            r@ == self.start_with_mounts_plan(
                context,
                mounts@.map_values(|m: DockerMount| m@),
                replies@,
                at as int,
            ),
    {
        if at >= replies.len() {
            return Progress::Ask { request: Request::Resolve { address: self.listen_address_text() } };
        }
        match &replies[at] {
            Reply::Resolved { first: Some(addr) } => {
                let args = self.run_arguments(context, mounts, addr.as_str());
                Backend::Docker.run_checked(args, replies, at + 1)
            },
            Reply::Resolved { first: None } => Progress::Finished {
                result: Err(Error::DomainNotFound { domain: self.listen_host.clone() }),
                next: at + 1,
            },
            r => {
                let message = match r {
                    Reply::Failed { message } => message.clone(),
                    Reply::WaitFailed { message } => message.clone(),
                    _ => String::new(),
                };
                Progress::Finished {
                    result: Err(
                        Error::ResolveSocketAddr { address: self.listen_address_text(), message },
                    ),
                    next: at + 1,
                }
            },
        }
    }

    pub fn meta(&self) -> (r: &TunnelMeta)
        ensures
            *r == self.meta,
    {
        &self.meta
    }

    pub fn tunnel_type(&self) -> (r: TunnelType)
        ensures
            r == TunnelType::Docker,
    {
        TunnelType::Docker
    }

    pub fn start(&self, context: &Context, replies: &[Reply], at: usize) -> (r: Progress<()>)
        ensures
            r@ == self.start_plan(context, replies@, at as int),
    {
        let none: Vec<DockerMount> = Vec::new();
        assert(none@.map_values(|m: DockerMount| m@) =~= Seq::empty());
        self.start_with_mounts(context, none.as_slice(), replies, at)
    }

    pub fn stop(&self, replies: &[Reply], at: usize) -> (r: Progress<()>)
        ensures
            r@ == self.stop_plan(replies@, at as int),
    {
        match self.is_running(replies, at) {
            Progress::Ask { request } => Progress::Ask { request },
            Progress::Finished { result: Err(e), next } => Progress::Finished {
                result: Err(e),
                next,
            },
            Progress::Finished { result: Ok(false), next } => Progress::Finished {
                result: Ok(()),
                next,
            },
            Progress::Finished { result: Ok(true), next } => {
                let mut args: Vec<String> = Vec::new();
                args.push(String::from_str("stop"));
                args.push(self.container_name.clone());
                assert(texts(args@) =~= self.stop_args());
                Backend::Docker.run_checked(args, replies, next)
            },
        }
    }

    pub fn is_running(&self, replies: &[Reply], at: usize) -> (r: Progress<bool>)
        ensures
            r@ == self.running_plan(replies@, at as int),
    {
        let mut args: Vec<String> = Vec::new();
        args.push(String::from_str("inspect"));
        args.push(String::from_str("-f"));
        args.push(String::from_str("{{.State.Running}}"));
        args.push(self.container_name.clone());
        assert(texts(args@) =~= self.inspect_args());
        Backend::Docker.run_query(args, replies, at)
    }
}

} // verus!
