//! Tunnels backed by a background SSH connection with dynamic forwarding,
//! addressed through its control socket.
use vstd::prelude::*;

use crate::context::Context;
use crate::session::{texts, Backend, Plan, Progress, Reply};
use crate::text::{decimal, decimal_text};
use crate::tunnel::{unit_plan, TunnelMeta, TunnelType};

verus! {

/// A SOCKS proxy on `listen_host:listen_port`, forwarded through an SSH
/// connection to `user_name@remote_host:remote_port`.
#[derive(Debug, Clone)]
pub struct SshTunnel {
    pub meta: TunnelMeta,
    pub remote_host: String,
    pub remote_port: u16,
    pub user_name: String,
    pub identify_file: String,
    pub listen_host: String,
    pub listen_port: u16,
}

impl SshTunnel {
    /// `{name}_{user_name}@{remote_host}:{remote_port}.socket`
    pub open spec fn socket_name(&self) -> Seq<char> {
        self.meta.name@ + "_"@ + self.user_name@ + "@"@ + self.remote_host@ + ":"@ + decimal(
            self.remote_port as nat,
        ) + ".socket"@
    }

    /// The socket file in the expanded control-path directory.
    pub open spec fn control_path_spec(&self, ctx: &Context) -> Seq<char> {
        ctx.expand_path(ctx.directory()) + "/"@ + self.socket_name()
    }

    pub open spec fn control_path_option_spec(&self, ctx: &Context) -> Seq<char> {
        "ControlPath="@ + self.control_path_spec(ctx)
    }

    pub open spec fn check_args(&self, ctx: &Context) -> Seq<Seq<char>> {
        seq!["-O"@, "check"@, "-o"@, self.control_path_option_spec(ctx), self.remote_host@]
    }

    pub open spec fn exit_args(&self, ctx: &Context) -> Seq<Seq<char>> {
        seq!["-O"@, "exit"@, "-o"@, self.control_path_option_spec(ctx), self.remote_host@]
    }

    pub open spec fn start_args(&self, ctx: &Context) -> Seq<Seq<char>> {
        seq![
            "-o"@,
            self.control_path_option_spec(ctx),
            "-o"@,
            "ControlMaster=auto"@,
            "-f"@,
            "-N"@,
            "-D"@,
            self.listen_host@ + ":"@ + decimal(self.listen_port as nat),
            "-i"@,
            ctx.expand_path(self.identify_file@),
            "-l"@,
            self.user_name@,
            "-p"@,
            decimal(self.remote_port as nat),
            self.remote_host@,
        ]
    }

    /// Running means that `ssh -O check` on the control socket exits with 0.
    pub open spec fn running_plan(&self, ctx: &Context, rs: Seq<Reply>, at: int) -> Plan<bool> {
        Backend::Ssh.query(self.check_args(ctx), rs, at)
    }

    /// Nothing to do when running; else open the connection in the
    /// background, whatever its exit code.
    pub open spec fn start_plan(&self, ctx: &Context, rs: Seq<Reply>, at: int) -> Plan<()> {
        match self.running_plan(ctx, rs, at) {
            Plan::Finished { result: Ok(false), next } => Backend::Ssh.unchecked(
                self.start_args(ctx),
                rs,
                next,
            ),
            p => unit_plan(p),
        }
    }

    /// `ssh -O exit` on the control socket, whatever its exit code.
    pub open spec fn stop_plan(&self, ctx: &Context, rs: Seq<Reply>, at: int) -> Plan<()> {
        Backend::Ssh.unchecked(self.exit_args(ctx), rs, at)
    }

    /// Stop, whatever came of it, then start.
    pub open spec fn restart_plan(&self, ctx: &Context, rs: Seq<Reply>, at: int) -> Plan<()> {
        match self.stop_plan(ctx, rs, at) {
            Plan::Finished { result: _, next } => self.start_plan(ctx, rs, next),
            p => p,
        }
    }

    /// The path of the control socket.
    pub fn control_path(&self, context: &Context) -> (r: String)
        ensures
            r@ == self.control_path_spec(context),
    {
        let mut r = context.control_path_directory();
        r.append("/");
        r.append(self.meta.name.as_str());
        r.append("_");
        r.append(self.user_name.as_str());
        r.append("@");
        r.append(self.remote_host.as_str());
        r.append(":");
        r.append(decimal_text(self.remote_port as u64).as_str());
        r.append(".socket");
        r
    }

    /// The `ControlPath=` option for `ssh -o`.
    pub fn control_path_option(&self, context: &Context) -> (r: String)
        ensures
            r@ == self.control_path_option_spec(context),
    {
        let mut r = String::from_str("ControlPath=");
        r.append(self.control_path(context).as_str());
        r
    }

    fn control_args(&self, context: &Context, command: &str) -> (r: Vec<String>)
        ensures
            texts(r@) == seq![
                "-O"@,
                command@,
                "-o"@,
                self.control_path_option_spec(context),
                self.remote_host@,
            ],
    {
        let mut args: Vec<String> = Vec::new();
        args.push(String::from_str("-O"));
        args.push(String::from_str(command));
        args.push(String::from_str("-o"));
        args.push(self.control_path_option(context));
        args.push(self.remote_host.clone());
        assert(texts(args@) =~= seq![
            "-O"@,
            command@,
            "-o"@,
            self.control_path_option_spec(context),
            self.remote_host@,
        ]);
        args
    }

    fn start_arguments(&self, context: &Context) -> (r: Vec<String>)
        ensures
            texts(r@) == self.start_args(context),
    {
        let mut listen = self.listen_host.clone();
        listen.append(":");
        listen.append(decimal_text(self.listen_port as u64).as_str());
        let mut args: Vec<String> = Vec::new();
        args.push(String::from_str("-o"));
        args.push(self.control_path_option(context));
        args.push(String::from_str("-o"));
        args.push(String::from_str("ControlMaster=auto"));
        args.push(String::from_str("-f"));
        args.push(String::from_str("-N"));
        args.push(String::from_str("-D"));
        args.push(listen);
        args.push(String::from_str("-i"));
        args.push(context.apply_path(self.identify_file.as_str()));
        args.push(String::from_str("-l"));
        args.push(self.user_name.clone());
        args.push(String::from_str("-p"));
        args.push(decimal_text(self.remote_port as u64));
        args.push(self.remote_host.clone());
        assert(texts(args@) =~= self.start_args(context));
        args
    }

    pub fn meta(&self) -> (r: &TunnelMeta)
        ensures
            *r == self.meta,
    {
        &self.meta
    }

    pub fn tunnel_type(&self) -> (r: TunnelType)
        ensures
            r == TunnelType::Ssh,
    {
        TunnelType::Ssh
    }

    pub fn is_running(&self, context: &Context, replies: &[Reply], at: usize) -> (r: Progress<bool>)
        ensures
            r@ == self.running_plan(context, replies@, at as int),
    {
        let args = self.control_args(context, "check");
        Backend::Ssh.run_query(args, replies, at)
    }

    pub fn start(&self, context: &Context, replies: &[Reply], at: usize) -> (r: Progress<()>)
        ensures
            r@ == self.start_plan(context, replies@, at as int),
    {
        match self.is_running(context, replies, at) {
            Progress::Ask { request } => Progress::Ask { request },
            Progress::Finished { result: Err(e), next } => Progress::Finished {
                result: Err(e),
                next,
            },
            Progress::Finished { result: Ok(true), next } => Progress::Finished {
                result: Ok(()),
                next,
            },
            Progress::Finished { result: Ok(false), next } => {
                let args = self.start_arguments(context);
                Backend::Ssh.run_unchecked(args, replies, next)
            },
        }
    }

    pub fn stop(&self, context: &Context, replies: &[Reply], at: usize) -> (r: Progress<()>)
        ensures
            r@ == self.stop_plan(context, replies@, at as int),
    {
        let args = self.control_args(context, "exit");
        Backend::Ssh.run_unchecked(args, replies, at)
    }

    pub fn restart(&self, context: &Context, replies: &[Reply], at: usize) -> (r: Progress<()>)
        ensures
            r@ == self.restart_plan(context, replies@, at as int),
    {
        match self.stop(context, replies, at) {
            Progress::Finished { result: _, next } => self.start(context, replies, next),
            p => p,
        }
    }
}

} // verus!
