use tunka::context::{Context, ContextBuilder};
use tunka::docker::{DockerMount, DockerTunnel};
use tunka::docker_openvpn::DockerOpenVPNTunnel;
use tunka::error::Error;
use tunka::session::{convert_output, CommandLine, Progress, Reply, Request};
use tunka::ssh::SshTunnel;
use tunka::tunnel::{Tunnel, TunnelMeta, TunnelType};

fn context() -> Context {
    ContextBuilder::new()
        .control_path_directory("/tmp/app")
        .build(Some("bob".to_owned()), Some("/home/bob".to_owned()))
        .unwrap()
}

fn meta(name: &str) -> TunnelMeta {
    TunnelMeta { name: name.to_owned(), description: None }
}

fn ssh(name: &str) -> SshTunnel {
    SshTunnel {
        meta: meta(name),
        remote_host: "example.com".to_owned(),
        remote_port: 22,
        user_name: "bob".to_owned(),
        identify_file: "$HOME/.ssh/id".to_owned(),
        listen_host: "127.0.0.1".to_owned(),
        listen_port: 1080,
    }
}

fn docker(name: &str) -> DockerTunnel {
    DockerTunnel {
        meta: meta(name),
        image_name: "proxy-image".to_owned(),
        container_name: format!("{name}-container"),
        container_port: 8118,
        listen_host: "127.0.0.1".to_owned(),
        listen_port: 3128,
    }
}

fn openvpn(name: &str, auth: bool) -> DockerOpenVPNTunnel {
    DockerOpenVPNTunnel {
        docker_tunnel: docker(name),
        config_file: "$HOME/vpn/client.ovpn".to_owned(),
        auth_file: if auth { Some("$HOME/vpn/auth.txt".to_owned()) } else { None },
    }
}

fn run(program: &str, args: &[&str]) -> Request {
    Request::Run {
        command: CommandLine {
            program: program.to_owned(),
            args: args.iter().map(|a| a.to_string()).collect(),
        },
    }
}

fn exited(code: i32) -> Reply {
    Reply::Exited { code: Some(code) }
}

fn asked<T: std::fmt::Debug>(p: Progress<T>) -> Request {
    match p {
        Progress::Ask { request } => request,
        other => panic!("expected a request, got {other:?}"),
    }
}

fn finished<T: std::fmt::Debug>(p: Progress<T>) -> (Result<T, Error>, usize) {
    match p {
        Progress::Finished { result, next } => (result, next),
        other => panic!("expected an end, got {other:?}"),
    }
}

const CONTROL: &str = "ControlPath=/tmp/app/proxy_bob@example.com:22.socket";

#[test]
fn ssh_control_path() {
    let t = ssh("proxy");
    assert_eq!(t.control_path(&context()), "/tmp/app/proxy_bob@example.com:22.socket");
    assert_eq!(t.control_path_option(&context()), CONTROL);
}

#[test]
fn ssh_is_running_checks_control_socket() {
    let t = ssh("proxy");
    let ctx = context();
    assert_eq!(
        asked(t.is_running(&ctx, &[], 0)),
        run("ssh", &["-O", "check", "-o", CONTROL, "example.com"])
    );
    assert_eq!(finished(t.is_running(&ctx, &[exited(0)], 0)), (Ok(true), 1));
    assert_eq!(finished(t.is_running(&ctx, &[exited(255)], 0)), (Ok(false), 1));
    assert_eq!(finished(t.is_running(&ctx, &[Reply::Exited { code: None }], 0)), (Ok(false), 1));
}

#[test]
fn never_started_tunnels_are_not_running() {
    let ctx = context();
    let all = [Tunnel::Ssh(ssh("a")), Tunnel::Docker(docker("b")), Tunnel::DockerOpenVPN(openvpn("c", true))];
    for t in &all {
        assert_eq!(finished(t.is_running(&ctx, &[exited(1)], 0)), (Ok(false), 1));
    }
}

#[test]
fn ssh_start_opens_connection_when_not_running() {
    let t = ssh("proxy");
    let ctx = context();
    let replies = [exited(255)];
    assert_eq!(
        asked(t.start(&ctx, &replies, 0)),
        run(
            "ssh",
            &[
                "-o", CONTROL, "-o", "ControlMaster=auto", "-f", "-N", "-D", "127.0.0.1:1080", "-i",
                "/home/bob/.ssh/id", "-l", "bob", "-p", "22", "example.com",
            ]
        )
    );
    assert_eq!(finished(t.start(&ctx, &[exited(255), exited(1)], 0)), (Ok(()), 2));
}

#[test]
fn ssh_start_does_nothing_when_running() {
    let t = ssh("proxy");
    assert_eq!(finished(t.start(&context(), &[exited(0)], 0)), (Ok(()), 1));
}

#[test]
fn ssh_stop_ignores_exit_code() {
    let t = ssh("proxy");
    let ctx = context();
    assert_eq!(asked(t.stop(&ctx, &[], 0)), run("ssh", &["-O", "exit", "-o", CONTROL, "example.com"]));
    assert_eq!(finished(t.stop(&ctx, &[exited(255)], 0)), (Ok(()), 1));
    assert_eq!(finished(t.stop(&ctx, &[exited(255), exited(255)], 1)), (Ok(()), 2));
}

#[test]
fn ssh_spawn_and_wait_failures() {
    let t = ssh("proxy");
    let ctx = context();
    let spawn = Reply::Failed { message: "no ssh".to_owned() };
    let wait = Reply::WaitFailed { message: "interrupted".to_owned() };
    assert_eq!(
        finished(t.stop(&ctx, &[spawn], 0)),
        (Err(Error::SpawnSshCommand { message: "no ssh".to_owned() }), 1)
    );
    assert_eq!(
        finished(t.is_running(&ctx, &[wait], 0)),
        (Err(Error::WaitForSshProcess { message: "interrupted".to_owned() }), 1)
    );
}

#[test]
fn ssh_restart_when_never_started_succeeds() {
    let t = Tunnel::Ssh(ssh("proxy"));
    let ctx = context();
    let replies = [exited(255), exited(255), exited(0)];
    assert_eq!(finished(t.restart(&ctx, &replies, 0)), (Ok(()), 3));
    let replies = [Reply::Failed { message: "no ssh".to_owned() }, exited(255), exited(0)];
    assert_eq!(finished(t.restart(&ctx, &replies, 0)), (Ok(()), 3));
}

#[test]
fn stop_twice_succeeds() {
    let ctx = context();
    let all = [Tunnel::Ssh(ssh("a")), Tunnel::Docker(docker("b")), Tunnel::DockerOpenVPN(openvpn("c", false))];
    for t in &all {
        assert_eq!(finished(t.stop(&ctx, &[exited(1)], 0)), (Ok(()), 1));
    }
    let d = Tunnel::Docker(docker("b"));
    let first = [exited(0), exited(0)];
    assert_eq!(finished(d.stop(&ctx, &first, 0)), (Ok(()), 2));
    let both = [exited(0), exited(0), exited(1)];
    assert_eq!(finished(d.stop(&ctx, &both, 2)), (Ok(()), 3));
}

#[test]
fn docker_is_running_inspects_container() {
    let t = docker("web");
    assert_eq!(
        asked(t.is_running(&[], 0)),
        run("docker", &["inspect", "-f", "{{.State.Running}}", "web-container"])
    );
    assert_eq!(finished(t.is_running(&[exited(0)], 0)), (Ok(true), 1));
}

#[test]
fn docker_stop_only_when_running() {
    let t = docker("web");
    assert_eq!(asked(t.stop(&[exited(0)], 0)), run("docker", &["stop", "web-container"]));
    assert_eq!(finished(t.stop(&[exited(1)], 0)), (Ok(()), 1));
    assert_eq!(
        finished(t.stop(&[exited(0), exited(137)], 0)),
        (Err(Error::ExternalCommand { code: 137 }), 2)
    );
}

#[test]
fn docker_start_resolves_then_runs() {
    let t = docker("web");
    let ctx = context();
    assert_eq!(asked(t.start(&ctx, &[], 0)), Request::Resolve { address: "127.0.0.1:3128".to_owned() });
    let resolved = Reply::Resolved { first: Some("127.0.0.1:3128".to_owned()) };
    assert_eq!(
        asked(t.start(&ctx, &[resolved.clone()], 0)),
        run(
            "docker",
            &[
                "run", "--detach", "--rm", "--name", "web-container", "--publish", "127.0.0.1:3128:8118",
                "--device=/dev/net/tun", "--cap-add=NET_ADMIN", "proxy-image",
            ]
        )
    );
    assert_eq!(finished(t.start(&ctx, &[resolved.clone(), exited(0)], 0)), (Ok(()), 2));
    assert_eq!(finished(t.start(&ctx, &[resolved.clone(), Reply::Exited { code: None }], 0)), (Ok(()), 2));
    assert_eq!(
        finished(t.start(&ctx, &[resolved, exited(125)], 0)),
        (Err(Error::ExternalCommand { code: 125 }), 2)
    );
}

#[test]
fn docker_start_resolution_failures() {
    let t = docker("web");
    let ctx = context();
    assert_eq!(
        finished(t.start(&ctx, &[Reply::Resolved { first: None }], 0)),
        (Err(Error::DomainNotFound { domain: "127.0.0.1".to_owned() }), 1)
    );
    assert_eq!(
        finished(t.start(&ctx, &[Reply::Failed { message: "lookup failed".to_owned() }], 0)),
        (
            Err(Error::ResolveSocketAddr {
                address: "127.0.0.1:3128".to_owned(),
                message: "lookup failed".to_owned()
            }),
            1
        )
    );
}

#[test]
fn docker_spawn_failure() {
    let t = docker("web");
    assert_eq!(
        finished(t.is_running(&[Reply::Failed { message: "no docker".to_owned() }], 0)),
        (Err(Error::SpawnDockerCommand { message: "no docker".to_owned() }), 1)
    );
    assert_eq!(
        finished(t.is_running(&[Reply::WaitFailed { message: "lost".to_owned() }], 0)),
        (Err(Error::WaitForDockerProcess { message: "lost".to_owned() }), 1)
    );
}

#[test]
fn docker_start_with_mounts_binds_read_only() {
    let t = docker("web");
    let ctx = context();
    let mounts = [DockerMount { host_endpoint: "$HOME/data".to_owned(), container_endpoint: "/data".to_owned() }];
    let resolved = [Reply::Resolved { first: Some("127.0.0.1:3128".to_owned()) }];
    assert_eq!(
        asked(t.start_with_mounts(&ctx, &mounts, &resolved, 0)),
        run(
            "docker",
            &[
                "run", "--detach", "--rm", "--name", "web-container", "--publish", "127.0.0.1:3128:8118",
                "--device=/dev/net/tun", "--cap-add=NET_ADMIN", "--mount",
                "type=bind,source=/home/bob/data,destination=/data,readonly=true", "proxy-image",
            ]
        )
    );
}

#[test]
fn openvpn_start_mounts_config_and_auth() {
    let ctx = context();
    let resolved = [Reply::Resolved { first: Some("127.0.0.1:3128".to_owned()) }];
    let with_auth = openvpn("vpn", true);
    assert_eq!(
        asked(with_auth.start(&ctx, &resolved, 0)),
        run(
            "docker",
            &[
                "run", "--detach", "--rm", "--name", "vpn-container", "--publish", "127.0.0.1:3128:8118",
                "--device=/dev/net/tun", "--cap-add=NET_ADMIN", "--mount",
                "type=bind,source=/home/bob/vpn/client.ovpn,destination=/config.ovpn,readonly=true", "--mount",
                "type=bind,source=/home/bob/vpn/auth.txt,destination=/auth.txt,readonly=true", "proxy-image",
            ]
        )
    );
    let without = openvpn("vpn", false);
    assert_eq!(
        asked(without.start(&ctx, &resolved, 0)),
        run(
            "docker",
            &[
                "run", "--detach", "--rm", "--name", "vpn-container", "--publish", "127.0.0.1:3128:8118",
                "--device=/dev/net/tun", "--cap-add=NET_ADMIN", "--mount",
                "type=bind,source=/home/bob/vpn/client.ovpn,destination=/config.ovpn,readonly=true",
                "proxy-image",
            ]
        )
    );
}

#[test]
fn docker_restart_stops_before_starting() {
    let t = Tunnel::Docker(docker("web"));
    let ctx = context();
    let replies = [exited(0), exited(0)];
    assert_eq!(asked(t.restart(&ctx, &replies, 0)), Request::Resolve { address: "127.0.0.1:3128".to_owned() });
    let failing = [exited(0), exited(1)];
    assert_eq!(finished(t.restart(&ctx, &failing, 0)), (Err(Error::ExternalCommand { code: 1 }), 2));
}

#[test]
fn exit_codes_of_checked_commands() {
    assert_eq!(convert_output(Some(137)), Err(Error::ExternalCommand { code: 137 }));
    assert_eq!(convert_output(Some(0)), Ok(()));
    assert_eq!(convert_output(None), Ok(()));
    assert_eq!(convert_output(Some(-1)), Err(Error::ExternalCommand { code: -1 }));
}

#[test]
fn tunnel_identity() {
    let t = Tunnel::DockerOpenVPN(openvpn("vpn", false));
    assert_eq!(t.name(), "vpn");
    assert_eq!(t.tunnel_type(), TunnelType::DockerOpenVPN);
    assert_eq!(t.meta(), &meta("vpn"));
    assert_eq!(Tunnel::Ssh(ssh("s")).tunnel_type().label(), "SSH tunnel");
    assert_eq!(TunnelType::Docker.label(), "Docker Tunnel");
    assert_eq!(TunnelType::DockerOpenVPN.label(), "Docker OpenVPN Tunnel");
}
