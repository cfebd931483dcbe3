use tunka::config::Config;
use tunka::context::{Context, ContextBuilder};
use tunka::docker::DockerTunnel;
use tunka::error::Error;
use tunka::manager::{Operation, TunnelManager};
use tunka::session::{Progress, Reply, Request};
use tunka::ssh::SshTunnel;
use tunka::tunnel::{Tunnel, TunnelMeta};

fn context() -> Context {
    ContextBuilder::new()
        .control_path_directory("/tmp/app")
        .build(Some("bob".to_owned()), Some("/home/bob".to_owned()))
        .unwrap()
}

fn docker(name: &str, description: Option<&str>) -> Tunnel {
    Tunnel::Docker(DockerTunnel {
        meta: TunnelMeta { name: name.to_owned(), description: description.map(|d| d.to_owned()) },
        image_name: "proxy-image".to_owned(),
        container_name: name.to_owned(),
        container_port: 8118,
        listen_host: "127.0.0.1".to_owned(),
        listen_port: 3128,
    })
}

fn ssh(name: &str) -> Tunnel {
    Tunnel::Ssh(SshTunnel {
        meta: TunnelMeta { name: name.to_owned(), description: None },
        remote_host: "example.com".to_owned(),
        remote_port: 22,
        user_name: "bob".to_owned(),
        identify_file: "/tmp/id".to_owned(),
        listen_host: "127.0.0.1".to_owned(),
        listen_port: 1080,
    })
}

fn manager(tunnels: Vec<Tunnel>) -> TunnelManager {
    Config::new("/tmp/app".to_owned(), tunnels).into_manager()
}

/// Runs an operation to its end against a simulated backend, recording the
/// requests it made.
fn drive(
    step: impl Fn(&[Reply]) -> Progress<()>,
    mut backend: impl FnMut(&Request) -> Reply,
) -> (Result<(), Error>, Vec<Request>) {
    let mut replies = Vec::new();
    let mut requests = Vec::new();
    loop {
        match step(&replies) {
            Progress::Ask { request } => {
                replies.push(backend(&request));
                requests.push(request);
            }
            Progress::Finished { result, next } => {
                assert_eq!(next, replies.len());
                return (result, requests);
            }
        }
    }
}

/// A Docker backend on which no container runs, and on which `docker run`
/// of the container called `failing` exits with 125.
fn backend(failing: &'static str) -> impl FnMut(&Request) -> Reply {
    move |request: &Request| match request {
        Request::CreateDirectory { .. } => Reply::Created,
        Request::Resolve { address } => Reply::Resolved { first: Some(address.clone()) },
        Request::Run { command } => match command.args[0].as_str() {
            "run" if command.args.contains(&failing.to_owned()) => Reply::Exited { code: Some(125) },
            "run" => Reply::Exited { code: Some(0) },
            _ => Reply::Exited { code: Some(1) },
        },
    }
}

fn containers_run(requests: &[Request]) -> Vec<String> {
    requests
        .iter()
        .filter_map(|r| match r {
            Request::Run { command } if command.args[0] == "run" => Some(command.args[4].clone()),
            _ => None,
        })
        .collect()
}

#[test]
fn get_unknown_tunnel_fails_with_its_name() {
    let m = manager(vec![docker("a", None)]);
    assert!(matches!(m.get("missing"), Err(Error::TunnelNotFound { tunnel }) if tunnel == "missing"));
    assert!(matches!(m.get(""), Err(Error::TunnelNotFound { tunnel }) if tunnel.is_empty()));
    assert_eq!(m.get("a").unwrap().name(), "a");
    let empty = TunnelManager::new();
    assert!(matches!(empty.get("a"), Err(Error::TunnelNotFound { tunnel }) if tunnel == "a"));
}

#[test]
fn list_is_in_name_order() {
    let m = manager(vec![docker("c", None), ssh("a"), docker("b", Some("second"))]);
    assert_eq!(m.list(), vec!["a".to_owned(), "b".to_owned(), "c".to_owned()]);
    let metas = m.metadata_list();
    assert_eq!(metas.len(), 3);
    assert_eq!(metas[1], TunnelMeta { name: "b".to_owned(), description: Some("second".to_owned()) });
}

#[test]
fn later_tunnel_of_same_name_wins() {
    let m = manager(vec![docker("a", Some("first")), ssh("b"), docker("a", Some("last"))]);
    assert_eq!(m.list(), vec!["a".to_owned(), "b".to_owned()]);
    assert_eq!(m.get("a").unwrap().meta().description.as_deref(), Some("last"));
}

#[test]
fn insert_keeps_order() {
    let mut m = TunnelManager::new();
    m.insert(ssh("m"));
    m.insert(ssh("b"));
    m.insert(ssh("x"));
    m.insert(ssh("b"));
    assert_eq!(m.list(), vec!["b".to_owned(), "m".to_owned(), "x".to_owned()]);
}

#[test]
fn config_keeps_directory() {
    let c = Config::new("/tmp/$USER".to_owned(), vec![]);
    assert_eq!(c.control_path_directory(), "/tmp/$USER");
    assert!(c.into_manager().list().is_empty());
}

#[test]
fn start_creates_directory_first() {
    let m = manager(vec![docker("a", None)]);
    let ctx = context();
    match m.start(&ctx, "a", &[], 0) {
        Progress::Ask { request } => assert_eq!(request, Request::CreateDirectory { path: "/tmp/app".to_owned() }),
        other => panic!("unexpected {other:?}"),
    }
    match m.start(&ctx, "a", &[Reply::Failed { message: "denied".to_owned() }], 0) {
        Progress::Finished { result, next } => {
            assert_eq!(
                result,
                Err(Error::CreateControlPathDirectory { dir_path: "/tmp/app".to_owned(), message: "denied".to_owned() })
            );
            assert_eq!(next, 1);
        }
        other => panic!("unexpected {other:?}"),
    }
    match m.start(&ctx, "nope", &[Reply::Created], 0) {
        Progress::Finished { result, .. } => {
            assert_eq!(result, Err(Error::TunnelNotFound { tunnel: "nope".to_owned() }))
        }
        other => panic!("unexpected {other:?}"),
    }
}

#[test]
fn start_ignores_failed_status_report() {
    let m = manager(vec![docker("a", None)]);
    let ctx = context();
    let replies = [
        Reply::Created,
        Reply::Resolved { first: Some("127.0.0.1:3128".to_owned()) },
        Reply::Exited { code: Some(0) },
        Reply::Failed { message: "no docker".to_owned() },
    ];
    match m.start(&ctx, "a", &replies, 0) {
        Progress::Finished { result, next } => {
            assert_eq!(result, Ok(()));
            assert_eq!(next, 4);
        }
        other => panic!("unexpected {other:?}"),
    }
}

#[test]
fn unknown_names_fail_for_every_operation() {
    let m = manager(vec![docker("a", None)]);
    let ctx = context();
    let missing = Err(Error::TunnelNotFound { tunnel: "zz".to_owned() });
    assert!(matches!(m.stop(&ctx, "zz", &[], 0), Progress::Finished { result, next: 0 } if result == missing));
    assert!(matches!(m.restart(&ctx, "zz", &[], 0), Progress::Finished { result, next: 0 } if result == missing));
    assert!(matches!(
        m.is_running(&ctx, "zz", &[], 0),
        Progress::Finished { result: Err(Error::TunnelNotFound { tunnel }), next: 0 } if tunnel == "zz"
    ));
}

#[test]
fn stop_of_stopped_tunnel_succeeds() {
    let m = manager(vec![docker("a", None)]);
    let ctx = context();
    let (result, requests) = drive(|rs| m.stop(&ctx, "a", rs, 0), backend("none"));
    assert_eq!(result, Ok(()));
    assert_eq!(requests.len(), 2);
}

#[test]
fn start_all_stops_at_first_failure() {
    let m = manager(vec![docker("c", None), docker("a", None), docker("b", None)]);
    let ctx = context();
    let (result, requests) = drive(|rs| m.start_all(&ctx, rs, 0), backend("b"));
    assert_eq!(result, Err(Error::ExternalCommand { code: 125 }));
    assert_eq!(containers_run(&requests), vec!["a".to_owned(), "b".to_owned()]);
    assert!(requests.iter().all(|r| match r {
        Request::Run { command } => !command.args.contains(&"c".to_owned()),
        _ => true,
    }));
}

#[test]
fn start_all_runs_every_tunnel() {
    let m = manager(vec![docker("c", None), docker("a", None), docker("b", None)]);
    let ctx = context();
    let (result, requests) = drive(|rs| m.run_all(Operation::Start, &ctx, rs, 0), backend("none"));
    assert_eq!(result, Ok(()));
    assert_eq!(containers_run(&requests), vec!["a".to_owned(), "b".to_owned(), "c".to_owned()]);
}

#[test]
fn restart_all_stops_at_first_failure() {
    let m = manager(vec![docker("a", None), docker("b", None), docker("c", None)]);
    let ctx = context();
    let (result, requests) = drive(|rs| m.restart_all(&ctx, rs, 0), backend("b"));
    assert_eq!(result, Err(Error::ExternalCommand { code: 125 }));
    assert_eq!(containers_run(&requests), vec!["a".to_owned(), "b".to_owned()]);
}

#[test]
fn stop_all_with_nothing_running() {
    let m = manager(vec![ssh("a"), docker("b", None)]);
    let ctx = context();
    let (result, requests) = drive(|rs| m.stop_all(&ctx, rs, 0), backend("none"));
    assert_eq!(result, Ok(()));
    assert_eq!(requests.len(), 4);
}
