use zerofs::address::{AddressSet, SocketAddr};
use zerofs::listeners::{
    activated_listeners, nbd_listeners, nfs_listeners, ninep_listeners, rpc_listeners, ActivatedFd,
    FdAction, Listener, Service,
};
use zerofs::settings::{NbdConfig, NfsConfig, NinePConfig, RpcConfig};

fn addr(port: u16) -> SocketAddr {
    SocketAddr::V4 { ipv4: 0x7f00_0001, port }
}

fn addresses(ports: &[u16]) -> Option<AddressSet> {
    let mut set = AddressSet::new();
    for port in ports {
        set.insert(addr(*port));
    }
    Some(set)
}

fn shown(listeners: Vec<Listener>) -> Vec<String> {
    listeners
        .into_iter()
        .map(|listener| match listener {
            Listener::Tcp(SocketAddr::V4 { port, .. }) => format!("tcp {port}"),
            Listener::Tcp(SocketAddr::V6 { port, .. }) => format!("tcp6 {port}"),
            Listener::Unix(path) => format!("unix {path}"),
        })
        .collect()
}

#[test]
fn every_address_is_listened_on_and_then_the_socket() {
    assert_eq!(
        shown(nfs_listeners(Some(&NfsConfig { addresses: addresses(&[2049, 2050]) }))),
        vec!["tcp 2049", "tcp 2050"]
    );
    let path = Some("/tmp/s".to_string());
    assert_eq!(
        shown(ninep_listeners(Some(&NinePConfig {
            addresses: addresses(&[5564]),
            unix_socket: path.clone(),
        }))),
        vec!["tcp 5564", "unix /tmp/s"]
    );
    assert_eq!(
        shown(nbd_listeners(Some(&NbdConfig { addresses: None, unix_socket: path.clone() }))),
        vec!["unix /tmp/s"]
    );
    assert_eq!(
        shown(rpc_listeners(Some(&RpcConfig { addresses: addresses(&[7000]), unix_socket: None }))),
        vec!["tcp 7000"]
    );
}

#[test]
fn an_absent_server_listens_nowhere() {
    assert!(nfs_listeners(None).is_empty());
    assert!(ninep_listeners(None).is_empty());
    assert!(nbd_listeners(None).is_empty());
    assert!(rpc_listeners(None).is_empty());
    assert!(nfs_listeners(Some(&NfsConfig { addresses: None })).is_empty());
}

#[test]
fn sockets_go_to_the_service_they_are_named_for() {
    let fd = |name: &str, inet: bool, unix: bool| ActivatedFd { name: name.to_string(), inet, unix };
    let fds = vec![
        fd("ninep", true, false),
        fd("nbd", false, true),
        fd("ninep", false, true),
        fd("9p", true, false),
        fd("ninep", false, false),
        fd("nbd", true, true),
    ];
    assert_eq!(
        activated_listeners(Service::NineP, &fds),
        vec![FdAction::ServeTcp(0), FdAction::ServeUnix(2), FdAction::Unknown(4)]
    );
    assert_eq!(
        activated_listeners(Service::Nbd, &fds),
        vec![FdAction::ServeUnix(1), FdAction::ServeTcp(5)]
    );
    assert!(activated_listeners(Service::Nfs, &fds).is_empty());
    assert!(activated_listeners(Service::Rpc, &fds).is_empty());
    assert!(activated_listeners(Service::NineP, &Vec::new()).is_empty());
}

#[test]
fn tasks_are_named_for_what_they_serve() {
    assert_eq!(Service::Nfs.task_name(false), "nfs-server");
    assert_eq!(Service::NineP.task_name(false), "9p-server");
    assert_eq!(Service::NineP.task_name(true), "9p-unix-server");
    assert_eq!(Service::Nbd.task_name(false), "nbd-server");
    assert_eq!(Service::Nbd.task_name(true), "nbd-unix-server");
    assert_eq!(Service::Rpc.task_name(false), "rpc-server");
    assert_eq!(Service::Rpc.task_name(true), "rpc-unix-server");
}
