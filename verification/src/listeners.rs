//! What the servers listen on: configured addresses and sockets, and sockets
//! handed over by the service manager.

use vstd::prelude::*;
use vstd::string::*;

use crate::address::{AddressSet, SocketAddr};
use crate::settings::{NbdConfig, NfsConfig, NinePConfig, RpcConfig};
use crate::text::same_text;

verus! {

/// A protocol that is served.
#[derive(Debug, Clone, Copy, PartialEq, Eq, Structural)]
pub enum Service {
    /// NFS.
    Nfs,
    /// 9P.
    NineP,
    /// Network block devices.
    Nbd,
    /// Administration.
    Rpc,
}

/// Something to listen on.
#[derive(Debug)]
pub enum Listener {
    /// An IP address and port.
    Tcp(SocketAddr),
    /// The path of a Unix socket.
    Unix(String),
}

/// A socket handed over by the service manager.
#[derive(Debug)]
pub struct ActivatedFd {
    /// The name it was handed over under.
    pub name: String,
    /// Whether it is an IP socket.
    pub inet: bool,
    /// Whether it is a Unix socket.
    pub unix: bool,
}

/// What to do with a socket handed over, told by its place in the list.
#[derive(Debug, Clone, Copy, PartialEq, Eq, Structural)]
pub enum FdAction {
    /// Serve it as an IP socket.
    ServeTcp(usize),
    /// Serve it as a Unix socket.
    ServeUnix(usize),
    /// Leave it alone: it is neither.
    Unknown(usize),
}

impl FdAction {
    /// The socket's place in the list.
    pub open spec fn place(self) -> usize {
        match self {
            FdAction::ServeTcp(i) => i,
            FdAction::ServeUnix(i) => i,
            FdAction::Unknown(i) => i,
        }
    }

    /// Whether a server is started on the socket.
    pub open spec fn serves(self) -> bool {
        !(self is Unknown)
    }
}

impl Service {
    /// The name of the task that serves a listener.
    pub open spec fn task(self, unix: bool) -> Seq<char> {
        match self {
            Service::Nfs => "nfs-server"@,
            Service::NineP => if unix {
                "9p-unix-server"@
            } else {
                "9p-server"@
            },
            Service::Nbd => if unix {
                "nbd-unix-server"@
            } else {
                "nbd-server"@
            },
            Service::Rpc => if unix {
                "rpc-unix-server"@
            } else {
                "rpc-server"@
            },
        }
    }

    /// The name of the task that serves a listener.
    pub fn task_name(&self, unix: bool) -> (name: &'static str)
        ensures
            name@ == self.task(unix),
    {
        match self {
            Service::Nfs => "nfs-server",
            Service::NineP => if unix {
                "9p-unix-server"
            } else {
                "9p-server"
            },
            Service::Nbd => if unix {
                "nbd-unix-server"
            } else {
                "nbd-server"
            },
            Service::Rpc => if unix {
                "rpc-unix-server"
            } else {
                "rpc-server"
            },
        }
    }

    /// The name under which sockets for a service are handed over; only 9P and
    /// NBD take any.
    pub open spec fn socket_name(self) -> Option<Seq<char>> {
        match self {
            Service::NineP => Some("ninep"@),
            Service::Nbd => Some("nbd"@),
            _ => None,
        }
    }
}

/// The configured listeners: every address, then the Unix socket.
pub open spec fn configured(addresses: Option<AddressSet>, unix_socket: Option<String>) -> Seq<
    Listener,
> {
    (match addresses {
        Some(set) => set.order().map_values(|addr: SocketAddr| Listener::Tcp(addr)),
        None => seq![],
    }) + (match unix_socket {
        Some(path) => seq![Listener::Unix(path)],
        None => seq![],
    })
}

fn configured_listeners(addresses: &Option<AddressSet>, unix_socket: &Option<String>) -> (listeners:
    Vec<Listener>)
    ensures
        listeners@ == configured(*addresses, *unix_socket),
{
    let mut listeners: Vec<Listener> = Vec::new();
    if let Some(set) = addresses {
        let addrs = set.to_vec();
        let mut i: usize = 0;
        while i < addrs.len()
            invariant
                i <= addrs@.len(),
                listeners@ == addrs@.take(i as int).map_values(
                    |addr: SocketAddr| Listener::Tcp(addr),
                ),
            decreases addrs@.len() - i,
        {
            listeners.push(Listener::Tcp(addrs[i]));
            assert(listeners@ =~= addrs@.take(i + 1).map_values(
                |addr: SocketAddr| Listener::Tcp(addr),
            ));
            i += 1;
        }
        assert(addrs@.take(i as int) =~= addrs@);
    }
    if let Some(path) = unix_socket {
        listeners.push(Listener::Unix(path.clone()));
    }
    assert(listeners@ =~= configured(*addresses, *unix_socket));
    listeners
}

/// What NFS is served on: TCP addresses only.
pub fn nfs_listeners(config: Option<&NfsConfig>) -> (listeners: Vec<Listener>)
    ensures
        listeners@ == (match config {
            Some(config) => configured(config.addresses, None),
            None => seq![],
        }),
{
    match config {
        Some(config) => configured_listeners(&config.addresses, &None),
        None => Vec::new(),
    }
}

/// What 9P is served on, apart from sockets handed over.
pub fn ninep_listeners(config: Option<&NinePConfig>) -> (listeners: Vec<Listener>)
    ensures
        listeners@ == (match config {
            Some(config) => configured(config.addresses, config.unix_socket),
            None => seq![],
        }),
{
    match config {
        Some(config) => configured_listeners(&config.addresses, &config.unix_socket),
        None => Vec::new(),
    }
}

/// What NBD is served on, apart from sockets handed over.
pub fn nbd_listeners(config: Option<&NbdConfig>) -> (listeners: Vec<Listener>)
    ensures
        listeners@ == (match config {
            Some(config) => configured(config.addresses, config.unix_socket),
            None => seq![],
        }),
{
    match config {
        Some(config) => configured_listeners(&config.addresses, &config.unix_socket),
        None => Vec::new(),
    }
}

/// What administration is served on.
pub fn rpc_listeners(config: Option<&RpcConfig>) -> (listeners: Vec<Listener>)
    ensures
        listeners@ == (match config {
            Some(config) => configured(config.addresses, config.unix_socket),
            None => seq![],
        }),
{
    match config {
        Some(config) => configured_listeners(&config.addresses, &config.unix_socket),
        None => Vec::new(),
    }
}

/// What to do with one socket of a service, at place `i`.
pub open spec fn action_for(fd: ActivatedFd, i: usize) -> FdAction {
    if fd.inet {
        FdAction::ServeTcp(i)
    } else if fd.unix {
        FdAction::ServeUnix(i)
    } else {
        FdAction::Unknown(i)
    }
}

/// Whether a socket was handed over for a service.
pub open spec fn meant_for(fd: ActivatedFd, service: Service) -> bool {
    service.socket_name() == Some(fd.name@)
}

/// What to do with the sockets that were handed over for a service, in order;
/// the sockets of other services are not touched.
pub open spec fn actions_for(service: Service, fds: Seq<ActivatedFd>) -> Seq<FdAction>
    decreases fds.len(),
{
    if fds.len() == 0 {
        seq![]
    } else if meant_for(fds.last(), service) {
        actions_for(service, fds.drop_last()).push(
            action_for(fds.last(), (fds.len() - 1) as usize),
        )
    } else {
        actions_for(service, fds.drop_last())
    }
}

/// What to do with the sockets handed over, for one service. It is called even
/// where the service has no configuration of its own.
pub fn activated_listeners(service: Service, fds: &Vec<ActivatedFd>) -> (actions: Vec<FdAction>)
    ensures
        actions@ == actions_for(service, fds@),
{
    let mut actions: Vec<FdAction> = Vec::new();
    let mut i: usize = 0;
    while i < fds.len()
        invariant
            i <= fds@.len(),
            actions@ == actions_for(service, fds@.take(i as int)),
        decreases fds@.len() - i,
    {
        proof {
            assert(fds@.take(i + 1).drop_last() =~= fds@.take(i as int));
            assert(fds@.take(i + 1).last() == fds@[i as int]);
        }
        let fd = &fds[i];
        let mine = match service {
            Service::NineP => same_text(fd.name.as_str(), "ninep"),
            Service::Nbd => same_text(fd.name.as_str(), "nbd"),
            Service::Nfs => false,
            Service::Rpc => false,
        };
        if mine {
            if fd.inet {
                actions.push(FdAction::ServeTcp(i));
            } else if fd.unix {
                actions.push(FdAction::ServeUnix(i));
            } else {
                actions.push(FdAction::Unknown(i));
            }
        }
        i += 1;
    }
    assert(fds@.take(i as int) =~= fds@);
    actions
}

/// Every action is about a socket handed over for the service, and no two are
/// about the same one.
pub proof fn actions_take_their_own_sockets(service: Service, fds: Seq<ActivatedFd>)
    requires
        fds.len() <= usize::MAX,
    ensures
        forall|i: int|
            0 <= i < actions_for(service, fds).len() ==> {
                let place = (#[trigger] actions_for(service, fds)[i]).place() as int;
                0 <= place < fds.len() && meant_for(fds[place], service) && actions_for(
                    service,
                    fds,
                )[i] == action_for(fds[place], place as usize)
            },
        forall|i: int, j: int|
            0 <= i < j < actions_for(service, fds).len() ==> (#[trigger] actions_for(
                service,
                fds,
            )[i]).place() < (#[trigger] actions_for(service, fds)[j]).place(),
    decreases fds.len(),
{
    if fds.len() > 0 {
        actions_take_their_own_sockets(service, fds.drop_last());
        let before = actions_for(service, fds.drop_last());
        let all = actions_for(service, fds);
        assert forall|i: int| 0 <= i < all.len() implies {
            let place = (#[trigger] all[i]).place() as int;
            0 <= place < fds.len() && meant_for(fds[place], service) && all[i] == action_for(
                fds[place],
                place as usize,
            )
        } by {
            if i < before.len() {
                assert(all[i] == before[i]);
                let place = before[i].place() as int;
                assert(fds.drop_last()[place] == fds[place]);
            }
        }
        assert forall|i: int, j: int| 0 <= i < j < all.len() implies (#[trigger] all[i]).place()
            < (#[trigger] all[j]).place() by {
            assert(all[i] == before[i]);
            if j < before.len() {
                assert(all[j] == before[j]);
            }
        }
    }
}

/// Every socket handed over for the service is acted on.
pub proof fn every_own_socket_is_acted_on(service: Service, fds: Seq<ActivatedFd>, place: int)
    requires
        fds.len() <= usize::MAX,
        0 <= place < fds.len(),
        meant_for(fds[place], service),
    ensures
        actions_for(service, fds).contains(action_for(fds[place], place as usize)),
    decreases fds.len(),
{
    let all = actions_for(service, fds);
    if place == fds.len() - 1 {
        assert(all.last() == action_for(fds[place], place as usize));
    } else {
        every_own_socket_is_acted_on(service, fds.drop_last(), place);
        let before = actions_for(service, fds.drop_last());
        let i = choose|i: int|
            0 <= i < before.len() && before[i] == action_for(fds[place], place as usize);
        assert(all[i] == before[i]);
    }
}

/// NFS and RPC take no sockets from the service manager.
pub proof fn only_9p_and_nbd_take_sockets(fds: Seq<ActivatedFd>)
    ensures
        actions_for(Service::Nfs, fds).len() == 0,
        actions_for(Service::Rpc, fds).len() == 0,
    decreases fds.len(),
{
    if fds.len() > 0 {
        only_9p_and_nbd_take_sockets(fds.drop_last());
    }
}

/// There is one listener for each address and one for the Unix socket.
pub proof fn one_listener_each(addresses: Option<AddressSet>, unix_socket: Option<String>)
    ensures
        configured(addresses, unix_socket).len() == (match addresses {
            Some(set) => set.order().len(),
            None => 0,
        }) + (match unix_socket {
            Some(_) => 1nat,
            None => 0nat,
        }),
{
}

/// A service listens on exactly the addresses and the path that are configured,
/// the addresses first and in their order.
pub proof fn listeners_are_the_configured_ones(
    addresses: Option<AddressSet>,
    unix_socket: Option<String>,
    addr: SocketAddr,
    path: String,
)
    ensures
        configured(addresses, unix_socket).contains(Listener::Tcp(addr)) <==> addresses is Some
            && addresses->0.order().contains(addr),
        configured(addresses, unix_socket).contains(Listener::Unix(path)) <==> unix_socket == Some(
            path,
        ),
        unix_socket matches Some(own) ==> configured(addresses, unix_socket).last()
            == Listener::Unix(own),
        addresses matches Some(set) ==> forall|i: int|
            0 <= i < set.order().len() ==> #[trigger] configured(addresses, unix_socket)[i]
                == Listener::Tcp(set.order()[i]),
{
    let all = configured(addresses, unix_socket);
    if let Some(set) = addresses {
        if set.order().contains(addr) {
            let k = choose|k: int| 0 <= k < set.order().len() && set.order()[k] == addr;
            assert(all[k] == Listener::Tcp(addr));
        }
    }
    if unix_socket is Some {
        assert(all[all.len() - 1] == Listener::Unix(unix_socket->0));
    }
    if all.contains(Listener::Tcp(addr)) {
        let k = choose|k: int| 0 <= k < all.len() && all[k] == Listener::Tcp(addr);
        assert(addresses is Some);
        assert(k < addresses->0.order().len());
        assert(addresses->0.order()[k] == addr);
    }
}

/// What is done with a socket handed over under the name of 9P or of block
/// devices: an IP socket is served as one, another one as a Unix socket if it is
/// one, and what is neither is left alone. A socket under any other name gets
/// no action.
pub proof fn handed_over_sockets_are_served_by_name(fds: Seq<ActivatedFd>, place: usize)
    requires
        fds.len() <= usize::MAX,
        place < fds.len(),
    ensures
        ({
            let fd = fds[place as int];
            let ninep = actions_for(Service::NineP, fds);
            let nbd = actions_for(Service::Nbd, fds);
            &&& ninep.contains(FdAction::ServeTcp(place)) <==> fd.name@ == "ninep"@ && fd.inet
            &&& ninep.contains(FdAction::ServeUnix(place)) <==> fd.name@ == "ninep"@ && !fd.inet
                && fd.unix
            &&& ninep.contains(FdAction::Unknown(place)) <==> fd.name@ == "ninep"@ && !fd.inet
                && !fd.unix
            &&& nbd.contains(FdAction::ServeTcp(place)) <==> fd.name@ == "nbd"@ && fd.inet
            &&& nbd.contains(FdAction::ServeUnix(place)) <==> fd.name@ == "nbd"@ && !fd.inet
                && fd.unix
            &&& nbd.contains(FdAction::Unknown(place)) <==> fd.name@ == "nbd"@ && !fd.inet
                && !fd.unix
        }),
{
    one_action_for_each_own_socket(Service::NineP, fds, place, FdAction::ServeTcp(place));
    one_action_for_each_own_socket(Service::NineP, fds, place, FdAction::ServeUnix(place));
    one_action_for_each_own_socket(Service::NineP, fds, place, FdAction::Unknown(place));
    one_action_for_each_own_socket(Service::Nbd, fds, place, FdAction::ServeTcp(place));
    one_action_for_each_own_socket(Service::Nbd, fds, place, FdAction::ServeUnix(place));
    one_action_for_each_own_socket(Service::Nbd, fds, place, FdAction::Unknown(place));
}

/// A socket's action is the one for it, where it is the service's own.
proof fn one_action_for_each_own_socket(
    service: Service,
    fds: Seq<ActivatedFd>,
    place: usize,
    action: FdAction,
)
    requires
        fds.len() <= usize::MAX,
        place < fds.len(),
        action.place() == place,
    ensures
        actions_for(service, fds).contains(action) <==> meant_for(fds[place as int], service)
            && action == action_for(fds[place as int], place),
{
    let all = actions_for(service, fds);
    if meant_for(fds[place as int], service) {
        every_own_socket_is_acted_on(service, fds, place as int);
    }
    if all.contains(action) {
        actions_take_their_own_sockets(service, fds);
        let k = choose|k: int| 0 <= k < all.len() && all[k] == action;
        assert(all[k].place() == place);
    }
}

} // verus!
