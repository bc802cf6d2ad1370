//! One node of a leader/standby pair, and what makes its configuration usable.

use vstd::prelude::*;
use vstd::string::*;

#[allow(unused_imports)]
use crate::text::{
    a_text_occurs_between_others, blank, leading_copies_are_taken_off, occurs, without_leading,
};
use crate::address::SocketAddr;
use crate::text::{debug_text, is_blank, same_text, trim_leading};
#[allow(unused_imports)]
use crate::text::debug_quoted;

verus! {

/// Node role within an HA pair.
#[derive(Debug, Clone, Copy, PartialEq, Eq, Structural)]
pub enum ReplicationRole {
    /// Bootstraps as the active leader, opening the data db as writer.
    Leader,
    /// Watches the leader's heartbeats; takes over when they stop.
    Standby,
}

/// How a role is written.
pub open spec fn role_text(role: ReplicationRole) -> Seq<char> {
    match role {
        ReplicationRole::Leader => "leader"@,
        ReplicationRole::Standby => "standby"@,
    }
}

/// The role that a text names.
pub open spec fn role_of(s: Seq<char>) -> Option<ReplicationRole> {
    if s == "leader"@ {
        Some(ReplicationRole::Leader)
    } else if s == "standby"@ {
        Some(ReplicationRole::Standby)
    } else {
        None
    }
}

impl ReplicationRole {
    /// `leader` or `standby`.
    pub fn serialize(&self) -> (s: &'static str)
        ensures
            s@ == role_text(*self),
    {
        match self {
            ReplicationRole::Leader => "leader",
            ReplicationRole::Standby => "standby",
        }
    }

    /// Reads `leader` or `standby`; nothing else names a role.
    pub fn deserialize(value: &str) -> (role: Option<ReplicationRole>)
        ensures
            role == role_of(value@),
    {
        if same_text(value, "leader") {
            Some(ReplicationRole::Leader)
        } else if same_text(value, "standby") {
            Some(ReplicationRole::Standby)
        } else {
            None
        }
    }

    /// What [`ReplicationRole::deserialize`] accepts, in words.
    pub fn expected() -> (s: &'static str)
        ensures
            s@ == "\"leader\" or \"standby\""@,
    {
        "\"leader\" or \"standby\""
    }
}

/// A role reads back as itself, and a text that names a role is that role's text.
pub proof fn role_reads_back(role: ReplicationRole, s: Seq<char>)
    ensures
        role_of(role_text(role)) == Some(role),
        role_of(s) matches Some(named) ==> role_text(named) == s,
{
    reveal_strlit("leader");
    reveal_strlit("standby");
    assert("leader"@.len() != "standby"@.len());
}

/// HA replication: one node of a leader/standby pair over a single object-store
/// endpoint.
#[derive(Debug, Clone)]
pub struct ReplicationConfig {
    /// This node's stable identity within the pair.
    pub node_id: String,
    /// The role this node starts in.
    pub role: ReplicationRole,
    /// Peer address(es). On a leader, the standby's `replication_listen`.
    pub peers: Vec<String>,
    /// Address this node listens on for the replication stream.
    pub replication_listen: Option<String>,
}

/// Why a replication configuration is refused.
#[derive(Debug)]
pub enum ReplicationError {
    /// The node id is empty or blank.
    EmptyNodeId,
    /// A standby without an address to receive ships and heartbeats on.
    StandbyWithoutListen,
    /// The listen address is no socket address.
    InvalidListen {
        /// The address as configured.
        listen: String,
        /// What the parser says.
        reason: String,
    },
    /// A peer entry is empty or blank.
    EmptyPeer,
    /// A peer is this node's own listen address.
    SelfPeer {
        /// The peer as configured.
        peer: String,
    },
}

/// What a usable configuration may still lack for a role swap.
#[derive(Debug, Clone, Copy, PartialEq, Eq, Structural)]
pub enum ReplicationWarning {
    /// It cannot receive ships if demoted to a follower.
    PeersWithoutListen,
    /// If promoted to leader it has nowhere to ship.
    ListenWithoutPeers,
}

/// A peer without the URL scheme in front of it.
pub open spec fn bare_peer(peer: Seq<char>) -> Seq<char> {
    without_leading(without_leading(peer, "http://"@), "https://"@)
}

/// What is wrong with one peer entry.
pub open spec fn peer_fault(peer: String, listen: Option<String>) -> Option<ReplicationError> {
    if blank(peer@) {
        Some(ReplicationError::EmptyPeer)
    } else if listen matches Some(own) && bare_peer(peer@) == own@ {
        Some(ReplicationError::SelfPeer { peer })
    } else {
        None
    }
}

/// What is wrong with the first faulty one of the peer entries.
pub open spec fn first_peer_fault(peers: Seq<String>, listen: Option<String>) -> Option<
    ReplicationError,
>
    decreases peers.len(),
{
    if peers.len() == 0 {
        None
    } else {
        match peer_fault(peers[0], listen) {
            Some(fault) => Some(fault),
            None => first_peer_fault(peers.drop_first(), listen),
        }
    }
}

impl ReplicationConfig {
    /// What is wrong with a configuration, given why its listen address is
    /// refused, where it is.
    pub open spec fn fault(self, refusal: Option<String>) -> Option<ReplicationError> {
        if blank(self.node_id@) {
            Some(ReplicationError::EmptyNodeId)
        } else if self.role == ReplicationRole::Standby && self.replication_listen is None {
            Some(ReplicationError::StandbyWithoutListen)
        } else if self.replication_listen is Some && refusal is Some {
            Some(
                ReplicationError::InvalidListen {
                    listen: self.replication_listen->0,
                    reason: refusal->0,
                },
            )
        } else {
            first_peer_fault(self.peers@, self.replication_listen)
        }
    }

    /// `refusal` is what `parse` has against the listen address, where there is
    /// one and it has anything.
    pub open spec fn refuses_listen<P: Fn(&String) -> Result<SocketAddr, String>>(
        self,
        parse: P,
        refusal: Option<String>,
    ) -> bool {
        match self.replication_listen {
            None => refusal is None,
            Some(listen) => match refusal {
                None => exists|addr: SocketAddr| #[trigger] parse.ensures((&listen,), Ok(addr)),
                Some(reason) => parse.ensures((&listen,), Err(reason)),
            },
        }
    }

    /// Whether only one of peers and listen address is there.
    pub open spec fn one_directional(self) -> Option<ReplicationWarning> {
        if self.peers@.len() > 0 && self.replication_listen is None {
            Some(ReplicationWarning::PeersWithoutListen)
        } else if self.peers@.len() == 0 && self.replication_listen is Some {
            Some(ReplicationWarning::ListenWithoutPeers)
        } else {
            None
        }
    }

    /// What `parse` has against the listen address, where there is one.
    pub fn listen_refusal<P: Fn(&String) -> Result<SocketAddr, String>>(&self, parse: &P) -> (refusal:
        Option<String>)
        requires
            forall|s: &String| #[trigger] parse.requires((s,)),
        ensures
            self.refuses_listen(*parse, refusal),
    {
        match &self.replication_listen {
            None => None,
            Some(listen) => match parse(listen) {
                Ok(addr) => {
                    assert(parse.ensures((&self.replication_listen->0,), Ok(addr)));
                    None
                },
                Err(reason) => Some(reason),
            },
        }
    }

    /// Checks the configuration. `parse` reads a socket address (host:port) or
    /// says why it cannot: `replication_listen` is bound verbatim, so a typo is
    /// caught here rather than at bind time.
    pub fn validate<P: Fn(&String) -> Result<SocketAddr, String>>(&self, parse: &P) -> (r: Result<
        (),
        ReplicationError,
    >)
        requires
            forall|s: &String| #[trigger] parse.requires((s,)),
        ensures
            exists|refusal: Option<String>| #[trigger]
                self.refuses_listen(*parse, refusal) && match self.fault(refusal) {
                    None => r is Ok,
                    Some(fault) => r == Err::<(), _>(fault),
                },
    {
        let refusal = self.listen_refusal(parse);
        self.check(&refusal)
    }

    /// Checks the configuration, given why its listen address is refused, where
    /// it is.
    pub fn check(&self, refusal: &Option<String>) -> (r: Result<(), ReplicationError>)
        ensures
            match self.fault(*refusal) {
                None => r is Ok,
                Some(fault) => r == Err::<(), _>(fault),
            },
    {
        if is_blank(self.node_id.as_str()) {
            return Err(ReplicationError::EmptyNodeId);
        }
        if self.role == ReplicationRole::Standby && self.replication_listen.is_none() {
            return Err(ReplicationError::StandbyWithoutListen);
        }
        if let (Some(listen), Some(reason)) = (&self.replication_listen, refusal) {
            return Err(
                ReplicationError::InvalidListen { listen: listen.clone(), reason: reason.clone() },
            );
        }
        let mut i: usize = 0;
        assert(self.peers@.skip(0) =~= self.peers@);
        while i < self.peers.len()
            invariant
                i <= self.peers@.len(),
                first_peer_fault(self.peers@, self.replication_listen) == first_peer_fault(
                    self.peers@.skip(i as int),
                    self.replication_listen,
                ),
                self.fault(*refusal) == first_peer_fault(self.peers@, self.replication_listen),
            decreases self.peers@.len() - i,
        {
            let peer = &self.peers[i];
            let ghost rest = self.peers@.skip(i as int);
            assert(rest[0] == *peer);
            assert(rest.drop_first() =~= self.peers@.skip(i + 1));
            if is_blank(peer.as_str()) {
                return Err(ReplicationError::EmptyPeer);
            }
            // A node replicating to its own listen address is always a mistake.
            if let Some(listen) = &self.replication_listen {
                let without_http = trim_leading(peer.as_str(), "http://");
                let bare = trim_leading(without_http.as_str(), "https://");
                if same_text(bare.as_str(), listen.as_str()) {
                    return Err(ReplicationError::SelfPeer { peer: peer.clone() });
                }
            }
            i += 1;
        }
        Ok(())
    }

    /// A setup with only one of peers and listen address works for the initial
    /// roles but not for a role swap. It is usable, and so is a solo node.
    pub fn warning(&self) -> (w: Option<ReplicationWarning>)
        ensures
            w == self.one_directional(),
    {
        let has_peers = self.peers.len() > 0;
        let has_listen = self.replication_listen.is_some();
        if has_peers && !has_listen {
            Some(ReplicationWarning::PeersWithoutListen)
        } else if !has_peers && has_listen {
            Some(ReplicationWarning::ListenWithoutPeers)
        } else {
            None
        }
    }
}

impl ReplicationError {
    /// The configured text that the error is about.
    pub open spec fn subject(self) -> Seq<char> {
        match self {
            ReplicationError::InvalidListen { listen, reason } => listen@,
            ReplicationError::SelfPeer { peer } => peer@,
            _ => seq![],
        }
    }

    /// The error, in words, with its subject shown as `quoted`.
    pub open spec fn text(self, quoted: Seq<char>) -> Seq<char> {
        match self {
            ReplicationError::EmptyNodeId => "[replication] node_id must not be empty"@,
            ReplicationError::StandbyWithoutListen =>
                "[replication] role = \"standby\" requires replication_listen (the address it receives the leader's ships on)"@,
            ReplicationError::InvalidListen { listen, reason } =>
                "[replication] replication_listen "@ + quoted
                + " is not a valid socket address (expected host:port): "@ + reason@,
            ReplicationError::EmptyPeer => "[replication] peers must not contain an empty entry"@,
            ReplicationError::SelfPeer { peer } => "[replication] peer "@ + quoted
                + " is this node's own replication_listen; a node must not replicate to itself"@,
        }
    }

    /// The error, in words, with its subject shown as `quoted`.
    pub fn message_quoting(&self, quoted: &str) -> (s: String)
        ensures
            s@ == self.text(quoted@),
    {
        match self {
            ReplicationError::EmptyNodeId => "[replication] node_id must not be empty".to_owned(),
            ReplicationError::StandbyWithoutListen =>
                "[replication] role = \"standby\" requires replication_listen (the address it receives the leader's ships on)".to_owned(),
            ReplicationError::InvalidListen { listen: _, reason } => {
                let mut s = "[replication] replication_listen ".to_owned();
                s.append(quoted);
                s.append(" is not a valid socket address (expected host:port): ");
                s.append(reason.as_str());
                s
            },
            ReplicationError::EmptyPeer => {
                "[replication] peers must not contain an empty entry".to_owned()
            },
            ReplicationError::SelfPeer { .. } => {
                let mut s = "[replication] peer ".to_owned();
                s.append(quoted);
                s.append(
                    " is this node's own replication_listen; a node must not replicate to itself",
                );
                s
            },
        }
    }

    /// The error, in words.
    pub fn message(&self) -> (s: String)
        ensures
            s@ == self.text(debug_quoted(self.subject())),
    {
        let quoted = match self {
            ReplicationError::InvalidListen { listen, reason: _ } => debug_text(listen.as_str()),
            ReplicationError::SelfPeer { peer } => debug_text(peer.as_str()),
            _ => debug_text(""),
        };
        proof {
            reveal_strlit("");
            assert(""@ =~= Seq::empty());
        }
        self.message_quoting(quoted.as_str())
    }
}

impl ReplicationWarning {
    /// What the node lacks, in words.
    pub open spec fn text(self) -> Seq<char> {
        match self {
            ReplicationWarning::PeersWithoutListen =>
                "has peers but no replication_listen, so it cannot receive ships if demoted to a follower"@,
            ReplicationWarning::ListenWithoutPeers =>
                "has replication_listen but no peers, so if promoted to leader it has nowhere to ship"@,
        }
    }

    /// What the node lacks, in words.
    pub fn detail(&self) -> (s: &'static str)
        ensures
            s@ == self.text(),
    {
        match self {
            ReplicationWarning::PeersWithoutListen =>
                "has peers but no replication_listen, so it cannot receive ships if demoted to a follower",
            ReplicationWarning::ListenWithoutPeers =>
                "has replication_listen but no peers, so if promoted to leader it has nowhere to ship",
        }
    }
}

/// A peer list has no fault exactly where none of its entries has one.
pub proof fn faultless_peers(peers: Seq<String>, listen: Option<String>)
    ensures
        first_peer_fault(peers, listen) is None <==> forall|i: int|
            0 <= i < peers.len() ==> peer_fault(#[trigger] peers[i], listen) is None,
    decreases peers.len(),
{
    if peers.len() > 0 {
        let rest = peers.drop_first();
        faultless_peers(rest, listen);
        if first_peer_fault(peers, listen) is None {
            assert forall|i: int| 0 <= i < peers.len() implies peer_fault(
                #[trigger] peers[i],
                listen,
            ) is None by {
                if i > 0 {
                    assert(peers[i] == rest[i - 1]);
                }
            }
        } else if peer_fault(peers[0], listen) is None {
            let bad = choose|i: int|
                0 <= i < rest.len() && peer_fault(#[trigger] rest[i], listen) is Some;
            assert(peers[bad + 1] == rest[bad]);
        }
    }
}

/// What an accepted configuration guarantees: the node has an identity, a
/// standby can be reached, the listen address is a socket address, and no peer
/// is empty or the node itself, with or without a URL scheme in front.
pub proof fn accepted_replication_is_sound(config: ReplicationConfig, refusal: Option<String>)
    requires
        config.fault(refusal) is None,
    ensures
        !blank(config.node_id@),
        config.role == ReplicationRole::Standby ==> config.replication_listen is Some,
        config.replication_listen is Some ==> refusal is None,
        forall|i: int| 0 <= i < config.peers@.len() ==> !blank((#[trigger] config.peers@[i])@),
        forall|i: int|
            0 <= i < config.peers@.len() && config.replication_listen is Some ==> bare_peer(
                (#[trigger] config.peers@[i])@,
            ) != config.replication_listen->0@,
{
    faultless_peers(config.peers@, config.replication_listen);
    assert forall|i: int| 0 <= i < config.peers@.len() implies !blank(
        (#[trigger] config.peers@[i])@,
    ) by {
        assert(peer_fault(config.peers@[i], config.replication_listen) is None);
    }
    assert forall|i: int|
        0 <= i < config.peers@.len() && config.replication_listen is Some implies bare_peer(
        (#[trigger] config.peers@[i])@,
    ) != config.replication_listen->0@ by {
        assert(peer_fault(config.peers@[i], config.replication_listen) is None);
    }
}

/// A leader on its own, with neither peers nor a listen address, is accepted
/// without a warning.
pub proof fn solo_leader_is_accepted(config: ReplicationConfig, refusal: Option<String>)
    requires
        !blank(config.node_id@),
        config.role == ReplicationRole::Leader,
        config.peers@.len() == 0,
        config.replication_listen is None,
    ensures
        config.fault(refusal) is None,
        config.one_directional() is None,
{
}

/// Everything sound is accepted: a node with an identity, that can be reached
/// where it is a standby, whose listen address is not refused, and none of
/// whose peers is empty or the node itself, has no fault, in either role and
/// however many peers it has.
pub proof fn sound_replication_is_accepted(config: ReplicationConfig, refusal: Option<String>)
    requires
        !blank(config.node_id@),
        config.role == ReplicationRole::Standby ==> config.replication_listen is Some,
        config.replication_listen is Some ==> refusal is None,
        forall|i: int| 0 <= i < config.peers@.len() ==> !blank((#[trigger] config.peers@[i])@),
        forall|i: int|
            0 <= i < config.peers@.len() && config.replication_listen is Some ==> bare_peer(
                (#[trigger] config.peers@[i])@,
            ) != config.replication_listen->0@,
    ensures
        config.fault(refusal) is None,
{
    faultless_peers(config.peers@, config.replication_listen);
    assert forall|i: int| 0 <= i < config.peers@.len() implies peer_fault(
        #[trigger] config.peers@[i],
        config.replication_listen,
    ) is None by {
        assert(!blank(config.peers@[i]@));
    }
}

/// What comes before the peers: a blank node id is reported first, then a
/// standby that cannot be reached, then a listen address that is refused, with
/// the address and the reason as they are; each exactly where it is so.
pub proof fn faults_of_the_node_itself(config: ReplicationConfig, refusal: Option<String>)
    ensures
        config.fault(refusal) == Some(ReplicationError::EmptyNodeId) <==> blank(config.node_id@),
        config.fault(refusal) == Some(ReplicationError::StandbyWithoutListen) <==> {
            &&& !blank(config.node_id@)
            &&& config.role == ReplicationRole::Standby
            &&& config.replication_listen is None
        },
        config.replication_listen matches Some(listen) ==> refusal matches Some(reason) ==> !blank(
            config.node_id@,
        ) ==> config.fault(refusal) == Some(ReplicationError::InvalidListen { listen, reason }),
        config.fault(refusal) matches Some(ReplicationError::InvalidListen { listen, reason })
            ==> config.replication_listen == Some(listen) && refusal == Some(reason),
{
    peer_faults_are_about_peers(config.peers@, config.replication_listen);
}

/// The peers have no faults but those of a peer.
proof fn peer_faults_are_about_peers(peers: Seq<String>, listen: Option<String>)
    ensures
        first_peer_fault(peers, listen) matches Some(fault) ==> fault is EmptyPeer
            || fault is SelfPeer,
    decreases peers.len(),
{
    if peers.len() > 0 {
        peer_faults_are_about_peers(peers.drop_first(), listen);
    }
}

/// In a configuration that is sound but for its peers, the first bad one is
/// reported: a blank one as an empty entry, and one that is the node's own
/// address, with or without a URL scheme, under the name it was given.
pub proof fn the_first_bad_peer_is_reported(
    config: ReplicationConfig,
    refusal: Option<String>,
    bad: int,
)
    requires
        !blank(config.node_id@),
        config.role == ReplicationRole::Standby ==> config.replication_listen is Some,
        config.replication_listen is Some ==> refusal is None,
        0 <= bad < config.peers@.len(),
        forall|i: int| 0 <= i < bad ==> !blank((#[trigger] config.peers@[i])@),
        forall|i: int|
            0 <= i < bad && config.replication_listen is Some ==> bare_peer(
                (#[trigger] config.peers@[i])@,
            ) != config.replication_listen->0@,
    ensures
        blank(config.peers@[bad]@) ==> config.fault(refusal) == Some(ReplicationError::EmptyPeer),
        !blank(config.peers@[bad]@) && config.replication_listen is Some && bare_peer(
            config.peers@[bad]@,
        ) == config.replication_listen->0@ ==> config.fault(refusal) == Some(
            ReplicationError::SelfPeer { peer: config.peers@[bad] },
        ),
{
    assert forall|i: int| 0 <= i < bad implies peer_fault(
        #[trigger] config.peers@[i],
        config.replication_listen,
    ) is None by {
        assert(!blank(config.peers@[i]@));
    }
    if peer_fault(config.peers@[bad], config.replication_listen) is Some {
        faults_come_from_the_first_bad_peer(config.peers@, config.replication_listen, bad);
    }
}

/// Peers without a fault are passed over.
proof fn faults_come_from_the_first_bad_peer(peers: Seq<String>, listen: Option<String>, bad: int)
    requires
        0 <= bad < peers.len(),
        forall|i: int| 0 <= i < bad ==> peer_fault(#[trigger] peers[i], listen) is None,
        peer_fault(peers[bad], listen) is Some,
    ensures
        first_peer_fault(peers, listen) == peer_fault(peers[bad], listen),
    decreases peers.len(),
{
    if bad > 0 {
        let rest = peers.drop_first();
        assert(peer_fault(peers[0], listen) is None);
        assert forall|i: int| 0 <= i < bad - 1 implies peer_fault(
            #[trigger] rest[i],
            listen,
        ) is None by {
            assert(rest[i] == peers[i + 1]);
        }
        faults_come_from_the_first_bad_peer(rest, listen, bad - 1);
    }
}

/// A URL scheme in front of a peer does not count: with `http://` or `https://`
/// it is the same peer, and without either it is what it is.
pub proof fn schemes_do_not_count(peer: Seq<char>)
    ensures
        bare_peer("http://"@ + peer) == bare_peer(peer),
        !"http://"@.is_prefix_of(peer) ==> bare_peer("https://"@ + peer) == bare_peer(peer),
        !"http://"@.is_prefix_of(peer) && !"https://"@.is_prefix_of(peer) ==> bare_peer(peer)
            == peer,
        !"https://"@.is_prefix_of(bare_peer(peer)),
{
    reveal_strlit("http://");
    reveal_strlit("https://");
    let http = "http://"@;
    let https = "https://"@;
    leading_copies_are_taken_off(peer, http);
    leading_copies_are_taken_off(without_leading(peer, http), https);
    let secured = https + peer;
    assert(secured[4] == 's');
    assert(http[4] == ':');
    if http.is_prefix_of(secured) {
        assert(http == secured.subrange(0, 7));
        assert(secured.subrange(0, 7)[4] == secured[4]);
    }
    leading_copies_are_taken_off(secured, http);
    leading_copies_are_taken_off(peer, https);
}

/// Each role is named by one text alone.
pub proof fn roles_are_named_by_their_texts(s: Seq<char>)
    ensures
        role_of(s) == Some(ReplicationRole::Leader) <==> s == "leader"@,
        role_of(s) == Some(ReplicationRole::Standby) <==> s == "standby"@,
{
    reveal_strlit("leader");
    reveal_strlit("standby");
    assert("leader"@.len() != "standby"@.len());
}

/// A node is warned exactly where it has one of peers and listen address
/// without the other, and of the one that is missing.
pub proof fn warnings_say_what_is_missing(config: ReplicationConfig)
    ensures
        config.one_directional() == Some(ReplicationWarning::PeersWithoutListen) <==> (
        config.peers@.len() > 0 && config.replication_listen is None),
        config.one_directional() == Some(ReplicationWarning::ListenWithoutPeers) <==> (
        config.peers@.len() == 0 && config.replication_listen is Some),
{
}

/// An error shows the text that it is about, and says all that the parser said.
pub proof fn replication_errors_show_their_subject(error: ReplicationError, quoted: Seq<char>)
    ensures
        error matches ReplicationError::InvalidListen { listen, reason } ==> {
            &&& error.subject() == listen@
            &&& occurs(error.text(quoted), quoted)
            &&& reason@.is_suffix_of(error.text(quoted))
        },
        error matches ReplicationError::SelfPeer { peer } ==> error.subject() == peer@ && occurs(
            error.text(quoted),
            quoted,
        ),
{
    let text = error.text(quoted);
    match error {
        ReplicationError::InvalidListen { listen, reason } => {
            let before = "[replication] replication_listen "@;
            let between = " is not a valid socket address (expected host:port): "@;
            a_text_occurs_between_others(before, quoted, between + reason@);
            assert(text =~= before + quoted + (between + reason@));
            assert(reason@ =~= text.subrange(text.len() - reason@.len(), text.len() as int));
        },
        ReplicationError::SelfPeer { peer } => {
            let before = "[replication] peer "@;
            let behind =
                " is this node's own replication_listen; a node must not replicate to itself"@;
            a_text_occurs_between_others(before, quoted, behind);
        },
        _ => {},
    }
}

/// A listen address is refused for what the parser says of it, of the whole of
/// it as configured, and passes where the parser can read it. Without one there
/// is nothing to refuse.
pub proof fn listen_addresses_are_refused_by_the_parser<
    P: Fn(&String) -> Result<SocketAddr, String>,
>(config: ReplicationConfig, parse: P, refusal: Option<String>)
    requires
        config.refuses_listen(parse, refusal),
    ensures
        config.replication_listen is None ==> refusal is None,
        refusal matches Some(reason) ==> config.replication_listen is Some && parse.ensures(
            (&config.replication_listen->0,),
            Err(reason),
        ),
        refusal is None && config.replication_listen is Some ==> exists|addr: SocketAddr| #[trigger]
            parse.ensures((&config.replication_listen->0,), Ok(addr)),
{
}

} // verus!
