//! Bind addresses: what a socket address is made of, sets of them, and the
//! addresses that servers bind by default.

use vstd::prelude::*;
use vstd::string::*;

use crate::expand::{expand_string, LookupFailure};
#[allow(unused_imports)]
use crate::expand::{expansion, plain, plain_texts_stay};
use crate::text::debug_text;
#[allow(unused_imports)]
use crate::text::{a_text_occurs_between_others, debug_quoted, occurs};

verus! {

/// An IP address and a port.
#[derive(Debug, Clone, Copy, PartialEq, Eq, Structural)]
pub enum SocketAddr {
    /// IPv4.
    V4 {
        /// The four octets, the first one in the highest byte.
        ipv4: u32,
        /// The port.
        port: u16,
    },
    /// IPv6.
    V6 {
        /// The sixteen octets, the first one in the highest byte.
        ipv6: u128,
        /// The port.
        port: u16,
        /// The flow information.
        flowinfo: u32,
        /// The scope identifier.
        scope_id: u32,
    },
}

/// 127.0.0.1 with a port.
pub open spec fn localhost(port: u16) -> SocketAddr {
    SocketAddr::V4 { ipv4: 0x7f00_0001, port }
}

/// A set of bind addresses, in the order in which they were added.
#[derive(Debug)]
pub struct AddressSet {
    entries: Vec<SocketAddr>,
}

impl Clone for AddressSet {
    fn clone(&self) -> (copy: AddressSet)
        ensures
            copy.order() == self.order(),
    {
        AddressSet { entries: self.to_vec() }
    }
}

impl AddressSet {
    /// The addresses, each one once.
    pub closed spec fn order(self) -> Seq<SocketAddr> {
        self.entries@
    }

    #[verifier::type_invariant]
    spec fn distinct(self) -> bool {
        self.entries@.no_duplicates()
    }

    /// The set with no address in it.
    pub fn new() -> (set: AddressSet)
        ensures
            set.order() == Seq::<SocketAddr>::empty(),
    {
        AddressSet { entries: Vec::new() }
    }

    /// Whether an address is in the set.
    pub fn contains(&self, addr: &SocketAddr) -> (found: bool)
        ensures
            found == self.order().contains(*addr),
    {
        let mut i: usize = 0;
        while i < self.entries.len()
            invariant
                i <= self.entries@.len(),
                forall|j: int| 0 <= j < i ==> self.entries@[j] != *addr,
            decreases self.entries@.len() - i,
        {
            if self.entries[i] == *addr {
                assert(self.entries@[i as int] == *addr);
                return true;
            }
            i += 1;
        }
        false
    }

    /// Adds an address; one that is there already stays where it is.
    pub fn insert(&mut self, addr: SocketAddr)
        ensures
            final(self).order() == with_address(old(self).order(), addr),
    {
        proof {
            use_type_invariant(&*self);
        }
        if !self.contains(&addr) {
            let mut entries: Vec<SocketAddr> = Vec::new();
            std::mem::swap(&mut entries, &mut self.entries);
            entries.push(addr);
            self.entries = entries;
        }
    }

    /// The addresses, each one once.
    pub fn to_vec(&self) -> (addrs: Vec<SocketAddr>)
        ensures
            addrs@ == self.order(),
            addrs@.no_duplicates(),
    {
        proof {
            use_type_invariant(self);
        }
        let mut addrs: Vec<SocketAddr> = Vec::new();
        let mut i: usize = 0;
        while i < self.entries.len()
            invariant
                i <= self.entries@.len(),
                addrs@ == self.entries@.take(i as int),
            decreases self.entries@.len() - i,
        {
            addrs.push(self.entries[i]);
            i += 1;
        }
        assert(addrs@ =~= self.entries@);
        addrs
    }

    /// The number of addresses.
    pub fn len(&self) -> (n: usize)
        ensures
            n == self.order().len(),
    {
        self.entries.len()
    }
}

/// `addrs` with `addr` behind them, unless it is among them.
pub open spec fn with_address(addrs: Seq<SocketAddr>, addr: SocketAddr) -> Seq<SocketAddr> {
    if addrs.contains(addr) {
        addrs
    } else {
        addrs.push(addr)
    }
}

/// 127.0.0.1 alone, on one port.
fn only_localhost(port: u16) -> (set: AddressSet)
    ensures
        set.order() == seq![localhost(port)],
{
    let mut set = AddressSet::new();
    set.insert(SocketAddr::V4 { ipv4: 0x7f00_0001, port });
    assert(set.order() =~= seq![localhost(port)]);
    set
}

/// Where the web interface listens unless configured otherwise.
pub fn default_webui_addresses() -> (set: AddressSet)
    ensures
        set.order() == seq![localhost(8080)],
{
    only_localhost(8080)
}

/// Where the NFS server listens in a generated configuration.
pub fn default_nfs_addresses() -> (set: AddressSet)
    ensures
        set.order() == seq![localhost(2049)],
{
    only_localhost(2049)
}

/// Where the 9P server listens in a generated configuration.
pub fn default_9p_addresses() -> (set: AddressSet)
    ensures
        set.order() == seq![localhost(5564)],
{
    only_localhost(5564)
}

/// Where the NBD server listens in a generated configuration.
pub fn default_nbd_addresses() -> (set: AddressSet)
    ensures
        set.order() == seq![localhost(10809)],
{
    only_localhost(10809)
}

/// Where the Prometheus endpoint listens unless configured otherwise.
pub fn default_prometheus_addresses() -> (set: AddressSet)
    ensures
        set.order() == seq![localhost(9091)],
{
    only_localhost(9091)
}

/// Where the RPC server listens in a generated configuration.
pub fn default_rpc_addresses() -> (set: AddressSet)
    ensures
        set.order() == seq![localhost(7000)],
{
    only_localhost(7000)
}

/// Why an entry is no bind address.
#[derive(Debug)]
pub enum AddressError {
    /// A variable in it could not be expanded.
    Unexpanded(LookupFailure),
    /// What it expands to is no socket address.
    Unparsed {
        /// The entry after expansion.
        expanded: String,
        /// What the parser says.
        reason: String,
    },
}

impl AddressError {
    /// The error, in words, with the entry shown as `quoted`.
    pub open spec fn text(self, quoted: Seq<char>) -> Seq<char> {
        match self {
            AddressError::Unexpanded(failure) => failure.text(),
            AddressError::Unparsed { expanded, reason } => "invalid socket address "@ + quoted
                + " (expected host:port): "@ + reason@,
        }
    }

    /// The entry that is no socket address.
    pub open spec fn entry(self) -> Seq<char> {
        match self {
            AddressError::Unexpanded(_) => seq![],
            AddressError::Unparsed { expanded, reason } => expanded@,
        }
    }

    /// The error, in words, with the entry shown as `quoted`.
    pub fn message_quoting(&self, quoted: &str) -> (s: String)
        ensures
            s@ == self.text(quoted@),
    {
        match self {
            AddressError::Unexpanded(failure) => failure.message(),
            AddressError::Unparsed { expanded: _, reason } => {
                let mut s = "invalid socket address ".to_owned();
                s.append(quoted);
                s.append(" (expected host:port): ");
                s.append(reason.as_str());
                s
            },
        }
    }

    /// The error, in words.
    pub fn message(&self) -> (s: String)
        ensures
            s@ == self.text(debug_quoted(self.entry())),
    {
        let quoted = match self {
            AddressError::Unexpanded(_) => debug_text(""),
            AddressError::Unparsed { expanded, reason: _ } => debug_text(expanded.as_str()),
        };
        proof {
            reveal_strlit("");
            assert(""@ =~= Seq::empty());
        }
        self.message_quoting(quoted.as_str())
    }
}

/// The addresses among the readings, each one once, in order.
pub open spec fn addresses_of(readings: Seq<Result<SocketAddr, AddressError>>) -> Seq<SocketAddr>
    decreases readings.len(),
{
    if readings.len() == 0 {
        seq![]
    } else {
        match readings.last() {
            Ok(addr) => with_address(addresses_of(readings.drop_last()), addr),
            Err(_) => addresses_of(readings.drop_last()),
        }
    }
}

/// `failed` is the first reading that is no address.
pub open spec fn first_failure(
    readings: Seq<Result<SocketAddr, AddressError>>,
    failed: int,
) -> bool {
    &&& 0 <= failed < readings.len()
    &&& readings[failed] is Err
    &&& forall|j: int| 0 <= j < failed ==> (#[trigger] readings[j]) is Ok
}

/// The set of addresses that a list of entries stands for, given how each
/// entry reads: one bad entry spoils the list, and the first one is reported.
pub fn collect_addresses(readings: Vec<Result<SocketAddr, AddressError>>) -> (r: Result<
    AddressSet,
    AddressError,
>)
    ensures
        match r {
            Ok(set) => {
                &&& forall|j: int| 0 <= j < readings@.len() ==> (#[trigger] readings@[j]) is Ok
                &&& set.order() == addresses_of(readings@)
            },
            Err(error) => exists|i: int|
                first_failure(readings@, i) && #[trigger] readings@[i] == Err::<SocketAddr, _>(
                    error,
                ),
        },
{
    let ghost all = readings@;
    let mut set = AddressSet::new();
    for reading in it: readings
        invariant
            it.seq() == all,
            set.order() == addresses_of(all.take(it.index())),
            forall|j: int| 0 <= j < it.index() ==> (#[trigger] all[j]) is Ok,
    {
        assert(all.take(it.index() + 1).drop_last() =~= all.take(it.index()));
        assert(reading == all[it.index()]);
        match reading {
            Ok(addr) => {
                set.insert(addr);
            },
            Err(error) => {
                assert(first_failure(all, it.index()));
                return Err(error);
            },
        }
    }
    assert(all.take(all.len() as int) =~= all);
    Ok(set)
}

/// `reading` is how an entry can read: its variables are expanded first, and
/// `parse` then has the whole of what comes out.
pub open spec fn reads_as<P: Fn(&String) -> Result<SocketAddr, String>>(
    parse: P,
    entry: Seq<char>,
    reading: Result<SocketAddr, AddressError>,
) -> bool {
    match reading {
        Ok(addr) => exists|expanded: String|
            expansion(entry, Ok(expanded)) && #[trigger] parse.ensures(
                (&expanded,),
                Ok(addr),
            ),
        Err(AddressError::Unexpanded(failure)) => expansion(entry, Err(failure)),
        Err(AddressError::Unparsed { expanded, reason }) => {
            &&& expansion(entry, Ok(expanded))
            &&& parse.ensures((&expanded,), Err(reason))
        },
    }
}

/// Every entry reads as its reading says.
pub open spec fn all_read_as<P: Fn(&String) -> Result<SocketAddr, String>>(
    parse: P,
    entries: Seq<String>,
    readings: Seq<Result<SocketAddr, AddressError>>,
) -> bool {
    &&& readings.len() <= entries.len()
    &&& forall|j: int|
        0 <= j < readings.len() ==> reads_as(parse, entries[j]@, #[trigger] readings[j])
}

/// `r` is how a list of entries reads: as the set of what its entries read as,
/// or not for its first entry that does not.
pub open spec fn list_reads_as<P: Fn(&String) -> Result<SocketAddr, String>>(
    parse: P,
    raw: Seq<String>,
    r: Result<AddressSet, AddressError>,
) -> bool {
    exists|readings: Seq<Result<SocketAddr, AddressError>>|
        {
            &&& #[trigger] all_read_as(parse, raw, readings)
            &&& match r {
                Ok(set) => {
                    &&& readings.len() == raw.len()
                    &&& forall|j: int| 0 <= j < readings.len() ==> (#[trigger] readings[j]) is Ok
                    &&& set.order() == addresses_of(readings)
                },
                Err(error) => {
                    &&& first_failure(readings, readings.len() - 1)
                    &&& readings.last() == Err::<SocketAddr, _>(error)
                },
            }
        }
}

fn read_address<P: Fn(&String) -> Result<SocketAddr, String>>(entry: &str, parse: &P) -> (reading:
    Result<SocketAddr, AddressError>)
    requires
        forall|s: &String| #[trigger] parse.requires((s,)),
    ensures
        reads_as(*parse, entry@, reading),
{
    match expand_string(entry) {
        Err(failure) => Err(AddressError::Unexpanded(failure)),
        Ok(expanded) => match parse(&expanded) {
            Ok(addr) => Ok(addr),
            Err(reason) => Err(AddressError::Unparsed { expanded, reason }),
        },
    }
}

/// Expands the environment variables in each entry and reads what comes out
/// as a socket address, so that a variable may supply the host, the port or
/// the whole value. `parse` reads one address or says why it cannot.
pub fn expand_socket_addrs<P: Fn(&String) -> Result<SocketAddr, String>>(
    raw: &Vec<String>,
    parse: &P,
) -> (r: Result<AddressSet, AddressError>)
    requires
        forall|s: &String| #[trigger] parse.requires((s,)),
    ensures
        list_reads_as(*parse, raw@, r),
{
    let mut readings: Vec<Result<SocketAddr, AddressError>> = Vec::new();
    let mut i: usize = 0;
    let mut failed = false;
    while i < raw.len() && !failed
        invariant
            forall|s: &String| #[trigger] parse.requires((s,)),
            i <= raw@.len(),
            readings@.len() == i,
            all_read_as(*parse, raw@, readings@),
            failed ==> first_failure(readings@, i - 1),
            !failed ==> forall|j: int| 0 <= j < i ==> (#[trigger] readings@[j]) is Ok,
        decreases raw@.len() - i,
    {
        let reading = read_address(raw[i].as_str(), parse);
        failed = reading.is_err();
        readings.push(reading);
        i += 1;
    }
    let ghost all = readings@;
    let r = collect_addresses(readings);
    proof {
        if r is Err {
            let bad = choose|k: int|
                first_failure(all, k) && #[trigger] all[k] == Err::<SocketAddr, _>(r->Err_0);
            assert(failed);
            assert(bad == all.len() - 1);
        } else if failed {
            assert(all[all.len() - 1] is Ok);
        }
        assert(all_read_as(*parse, raw@, all));
    }
    r
}

/// A set read from a list holds exactly the addresses in the list, and none of
/// them twice.
pub proof fn a_set_holds_its_entries(
    readings: Seq<Result<SocketAddr, AddressError>>,
    addr: SocketAddr,
)
    ensures
        addresses_of(readings).contains(addr) <==> readings.contains(Ok(addr)),
        addresses_of(readings).no_duplicates(),
    decreases readings.len(),
{
    if readings.len() > 0 {
        let before = readings.drop_last();
        a_set_holds_its_entries(before, addr);
        let earlier = addresses_of(before);
        let last = readings.last();
        assert(readings =~= before.push(last));
        assert(readings.contains(Ok(addr)) <==> before.contains(Ok(addr)) || last == Ok::<
            _,
            AddressError,
        >(addr)) by {
            if before.contains(Ok(addr)) {
                let k = choose|k: int| 0 <= k < before.len() && before[k] == Ok::<_, AddressError>(addr);
                assert(readings[k] == before[k]);
            }
            if last == Ok::<_, AddressError>(addr) {
                assert(readings[readings.len() - 1] == last);
            }
            if readings.contains(Ok(addr)) && last != Ok::<_, AddressError>(addr) {
                let k = choose|k: int|
                    0 <= k < readings.len() && readings[k] == Ok::<_, AddressError>(addr);
                assert(before[k] == readings[k]);
            }
        }
        if let Ok(new) = last {
            if !earlier.contains(new) {
                let now = earlier.push(new);
                assert(now[now.len() - 1] == new);
                if earlier.contains(addr) {
                    let k = choose|k: int| 0 <= k < earlier.len() && earlier[k] == addr;
                    assert(now[k] == addr);
                }
                if now.contains(addr) && addr != new {
                    let k = choose|k: int| 0 <= k < now.len() && now[k] == addr;
                    assert(earlier[k] == addr);
                }
            }
        }
    }
}

/// 127.0.0.1 is 127.0.0.1, on every port: its octets are 127, 0, 0 and 1.
pub proof fn localhost_is_this_machine(port: u16)
    ensures
        localhost(port) == (SocketAddr::V4 {
            ipv4: (((127 * 256 + 0) * 256 + 0) * 256 + 1) as u32,
            port,
        }),
{
}

/// Adding an address puts it behind the others, which stay where they are; one
/// that is there already changes nothing.
pub proof fn addresses_are_added_behind(addrs: Seq<SocketAddr>, addr: SocketAddr)
    ensures
        with_address(addrs, addr).contains(addr),
        addrs.is_prefix_of(with_address(addrs, addr)),
        addrs.contains(addr) <==> with_address(addrs, addr).len() == addrs.len(),
        !addrs.contains(addr) ==> with_address(addrs, addr).len() == addrs.len() + 1
            && with_address(addrs, addr).last() == addr,
{
    let now = with_address(addrs, addr);
    assert(addrs =~= now.subrange(0, addrs.len() as int));
    if !addrs.contains(addr) {
        assert(now[now.len() - 1] == addr);
    }
}

/// A set keeps the order of its list: what a longer list adds comes behind.
pub proof fn sets_keep_the_order_of_their_list(
    readings: Seq<Result<SocketAddr, AddressError>>,
    more: Seq<Result<SocketAddr, AddressError>>,
)
    ensures
        addresses_of(readings).is_prefix_of(addresses_of(readings + more)),
    decreases more.len(),
{
    let all = readings + more;
    if more.len() == 0 {
        assert(all =~= readings);
    } else {
        sets_keep_the_order_of_their_list(readings, more.drop_last());
        assert(all.drop_last() =~= readings + more.drop_last());
        let before = addresses_of(all.drop_last());
        let now = addresses_of(all);
        if let Ok(addr) = all.last() {
            addresses_are_added_behind(before, addr);
        }
        assert(before =~= now.subrange(0, before.len() as int));
        let kept = addresses_of(readings);
        assert(kept =~= now.subrange(0, kept.len() as int)) by {
            assert forall|i: int| 0 <= i < kept.len() implies kept[i] == now[i] by {
                assert(before.subrange(0, kept.len() as int)[i] == before[i]);
                assert(now.subrange(0, before.len() as int)[i] == now[i]);
            }
        }
    }
}

/// An entry without variables is read as it is: nothing about it fails to
/// expand, and the parser has the very text, whether it reads or not.
pub proof fn plain_entries_are_read_as_they_are<P: Fn(&String) -> Result<SocketAddr, String>>(
    parse: P,
    entry: Seq<char>,
    reading: Result<SocketAddr, AddressError>,
)
    requires
        plain(entry),
        reads_as(parse, entry, reading),
    ensures
        match reading {
            Ok(addr) => exists|text: String|
                text@ == entry && #[trigger] parse.ensures((&text,), Ok(addr)),
            Err(AddressError::Unparsed { expanded, reason }) => expanded@ == entry && parse.ensures(
                (&expanded,),
                Err(reason),
            ),
            Err(AddressError::Unexpanded(_)) => false,
        },
{
    match reading {
        Ok(addr) => {
            let expanded = choose|expanded: String|
                expansion(entry, Ok(expanded)) && #[trigger] parse.ensures((&expanded,), Ok(addr));
            plain_texts_stay(entry, Ok(expanded));
        },
        Err(AddressError::Unparsed { expanded, reason }) => {
            plain_texts_stay(entry, Ok(expanded));
        },
        Err(AddressError::Unexpanded(failure)) => {
            plain_texts_stay(entry, Err(failure));
        },
    }
}

/// An error shows the entry that it is about, and says all that the parser said.
pub proof fn address_errors_show_their_entry(error: AddressError, quoted: Seq<char>)
    ensures
        error matches AddressError::Unparsed { expanded, reason } ==> {
            &&& error.entry() == expanded@
            &&& occurs(error.text(quoted), quoted)
            &&& reason@.is_suffix_of(error.text(quoted))
        },
        error matches AddressError::Unexpanded(failure) ==> error.text(quoted) == failure.text(),
{
    if let AddressError::Unparsed { expanded, reason } = error {
        let text = error.text(quoted);
        let before = "invalid socket address "@;
        let between = " (expected host:port): "@;
        a_text_occurs_between_others(before, quoted, between + reason@);
        assert(text =~= before + quoted + (between + reason@));
        assert(reason@ =~= text.subrange(text.len() - reason@.len(), text.len() as int));
    }
}

/// A list that reads gives a set of what its entries say: each entry without
/// variables has what the parser makes of it in the set, and each address of the
/// set is what some entry reads as.
pub proof fn lists_read_entry_by_entry<P: Fn(&String) -> Result<SocketAddr, String>>(
    parse: P,
    raw: Seq<String>,
    set: AddressSet,
    i: int,
    addr: SocketAddr,
)
    requires
        list_reads_as(parse, raw, Ok(set)),
    ensures
        0 <= i < raw.len() && plain(raw[i]@) ==> exists|text: String, read: SocketAddr|
            {
                &&& text@ == raw[i]@
                &&& #[trigger] parse.ensures((&text,), Ok(read))
                &&& set.order().contains(read)
            },
        set.order().contains(addr) ==> exists|j: int|
            0 <= j < raw.len() && #[trigger] reads_as(parse, raw[j]@, Ok(addr)),
        raw.len() == 0 ==> set.order().len() == 0,
        set.order().no_duplicates(),
{
    let readings = choose|readings: Seq<Result<SocketAddr, AddressError>>|
        {
            &&& #[trigger] all_read_as(parse, raw, readings)
            &&& readings.len() == raw.len()
            &&& forall|j: int| 0 <= j < readings.len() ==> (#[trigger] readings[j]) is Ok
            &&& set.order() == addresses_of(readings)
        };
    a_set_holds_its_entries(readings, addr);
    if 0 <= i < raw.len() && plain(raw[i]@) {
        assert(readings[i] is Ok);
        let read = readings[i]->Ok_0;
        assert(readings.contains(Ok(read)));
        a_set_holds_its_entries(readings, read);
        plain_entries_are_read_as_they_are(parse, raw[i]@, readings[i]);
    }
    if set.order().contains(addr) {
        let j = choose|j: int|
            0 <= j < readings.len() && readings[j] == Ok::<_, AddressError>(addr);
        assert(reads_as(parse, raw[j]@, readings[j]));
    }
}

/// Whether an entry reads as an address.
pub open spec fn is_address<P: Fn(&String) -> Result<SocketAddr, String>>(
    parse: P,
    entry: Seq<char>,
) -> bool {
    exists|addr: SocketAddr| #[trigger] reads_as(parse, entry, Ok(addr))
}

/// A list does not read exactly for an entry of its own, with the error of that
/// entry, and every entry before it reads.
pub proof fn lists_fail_for_their_first_bad_entry<P: Fn(&String) -> Result<SocketAddr, String>>(
    parse: P,
    raw: Seq<String>,
    error: AddressError,
) -> (bad: int)
    requires
        list_reads_as(parse, raw, Err(error)),
    ensures
        0 <= bad < raw.len(),
        reads_as(parse, raw[bad]@, Err(error)),
        forall|j: int| 0 <= j < bad ==> is_address(parse, (#[trigger] raw[j])@),
{
    let readings = choose|readings: Seq<Result<SocketAddr, AddressError>>|
        {
            &&& #[trigger] all_read_as(parse, raw, readings)
            &&& first_failure(readings, readings.len() - 1)
            &&& readings.last() == Err::<SocketAddr, _>(error)
        };
    let bad = readings.len() - 1;
    assert(reads_as(parse, raw[bad]@, readings[bad]));
    assert forall|j: int| 0 <= j < bad implies is_address(parse, (#[trigger] raw[j])@) by {
        assert(readings[j] is Ok);
        assert(reads_as(parse, raw[j]@, readings[j]));
        assert(reads_as(parse, raw[j]@, Ok(readings[j]->Ok_0)));
    }
    bad
}

} // verus!
