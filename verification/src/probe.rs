use vstd::prelude::*;
use crate::addr::Ipv6Address;

verus! {

/// The address side of one enumerated (interface, address) pair. The
/// probe keeps no detail of an IPv4 address: it only ever discards them.
pub enum EntryAddr {
    V4,
    V6(Ipv6Address),
}

/// One (interface name, address) pair as the host's enumeration yields it.
pub struct IfaceEntry {
    pub name: String,
    pub addr: EntryAddr,
}

/// The host's address enumeration failed.
pub struct ProbeError {
    pub message: String,
}

impl ProbeError {
    pub fn describe(&self) -> (r: String)
        ensures
            r@ == self.message@,
    {
        self.message.clone()
    }
}

impl IfaceEntry {
    /// The entry belongs to the interface called `name` and carries a
    /// globally routable IPv6 address.
    pub open spec fn is_global_v6_on(self, name: Seq<char>) -> bool {
        &&& self.name@ == name
        &&& match self.addr {
            EntryAddr::V6(a) => a.is_global(),
            EntryAddr::V4 => false,
        }
    }

    /// The IPv6 address an entry carries.
    pub open spec fn v6_addr(self) -> Ipv6Address
        recommends
            self.addr is V6,
    {
        match self.addr {
            EntryAddr::V6(a) => a,
            EntryAddr::V4 => Ipv6Address { bits: 0 },
        }
    }
}

/// The global IPv6 addresses among `entries` that are bound to the
/// interface called `name`, in enumeration order.
pub open spec fn global_v6_of(entries: Seq<IfaceEntry>, name: Seq<char>) -> Seq<Ipv6Address>
    decreases entries.len(),
{
    if entries.len() == 0 {
        Seq::empty()
    } else {
        let prefix = global_v6_of(entries.drop_last(), name);
        if entries.last().is_global_v6_on(name) {
            prefix.push(entries.last().v6_addr())
        } else {
            prefix
        }
    }
}

/// Every address the filter keeps is globally routable.
pub proof fn lemma_global_v6_of_all_global(entries: Seq<IfaceEntry>, name: Seq<char>)
    ensures
        forall|i: int|
            0 <= i < global_v6_of(entries, name).len() ==> #[trigger] global_v6_of(
                entries,
                name,
            )[i].is_global(),
    decreases entries.len(),
{
    if entries.len() > 0 {
        lemma_global_v6_of_all_global(entries.drop_last(), name);
        let prefix = global_v6_of(entries.drop_last(), name);
        let whole = global_v6_of(entries, name);
        if entries.last().is_global_v6_on(name) {
            assert forall|i: int| 0 <= i < whole.len() implies #[trigger] whole[i].is_global() by {
                if i < prefix.len() {
                    assert(whole[i] == prefix[i]);
                } else {
                    assert(whole[i] == entries.last().v6_addr());
                }
            }
        }
    }
}

/// Keeps exactly the entries of `entries` that are bound to the interface
/// called `interface` and carry a globally routable IPv6 address, in
/// their original order.
pub fn filter_global_v6(entries: &Vec<IfaceEntry>, interface: &String) -> (r: Vec<Ipv6Address>)
    ensures
        r@ == global_v6_of(entries@, interface@),
{
    let mut out: Vec<Ipv6Address> = Vec::new();
    let n: usize = entries.len();
    let mut i: usize = 0;
    while i < n
        invariant
            i <= n,
            n == entries@.len(),
            out@ == global_v6_of(entries@.take(i as int), interface@),
        decreases n - i,
    {
        let e = &entries[i];
        match &e.addr {
            EntryAddr::V6(a) => {
                if e.name == *interface && a.classify_global() {
                    out.push(*a);
                }
            },
            EntryAddr::V4 => {},
        }
        proof {
            assert(entries@.take(i + 1).drop_last() =~= entries@.take(i as int));
            assert(entries@.take(i + 1).last() == entries@[i as int]);
        }
        i = i + 1;
    }
    proof {
        assert(entries@.take(n as int) =~= entries@);
    }
    out
}

/// Relies on get_if_addrs::get_if_addrs: it yields one entry per address
/// currently bound to an interface of this host, carrying the interface's
/// name, and fails exactly when the underlying address enumeration fails.
#[verifier::external_body]
fn enumerate_host_addresses() -> (r: Result<Vec<IfaceEntry>, ProbeError>) {
    match get_if_addrs::get_if_addrs() {
        Ok(list) => Ok(
            list.into_iter().map(|e| IfaceEntry {
                name: e.name,
                addr: match e.addr {
                    get_if_addrs::IfAddr::V4(_) => EntryAddr::V4,
                    get_if_addrs::IfAddr::V6(a) =>
                        EntryAddr::V6(Ipv6Address { bits: u128::from(a.ip) }),
                },
            }).collect(),
        ),
        Err(e) => Err(ProbeError { message: format!("{e}") }),
    }
}

/// Queries the host for the addresses bound to the interface called
/// `interface` and keeps the globally routable IPv6 ones, in enumeration
/// order. An unknown interface name yields an empty list; only a failure
/// of the enumeration itself is an error. What the host's enumeration
/// yields depends on the host, so of a successful result only the
/// classification of every kept address can be promised here; the exact
/// filtering of any given enumeration is `filter_global_v6`'s contract.
pub fn probe(interface: &String) -> (r: Result<Vec<Ipv6Address>, ProbeError>)
    ensures
        match r {
            Ok(addrs) => forall|i: int|
                0 <= i < addrs@.len() ==> #[trigger] addrs@[i].is_global(),
            Err(_) => true,
        },
{
    match enumerate_host_addresses() {
        Ok(entries) => {
            let addrs = filter_global_v6(&entries, interface);
            proof {
                lemma_global_v6_of_all_global(entries@, interface@);
            }
            Ok(addrs)
        },
        Err(e) => Err(e),
    }
}

} // verus!
