//! The resolver: from a host to the addresses it maps to.

use vstd::prelude::*;
use crate::address::{Endpoint, IpAddress};

verus! {

/// The error type of the standard library's I/O, `std::io::Error`, which the
/// system resolver reports its failures with. Nothing is claimed of what a
/// value of it holds: it is carried through unread.
#[verifier::external_type_specification]
#[verifier::external_body]
pub struct ExIoError(std::io::Error);

/// The port that a host is paired with for the lookup. Only addresses are
/// asked for, so the value carries no meaning and is dropped from the answer.
pub const LOOKUP_PORT: u16 = 443;

/// What is submitted to the system resolver: a host and a port.
#[derive(Debug)]
pub struct LookupRequest {
    pub host: String,
    pub port: u16,
}

/// The system resolver produced no address list for the host. The cause is
/// the resolver's own error, kept as it came.
#[derive(Debug)]
pub struct ResolutionError {
    pub cause: std::io::Error,
}

/// The addresses of a sequence of endpoints, one for one and in the same
/// order. Ports are dropped; repeated addresses stay.
pub open spec fn addresses_of(endpoints: Seq<Endpoint>) -> Seq<IpAddress> {
    endpoints.map_values(|e: Endpoint| e.address)
}

/// Extracts the address of every endpoint, keeping order and repetitions.
pub fn ip_addresses(endpoints: &Vec<Endpoint>) -> (list: Vec<IpAddress>)
    ensures
        list@ == addresses_of(endpoints@),
{
    let mut list: Vec<IpAddress> = Vec::new();
    let mut i: usize = 0;
    while i < endpoints.len()
        invariant
            i <= endpoints.len(),
            list@ == addresses_of(endpoints@.take(i as int)),
        decreases endpoints.len() - i,
    {
        list.push(endpoints[i].address);
        proof {
            assert(endpoints@.take(i + 1) == endpoints@.take(i as int).push(endpoints@[i as int]));
        }
        i += 1;
    }
    proof {
        assert(endpoints@.take(i as int) == endpoints@);
    }
    list
}

/// The request that resolves `host`: the host as given, with the fixed port.
/// The host is not inspected; what is wrong with it is for the resolver to say.
pub fn lookup_request(host: &str) -> (request: LookupRequest)
    ensures
        request.host@ == host@,
        request.port == LOOKUP_PORT,
{
    LookupRequest { host: host.to_owned(), port: LOOKUP_PORT }
}

/// What a lookup comes to, given the system resolver's answer to the request.
///
/// An answer of endpoints gives their addresses, in the resolver's order and
/// with its repetitions, and an empty answer gives an empty list. A failure
/// of the resolver gives a `ResolutionError` around that very failure.
pub fn ip_list_from_lookup(outcome: Result<Vec<Endpoint>, std::io::Error>) -> (result: Result<
    Vec<IpAddress>,
    ResolutionError,
>)
    ensures
        match outcome {
            Ok(endpoints) => result matches Ok(list) && list@ == addresses_of(endpoints@),
            Err(cause) => result matches Err(error) && error.cause == cause,
        },
{
    match outcome {
        Ok(endpoints) => Ok(ip_addresses(&endpoints)),
        Err(cause) => Err(ResolutionError { cause }),
    }
}

/// Every endpoint of an answer contributes exactly its own address, at its
/// own position: nothing is added, dropped, merged or moved.
pub proof fn lemma_addresses_positional(endpoints: Seq<Endpoint>)
    ensures
        addresses_of(endpoints).len() == endpoints.len(),
        forall|i: int|
            0 <= i < endpoints.len() ==> #[trigger] addresses_of(endpoints)[i]
                == endpoints[i].address,
{
}

/// An answer of a single endpoint gives exactly one address, that endpoint's.
pub proof fn lemma_single_endpoint_single_address(endpoint: Endpoint)
    ensures
        addresses_of(seq![endpoint]) == seq![endpoint.address],
{
}

/// Two answers that hold the same endpoints, in whatever order and however
/// often, give the same set of addresses.
pub proof fn lemma_same_endpoints_same_addresses(first: Seq<Endpoint>, second: Seq<Endpoint>)
    requires
        first.to_set() == second.to_set(),
    ensures
        addresses_of(first).to_set() == addresses_of(second).to_set(),
{
    let address = |e: Endpoint| e.address;
    first.lemma_to_set_map_commutes(address);
    second.lemma_to_set_map_commutes(address);
}

/// Two answers that are reorderings of one another give address lists that
/// are reorderings of one another: each address occurs equally often in both.
pub proof fn lemma_reordering_keeps_addresses(first: Seq<Endpoint>, second: Seq<Endpoint>)
    requires
        first.to_multiset() == second.to_multiset(),
    ensures
        addresses_of(first).to_multiset() == addresses_of(second).to_multiset(),
    decreases first.len(),
{
    broadcast use vstd::seq_lib::group_to_multiset_ensures;

    first.to_multiset_ensures();
    second.to_multiset_ensures();
    if first.len() == 0 {
        assert(addresses_of(first) == addresses_of(second));
    } else {
        let last = first.last();
        let rest = first.drop_last();
        assert(first == rest.push(last));
        assert(second.contains(last)) by {
            assert(first.to_multiset().count(last) > 0);
        }
        let j = choose|j: int| 0 <= j < second.len() && second[j] == last;
        let others = second.remove(j);
        assert(others.to_multiset() == rest.to_multiset());
        lemma_reordering_keeps_addresses(rest, others);
        assert(addresses_of(first) == addresses_of(rest).push(last.address));
        assert(addresses_of(others) == addresses_of(second).remove(j));
        assert(addresses_of(second).to_multiset() == addresses_of(others).to_multiset().insert(
            last.address,
        ));
    }
}

} // verus!
