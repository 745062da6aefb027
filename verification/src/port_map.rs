//! How the ports of a service map to ports of the proxy.

use crate::replaced_service::ServicePortMapping;
use crate::service::{
    forwarded_port, make_forwarded_port, IntOrStringView, ServicePort, ServicePortView,
};
use crate::text::{decimal, decimal_text};
use std::collections::HashMap;
use vstd::prelude::*;
use vstd::string::*;

verus! {

broadcast use vstd::std_specs::hash::group_hash_axioms;

/// The proxy port of the first mapping that names this port of the service.
pub open spec fn mapped(mappings: Seq<ServicePortMapping>, port: i32) -> Option<i32>
    decreases mappings.len(),
{
    if mappings.len() == 0 {
        None
    } else if mappings[0].original_port == Some(port) {
        Some(mappings[0].proxy_port)
    } else {
        mapped(mappings.skip(1), port)
    }
}

/// The first port of the service that no mapping names.
pub open spec fn first_unmapped(
    service_ports: Seq<i32>,
    mappings: Seq<ServicePortMapping>,
) -> Option<i32>
    decreases service_ports.len(),
{
    if service_ports.len() == 0 {
        None
    } else if mapped(mappings, service_ports[0]) is None {
        Some(service_ports[0])
    } else {
        first_unmapped(service_ports.skip(1), mappings)
    }
}

/// The proxy port of each port of the service, or why there is none. The mapping of a
/// service with one port need not name that port; but then it must be the only one.
pub open spec fn port_map(
    service_ports: Seq<i32>,
    mappings: Seq<ServicePortMapping>,
) -> Result<Map<i32, i32>, Seq<char>> {
    if service_ports.len() > 1 {
        match first_unmapped(service_ports, mappings) {
            Some(port) => Err(
                "Service has multiple ports, missing proxy port defined for "@ + decimal(
                    port as int,
                ),
            ),
            None => Ok(
                Map::new(
                    |port: i32| service_ports.contains(port),
                    |port: i32| mapped(mappings, port)->0,
                ),
            ),
        }
    } else if mappings.len() == 0 {
        Err("Service has no ports defined"@)
    } else if mappings.len() == 1 {
        Ok(map![service_ports[0] => mappings[0].proxy_port])
    } else {
        Err("ReplacedService has multiple ports, while the service itself only has 1 port defined"@)
    }
}

fn find_mapped(mappings: &Vec<ServicePortMapping>, port: i32) -> (found: Option<i32>)
    ensures
        found == mapped(mappings@, port),
{
    let len: usize = mappings.len();
    proof {
        assert(mappings@.skip(0) == mappings@);
    }
    for i in 0..len
        invariant
            len == mappings.len(),
            mapped(mappings@, port) == mapped(mappings@.skip(i as int), port),
    {
        proof {
            assert(mappings@.skip(i as int)[0] == mappings@[i as int]);
            assert(mappings@.skip(i as int).skip(1) == mappings@.skip(i + 1));
        }
        match mappings[i].original_port {
            Some(original_port) => {
                if original_port == port {
                    return Some(mappings[i].proxy_port);
                }
            },
            None => {},
        }
    }
    None
}

/// Maps each port of a service to its proxy port. Where that cannot be done, says why.
pub fn generate_port_map(
    service_ports: &Vec<i32>,
    mappings: &Vec<ServicePortMapping>,
) -> (result: Result<HashMap<i32, i32>, String>)
    requires
        service_ports@.len() > 0,
    ensures
        match result {
            Ok(map) => port_map(service_ports@, mappings@) == Ok::<Map<i32, i32>, Seq<char>>(map@),
            Err(warning) => port_map(service_ports@, mappings@) == Err::<Map<i32, i32>, Seq<char>>(
                warning@,
            ),
        },
{
    let mut map: HashMap<i32, i32> = HashMap::new();
    if service_ports.len() > 1 {
        let len: usize = service_ports.len();
        proof {
            assert(service_ports@.skip(0) == service_ports@);
        }
        for i in 0..len
            invariant
                len == service_ports.len(),
                len > 1,
                first_unmapped(service_ports@, mappings@) == first_unmapped(
                    service_ports@.skip(i as int),
                    mappings@,
                ),
                forall|port: i32| #[trigger]
                    map@.contains_key(port) == service_ports@.take(i as int).contains(port),
                forall|port: i32| #[trigger]
                    map@.contains_key(port) ==> mapped(mappings@, port) == Some(map@[port]),
        {
            let service_port: i32 = service_ports[i];
            proof {
                assert(service_ports@.skip(i as int)[0] == service_port);
                assert(service_ports@.skip(i as int).skip(1) == service_ports@.skip(i + 1));
            }
            match find_mapped(mappings, service_port) {
                Some(proxy_port) => {
                    let ghost before = map@;
                    map.insert(service_port, proxy_port);
                    proof {
                        let seen = service_ports@.take(i as int);
                        assert(service_ports@.take(i + 1) =~= seen.push(service_port));
                        assert forall|port: i32| #[trigger]
                            map@.contains_key(port) == service_ports@.take(i + 1).contains(
                                port,
                            ) by {
                            assert(before.contains_key(port) == seen.contains(port));
                            if seen.contains(port) {
                                let j = choose|j: int| 0 <= j < seen.len() && seen[j] == port;
                                assert(seen.push(service_port)[j] == port);
                            }
                            if seen.push(service_port).contains(port) && port != service_port {
                                let j = choose|j: int|
                                    0 <= j < seen.push(service_port).len() && seen.push(
                                        service_port,
                                    )[j] == port;
                                assert(seen[j] == port);
                            }
                            assert(seen.push(service_port)[i as int] == service_port);
                        }
                    }
                },
                None => {
                    let number = decimal_text(service_port);
                    return Err(
                        "Service has multiple ports, missing proxy port defined for ".to_string().concat(
                            number.as_str(),
                        ),
                    );
                },
            }
        }
        proof {
            assert(service_ports@.take(len as int) =~= service_ports@);
            assert(map@ =~= port_map(service_ports@, mappings@)->Ok_0);
        }
        Ok(map)
    } else if mappings.len() == 0 {
        Err("Service has no ports defined".to_string())
    } else if mappings.len() == 1 {
        map.insert(service_ports[0], mappings[0].proxy_port);
        proof {
            assert(map@ =~= map![service_ports@[0] => mappings@[0].proxy_port]);
        }
        Ok(map)
    } else {
        Err(
            "ReplacedService has multiple ports, while the service itself only has 1 port defined".to_string(),
        )
    }
}

/// A list has every entry of a map once, in any order.
pub open spec fn lists(listing: Seq<(i32, i32)>, map: Map<i32, i32>) -> bool {
    &&& forall|i: int|
        0 <= i < listing.len() ==> map.contains_key((#[trigger] listing[i]).0)
            && map[listing[i].0] == listing[i].1
    &&& forall|port: i32| #[trigger]
        map.contains_key(port) ==> exists|i: int|
            0 <= i < listing.len() && #[trigger] listing[i].0 == port
    &&& forall|i: int, j: int|
        0 <= i < listing.len() && 0 <= j < listing.len() && (#[trigger] listing[i]).0 == (
        #[trigger] listing[j]).0 ==> i == j
}

/// The ports of the test service, one for each entry.
pub open spec fn forwarded(listing: Seq<(i32, i32)>) -> Seq<ServicePortView> {
    listing.map_values(|entry: (i32, i32)| forwarded_port(entry.0, entry.1))
}

/// Builds the ports of the test service. They come in the order in which the map is
/// walked, which is not fixed.
pub fn forwarded_ports(map: &HashMap<i32, i32>) -> (ports: Vec<ServicePort>)
    ensures
        exists|listing: Seq<(i32, i32)>|
            lists(listing, map@) && ports.deep_view() == #[trigger] forwarded(listing),
{
    let mut ports: Vec<ServicePort> = Vec::new();
    let ghost mut listing: Seq<(i32, i32)> = Seq::empty();
    let iter = map.iter();
    let ghost entries = vstd::std_specs::iter::IteratorSpec::remaining(&iter);
    for entry in walk: iter
        invariant
            walk.seq() == entries,
            listing.len() == walk.index(),
            ports.len() == listing.len(),
            forall|i: int|
                0 <= i < listing.len() ==> (#[trigger] listing[i]).0 == *walk.seq()[i].0
                    && listing[i].1 == *walk.seq()[i].1,
            forall|i: int|
                0 <= i < listing.len() ==> (#[trigger] ports@[i])@ == forwarded_port(
                    listing[i].0,
                    listing[i].1,
                ),
    {
        let (service_port, proxy_port) = entry;
        ports.push(make_forwarded_port(*service_port, *proxy_port));
        proof {
            listing = listing.push((*service_port, *proxy_port));
        }
    }
    proof {
        assert(ports.deep_view() =~= forwarded(listing));
        assert(listing.len() == entries.len());
        assert forall|i: int| 0 <= i < listing.len() implies map@.contains_key(
            (#[trigger] listing[i]).0,
        ) && map@[listing[i].0] == listing[i].1 by {
            assert(map@.contains_key(*entries[i].0));
        }
        assert forall|port: i32| #[trigger] map@.contains_key(port) implies exists|i: int|
            0 <= i < listing.len() && #[trigger] listing[i].0 == port by {
            assert(entries.contains((&port, &map@[port])));
            let i = choose|i: int| 0 <= i < entries.len() && entries[i] == (&port, &map@[port]);
            assert(listing[i].0 == port);
        }
        assert forall|i: int, j: int|
            0 <= i < listing.len() && 0 <= j < listing.len() && (#[trigger] listing[i]).0 == (
            #[trigger] listing[j]).0 implies i == j by {
            assert(map@.contains_key(*entries[i].0));
            assert(map@.contains_key(*entries[j].0));
            assert(entries[i] == entries[j]);
        }
        assert(lists(listing, map@));
    }
    ports
}

proof fn lemma_none_unmapped(
    service_ports: Seq<i32>,
    mappings: Seq<ServicePortMapping>,
    port: i32,
)
    requires
        first_unmapped(service_ports, mappings) is None,
        service_ports.contains(port),
    ensures
        mapped(mappings, port) is Some,
    decreases service_ports.len(),
{
    if service_ports[0] != port {
        let i = choose|i: int| 0 <= i < service_ports.len() && service_ports[i] == port;
        assert(service_ports.skip(1)[i - 1] == port);
        lemma_none_unmapped(service_ports.skip(1), mappings, port);
    }
}

/// A mapping that is found is one of those that were given, and names the port.
pub proof fn mapped_port_is_given(mappings: Seq<ServicePortMapping>, port: i32)
    ensures
        mapped(mappings, port) is Some <==> exists|i: int|
            0 <= i < mappings.len() && (#[trigger] mappings[i]).original_port == Some(port),
        mapped(mappings, port) matches Some(proxy_port) ==> exists|i: int|
            0 <= i < mappings.len() && (#[trigger] mappings[i]).original_port == Some(port)
                && mappings[i].proxy_port == proxy_port && forall|j: int|
                0 <= j < i ==> (#[trigger] mappings[j]).original_port != Some(port),
    decreases mappings.len(),
{
    if mappings.len() > 0 && mappings[0].original_port != Some(port) {
        let rest = mappings.skip(1);
        mapped_port_is_given(rest, port);
        if mapped(mappings, port) is Some {
            let i = choose|i: int|
                0 <= i < rest.len() && (#[trigger] rest[i]).original_port == Some(port)
                    && rest[i].proxy_port == mapped(mappings, port)->0 && forall|j: int|
                    0 <= j < i ==> (#[trigger] rest[j]).original_port != Some(port);
            assert(mappings[i + 1] == rest[i]);
            assert forall|j: int| 0 <= j < i + 1 implies (#[trigger] mappings[j]).original_port
                != Some(port) by {
                if j > 0 {
                    assert(rest[j - 1] == mappings[j]);
                }
            }
        } else {
            assert forall|i: int| 0 <= i < mappings.len() implies (
            #[trigger] mappings[i]).original_port != Some(port) by {
                if i > 0 {
                    assert(rest[i - 1] == mappings[i]);
                }
            }
        }
    }
}

/// Where a port map exists, the test service forwards each port of the service, once
/// and nothing else, in whatever order the map is walked; and a port that occurs twice
/// in the service is forwarded once.
pub proof fn every_port_is_forwarded_once(
    service_ports: Seq<i32>,
    mappings: Seq<ServicePortMapping>,
    listing: Seq<(i32, i32)>,
)
    requires
        service_ports.len() > 0,
        port_map(service_ports, mappings) is Ok,
        lists(listing, port_map(service_ports, mappings)->Ok_0),
    ensures
        forall|i: int|
            0 <= i < forwarded(listing).len() ==> service_ports.contains(
                (#[trigger] forwarded(listing)[i]).port,
            ),
        forall|port: i32| #[trigger]
            service_ports.contains(port) ==> exists|i: int|
                0 <= i < forwarded(listing).len() && (#[trigger] forwarded(listing)[i]).port
                    == port,
        forall|i: int, j: int|
            0 <= i < forwarded(listing).len() && 0 <= j < forwarded(listing).len() && (
            #[trigger] forwarded(listing)[i]).port == (#[trigger] forwarded(listing)[j]).port
                ==> i == j,
        service_ports.len() > 1 ==> forall|i: int|
            0 <= i < listing.len() ==> mapped(mappings, (#[trigger] listing[i]).0) == Some(
                listing[i].1,
            ),
{
    let map = port_map(service_ports, mappings)->Ok_0;
    assert forall|port: i32| map.contains_key(port) == service_ports.contains(port) by {
        if service_ports.len() == 1 {
            assert(service_ports[0] == service_ports[0]);
        }
    }
    assert forall|i: int| 0 <= i < forwarded(listing).len() implies service_ports.contains(
        (#[trigger] forwarded(listing)[i]).port,
    ) by {
        assert(map.contains_key(listing[i].0));
    }
    assert forall|port: i32| #[trigger] service_ports.contains(port) implies exists|i: int|
        0 <= i < forwarded(listing).len() && (#[trigger] forwarded(listing)[i]).port == port by {
        assert(map.contains_key(port));
        let i = choose|i: int| 0 <= i < listing.len() && #[trigger] listing[i].0 == port;
        assert(forwarded(listing)[i].port == port);
    }
    assert forall|i: int, j: int|
        0 <= i < forwarded(listing).len() && 0 <= j < forwarded(listing).len() && (
        #[trigger] forwarded(listing)[i]).port == (#[trigger] forwarded(listing)[j]).port implies i
        == j by {
        assert(listing[i].0 == listing[j].0);
    }
    if service_ports.len() > 1 {
        assert forall|i: int| 0 <= i < listing.len() implies mapped(
            mappings,
            (#[trigger] listing[i]).0,
        ) == Some(listing[i].1) by {
            assert(map.contains_key(listing[i].0));
            lemma_none_unmapped(service_ports, mappings, listing[i].0);
        }
    }
}

/// A service with several ports has a port map if and only if each of its ports is
/// named by a mapping; one with a single port, if and only if there is one mapping.
pub proof fn port_map_exists(service_ports: Seq<i32>, mappings: Seq<ServicePortMapping>)
    requires
        service_ports.len() > 0,
    ensures
        service_ports.len() > 1 ==> (port_map(service_ports, mappings) is Ok <==> forall|port: i32|
            #[trigger] service_ports.contains(port) ==> mapped(mappings, port) is Some),
        service_ports.len() == 1 ==> (port_map(service_ports, mappings) is Ok <==> mappings.len()
            == 1),
{
    if first_unmapped(service_ports, mappings) is Some {
        lemma_unmapped(service_ports, mappings);
    } else {
        assert forall|port: i32| #[trigger] service_ports.contains(port) implies mapped(
            mappings,
            port,
        ) is Some by {
            lemma_none_unmapped(service_ports, mappings, port);
        }
    }
}

proof fn lemma_unmapped(service_ports: Seq<i32>, mappings: Seq<ServicePortMapping>)
    requires
        first_unmapped(service_ports, mappings) is Some,
    ensures
        service_ports.contains(first_unmapped(service_ports, mappings)->0),
        mapped(mappings, first_unmapped(service_ports, mappings)->0) is None,
    decreases service_ports.len(),
{
    if mapped(mappings, service_ports[0]) is None {
        assert(service_ports.contains(service_ports[0]));
    } else {
        let rest = service_ports.skip(1);
        lemma_unmapped(rest, mappings);
        let port = first_unmapped(rest, mappings)->0;
        let i = choose|i: int| 0 <= i < rest.len() && rest[i] == port;
        assert(service_ports[i + 1] == port);
    }
}

/// This mapping is the first that names this port of the service.
pub open spec fn names_first(mappings: Seq<ServicePortMapping>, k: int, port: i32) -> bool {
    &&& 0 <= k < mappings.len()
    &&& mappings[k].original_port == Some(port)
    &&& forall|j: int| 0 <= j < k ==> (#[trigger] mappings[j]).original_port != Some(port)
}

/// A service with several ports is mapped as its resource says: the map has exactly the
/// ports of the service, and leads each to the proxy port of the first mapping that names
/// it.
pub proof fn several_ports_follow_their_mappings(
    service_ports: Seq<i32>,
    mappings: Seq<ServicePortMapping>,
    port: i32,
)
    requires
        service_ports.len() > 1,
        port_map(service_ports, mappings) is Ok,
    ensures
        port_map(service_ports, mappings)->Ok_0.contains_key(port) <==> service_ports.contains(
            port,
        ),
        service_ports.contains(port) ==> exists|k: int| #[trigger]
            names_first(mappings, k, port) && port_map(service_ports, mappings)->Ok_0[port]
                == mappings[k].proxy_port,
{
    if service_ports.contains(port) {
        lemma_none_unmapped(service_ports, mappings, port);
        mapped_port_is_given(mappings, port);
        let k = choose|k: int|
            0 <= k < mappings.len() && (#[trigger] mappings[k]).original_port == Some(port)
                && mappings[k].proxy_port == mapped(mappings, port)->0 && forall|j: int|
                0 <= j < k ==> (#[trigger] mappings[j]).original_port != Some(port);
        assert(names_first(mappings, k, port));
    }
}

/// A service with one port and a resource with one mapping belong together, whatever port
/// the mapping names; with no mapping or with several they do not.
pub proof fn single_port_takes_the_only_mapping(
    service_port: i32,
    mappings: Seq<ServicePortMapping>,
    port: i32,
)
    ensures
        mappings.len() == 1 ==> {
            &&& port_map(seq![service_port], mappings) is Ok
            &&& port_map(seq![service_port], mappings)->Ok_0.contains_key(port) <==> port
                == service_port
            &&& port_map(seq![service_port], mappings)->Ok_0[service_port]
                == mappings[0].proxy_port
        },
        mappings.len() == 0 ==> port_map(seq![service_port], mappings) == Err::<
            Map<i32, i32>,
            Seq<char>,
        >("Service has no ports defined"@),
        mappings.len() > 1 ==> port_map(seq![service_port], mappings) == Err::<
            Map<i32, i32>,
            Seq<char>,
        >(
            "ReplacedService has multiple ports, while the service itself only has 1 port defined"@,
        ),
{
}

/// A service with several ports is refused if and only if no mapping names one of them,
/// and what is reported is the first such port.
pub proof fn first_port_without_a_mapping_is_reported(
    service_ports: Seq<i32>,
    mappings: Seq<ServicePortMapping>,
    k: int,
)
    requires
        service_ports.len() > 1,
        0 <= k < service_ports.len(),
        forall|i: int|
            0 <= i < mappings.len() ==> (#[trigger] mappings[i]).original_port != Some(
                service_ports[k],
            ),
        forall|j: int|
            0 <= j < k ==> exists|i: int|
                0 <= i < mappings.len() && (#[trigger] mappings[i]).original_port == Some(
                    #[trigger] service_ports[j],
                ),
    ensures
        port_map(service_ports, mappings) == Err::<Map<i32, i32>, Seq<char>>(
            "Service has multiple ports, missing proxy port defined for "@ + decimal(
                service_ports[k] as int,
            ),
        ),
{
    lemma_first_unmapped(service_ports, mappings, k);
}

proof fn lemma_first_unmapped(
    service_ports: Seq<i32>,
    mappings: Seq<ServicePortMapping>,
    k: int,
)
    requires
        0 <= k < service_ports.len(),
        forall|i: int|
            0 <= i < mappings.len() ==> (#[trigger] mappings[i]).original_port != Some(
                service_ports[k],
            ),
        forall|j: int|
            0 <= j < k ==> exists|i: int|
                0 <= i < mappings.len() && (#[trigger] mappings[i]).original_port == Some(
                    #[trigger] service_ports[j],
                ),
    ensures
        first_unmapped(service_ports, mappings) == Some(service_ports[k]),
    decreases service_ports.len(),
{
    mapped_port_is_given(mappings, service_ports[0]);
    if k > 0 {
        let rest = service_ports.skip(1);
        assert(rest[k - 1] == service_ports[k]);
        assert forall|j: int| 0 <= j < k - 1 implies exists|i: int|
            0 <= i < mappings.len() && (#[trigger] mappings[i]).original_port == Some(
                #[trigger] rest[j],
            ) by {
            assert(rest[j] == service_ports[j + 1]);
        }
        lemma_first_unmapped(rest, mappings, k - 1);
    }
}

/// The test service has one port for each entry of the map, in the order in which the map
/// is walked: it offers the port of the service and leads to the port of the proxy.
pub proof fn entries_become_ports(listing: Seq<(i32, i32)>)
    ensures
        forwarded(listing).len() == listing.len(),
        forall|i: int|
            0 <= i < listing.len() ==> (#[trigger] forwarded(listing)[i]).port == listing[i].0
                && forwarded(listing)[i].target_port == Some(
                IntOrStringView::Int(listing[i].1),
            ),
{
}

/// A list of a map has no more and no fewer entries than the map: each key once, with its
/// value.
pub proof fn listing_is_the_map(listing: Seq<(i32, i32)>, map: Map<i32, i32>, port: i32)
    requires
        lists(listing, map),
    ensures
        map.contains_key(port) <==> exists|i: int|
            0 <= i < listing.len() && (#[trigger] listing[i]).0 == port,
        forall|i: int| 0 <= i < listing.len() ==> map[(#[trigger] listing[i]).0] == listing[i].1,
        listing.no_duplicates(),
{
}

} // verus!
