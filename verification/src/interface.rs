//! Choice of the network interface whose DNS servers are set.

use vstd::prelude::*;

verus! {

/// What is known of one network interface of the host.
#[derive(Clone, Debug)]
pub struct NetworkInterface {
    /// Backed by hardware, as opposed to loopback, tunnel or other virtual
    /// interfaces.
    pub physical: bool,
    /// The IPv4 addresses assigned to it, in text form.
    pub ipv4: Vec<String>,
    /// The gateway it routes through, where one is configured.
    pub gateway: Option<String>,
    /// The name under which the host's network settings list it.
    pub friendly_name: Option<String>,
}

/// The characters of an optional string.
pub open spec fn name_view(name: Option<String>) -> Option<Seq<char>> {
    match name {
        Some(n) => Some(n@),
        None => None,
    }
}

impl NetworkInterface {
    /// An interface can carry the DNS override when it is physical, has at
    /// least one IPv4 address and has a gateway.
    pub open spec fn qualifies(&self) -> bool {
        self.physical && self.ipv4@.len() > 0 && self.gateway is Some
    }

    /// Whether the interface can carry the DNS override.
    pub fn is_active(&self) -> (r: bool)
        ensures
            r == self.qualifies(),
    {
        self.physical && self.ipv4.len() > 0 && self.gateway.is_some()
    }
}

/// `k` is the index of the first interface of `list` that qualifies.
pub open spec fn is_first_active(list: Seq<NetworkInterface>, k: int) -> bool {
    &&& 0 <= k < list.len()
    &&& list[k].qualifies()
    &&& forall|j: int| 0 <= j < k ==> !(#[trigger] list[j]).qualifies()
}

/// No interface of `list` qualifies.
pub open spec fn none_active(list: Seq<NetworkInterface>) -> bool {
    forall|j: int| 0 <= j < list.len() ==> !(#[trigger] list[j]).qualifies()
}

/// The name that `resolve_active_interface` gives for `list`: the friendly
/// name of the first interface that qualifies, in the order of the list.
/// There is none where no interface qualifies, and none where the first that
/// qualifies has no friendly name: later interfaces are not looked at then.
pub open spec fn active_name(list: Seq<NetworkInterface>) -> Option<Seq<char>>
    decreases list.len(),
{
    if list.len() == 0 {
        None
    } else if list[0].qualifies() {
        name_view(list[0].friendly_name)
    } else {
        active_name(list.drop_first())
    }
}

/// `active_name` is the friendly name of the first qualifying interface,
/// and is `None` where none qualifies.
pub proof fn lemma_active_name(list: Seq<NetworkInterface>)
    ensures
        none_active(list) ==> active_name(list) is None,
        forall|k: int|
            is_first_active(list, k) ==> active_name(list) == name_view(
                (#[trigger] list[k]).friendly_name,
            ),
        none_active(list) || exists|k: int| is_first_active(list, k),
    decreases list.len(),
{
    if list.len() == 0 {
    } else if list[0].qualifies() {
        assert(is_first_active(list, 0));
        assert forall|k: int| is_first_active(list, k) implies k == 0 by {
            if k > 0 {
                assert(!list[0].qualifies());
            }
        }
    } else {
        let rest = list.drop_first();
        lemma_active_name(rest);
        assert forall|j: int| 0 <= j < rest.len() implies rest[j] == list[j + 1] by {}
        if none_active(rest) {
            assert forall|j: int| 0 <= j < list.len() implies !(#[trigger] list[j]).qualifies() by {
                if j > 0 {
                    assert(rest[j - 1] == list[j]);
                }
            }
        } else {
            let k = choose|k: int| is_first_active(rest, k);
            assert(is_first_active(list, k + 1)) by {
                assert forall|j: int| 0 <= j < k + 1 implies !(#[trigger] list[j]).qualifies() by {
                    if j > 0 {
                        assert(rest[j - 1] == list[j]);
                    }
                }
            }
        }
        assert forall|k: int| is_first_active(list, k) implies active_name(list) == name_view(
            (#[trigger] list[k]).friendly_name,
        ) by {
            assert(k > 0);
            assert(is_first_active(rest, k - 1)) by {
                assert(rest[k - 1] == list[k]);
                assert forall|j: int| 0 <= j < k - 1 implies !(#[trigger] rest[j]).qualifies() by {
                    assert(rest[j] == list[j + 1]);
                }
            }
            assert(rest[k - 1] == list[k]);
        }
    }
}

/// The friendly name of the first physical interface with an IPv4 address
/// and a gateway.
pub fn resolve_active_interface(interfaces: &Vec<NetworkInterface>) -> (r: Option<String>)
    ensures
        name_view(r) == active_name(interfaces@),
{
    let mut i: usize = 0;
    proof {
        assert(interfaces@.skip(0) =~= interfaces@);
    }
    while i < interfaces.len()
        invariant
            i <= interfaces.len(),
            active_name(interfaces@) == active_name(interfaces@.skip(i as int)),
        decreases interfaces.len() - i,
    {
        let ghost rest = interfaces@.skip(i as int);
        proof {
            assert(rest[0] == interfaces@[i as int]);
            assert(rest.drop_first() =~= interfaces@.skip(i + 1));
        }
        if interfaces[i].is_active() {
            return interfaces[i].friendly_name.clone();
        }
        i += 1;
    }
    proof {
        assert(interfaces@.skip(i as int).len() == 0);
    }
    None
}

} // verus!
