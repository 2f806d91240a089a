//! Choosing the address to test against among those a host resolves to.

use vstd::prelude::*;

verus! {

/// An IP address by its numeric value.
#[derive(PartialEq, Eq, Structural, Clone, Copy, Debug)]
pub enum IpAddress {
    /// An IPv4 address.
    V4(u32),
    /// An IPv6 address.
    V6(u128),
}

/// An IP address with a port.
#[derive(PartialEq, Eq, Structural, Clone, Copy, Debug)]
pub struct SocketAddress {
    /// The address.
    pub ip: IpAddress,
    /// The port.
    pub port: u16,
}

impl SocketAddress {
    /// Whether the address is an IPv4 address.
    pub open spec fn spec_is_ipv4(&self) -> bool {
        self.ip is V4
    }

    /// Whether the address is an IPv4 address.
    #[verifier::when_used_as_spec(spec_is_ipv4)]
    pub fn is_ipv4(&self) -> (b: bool)
        ensures
            b == self.spec_is_ipv4(),
    {
        match self.ip {
            IpAddress::V4(_) => true,
            IpAddress::V6(_) => false,
        }
    }
}

/// The first address of the given family (`v4`: IPv4, else IPv6).
pub open spec fn first_of_family(s: Seq<SocketAddress>, v4: bool) -> Option<SocketAddress>
    decreases s.len(),
{
    if s.len() == 0 {
        None
    } else if s[0].spec_is_ipv4() == v4 {
        Some(s[0])
    } else {
        first_of_family(s.drop_first(), v4)
    }
}

/// The address to use among the resolved `candidates`: with `force_ipv4` the
/// first IPv4 one, else with `force_ipv6` the first IPv6 one, else the first
/// IPv4 one, then the first IPv6 one, then the first one.
pub open spec fn chosen_address(
    candidates: Seq<SocketAddress>,
    force_ipv4: bool,
    force_ipv6: bool,
) -> Option<SocketAddress> {
    if force_ipv4 {
        first_of_family(candidates, true)
    } else if force_ipv6 {
        first_of_family(candidates, false)
    } else if first_of_family(candidates, true).is_some() {
        first_of_family(candidates, true)
    } else if first_of_family(candidates, false).is_some() {
        first_of_family(candidates, false)
    } else if candidates.len() > 0 {
        Some(candidates[0])
    } else {
        None
    }
}

proof fn lemma_first_of_family(s: Seq<SocketAddress>, v4: bool)
    ensures
        match first_of_family(s, v4) {
            Some(a) => a.spec_is_ipv4() == v4 && s.contains(a),
            None => forall|i: int| 0 <= i < s.len() ==> (#[trigger] s[i]).spec_is_ipv4() != v4,
        },
    decreases s.len(),
{
    if s.len() > 0 {
        lemma_first_of_family(s.drop_first(), v4);
        if s[0].spec_is_ipv4() != v4 {
            match first_of_family(s.drop_first(), v4) {
                Some(a) => {
                    let j = choose|j: int| 0 <= j < s.drop_first().len() && s.drop_first()[j] == a;
                    assert(s[j + 1] == a);
                },
                None => {
                    assert forall|i: int| 0 <= i < s.len() implies (#[trigger] s[i]).spec_is_ipv4() != v4 by {
                        if i > 0 {
                            assert(s[i] == s.drop_first()[i - 1]);
                        }
                    }
                },
            }
        } else {
            assert(s[0] == s[0]);
        }
    }
}

/// The chosen address is one of the candidates; a forced family is
/// respected; without one, IPv4 is preferred; and nothing is chosen only
/// when no candidate fits.
pub proof fn law_address_choice(candidates: Seq<SocketAddress>, force_ipv4: bool, force_ipv6: bool)
    ensures
        match chosen_address(candidates, force_ipv4, force_ipv6) {
            Some(a) => {
                &&& candidates.contains(a)
                &&& force_ipv4 ==> a.spec_is_ipv4()
                &&& (!force_ipv4 && force_ipv6) ==> !a.spec_is_ipv4()
                &&& (!force_ipv4 && !force_ipv6 && exists|i: int|
                    0 <= i < candidates.len() && (#[trigger] candidates[i]).spec_is_ipv4())
                    ==> a.spec_is_ipv4()
            },
            None => if force_ipv4 {
                forall|i: int| 0 <= i < candidates.len() ==> !(#[trigger] candidates[i]).spec_is_ipv4()
            } else if force_ipv6 {
                forall|i: int| 0 <= i < candidates.len() ==> (#[trigger] candidates[i]).spec_is_ipv4()
            } else {
                candidates.len() == 0
            },
        },
{
    lemma_first_of_family(candidates, true);
    lemma_first_of_family(candidates, false);
    if !force_ipv4 && !force_ipv6 && first_of_family(candidates, true).is_none()
        && first_of_family(candidates, false).is_none() && candidates.len() > 0 {
        assert(candidates[0].spec_is_ipv4() || !candidates[0].spec_is_ipv4());
    }
}

proof fn lemma_first_of_family_index(s: Seq<SocketAddress>, v4: bool)
    ensures
        first_of_family(s, v4) is Some ==> exists|j: int|
            0 <= j < s.len() && s[j] == first_of_family(s, v4).unwrap() && (s[j].ip is V4) == v4
                && forall|i: int| 0 <= i < j ==> (#[trigger] s[i].ip is V4) != v4,
    decreases s.len(),
{
    if s.len() > 0 {
        lemma_first_of_family_index(s.drop_first(), v4);
        if s[0].spec_is_ipv4() != v4 && first_of_family(s.drop_first(), v4) is Some {
            let t = s.drop_first();
            let j = choose|j: int|
                0 <= j < t.len() && t[j] == first_of_family(t, v4).unwrap() && (t[j].ip is V4) == v4
                    && forall|i: int| 0 <= i < j ==> (#[trigger] t[i].ip is V4) != v4;
            assert(s[j + 1] == t[j]);
            assert forall|i: int| 0 <= i < j + 1 implies (#[trigger] s[i].ip is V4) != v4 by {
                if i > 0 {
                    assert(s[i] == t[i - 1]);
                }
            }
        }
    }
}

/// The chosen address is the first candidate of its family (an IPv4
/// address when `force_ipv4`, an IPv6 one when only `force_ipv6`, and an
/// IPv4 one whenever there is one and no family is forced): every candidate
/// before it belongs to the other family.
pub proof fn law_address_is_first(candidates: Seq<SocketAddress>, force_ipv4: bool, force_ipv6: bool)
    ensures
        chosen_address(candidates, force_ipv4, force_ipv6) matches Some(a) ==> {
            &&& force_ipv4 ==> a.ip is V4
            &&& (!force_ipv4 && force_ipv6) ==> a.ip is V6
            &&& (!force_ipv4 && !force_ipv6 && exists|k: int|
                0 <= k < candidates.len() && (#[trigger] candidates[k].ip is V4)) ==> a.ip is V4
            &&& exists|j: int|
                0 <= j < candidates.len() && candidates[j] == a && forall|i: int|
                    0 <= i < j ==> (#[trigger] candidates[i].ip is V4) != (a.ip is V4)
        },
{
    lemma_first_of_family(candidates, true);
    lemma_first_of_family(candidates, false);
    lemma_first_of_family_index(candidates, true);
    lemma_first_of_family_index(candidates, false);
    if !force_ipv4 && !force_ipv6 && first_of_family(candidates, true).is_none()
        && first_of_family(candidates, false).is_none() && candidates.len() > 0 {
        assert(candidates[0].spec_is_ipv4() || !candidates[0].spec_is_ipv4());
    }
}

/// Finds the first address of a family.
fn find_family(candidates: &Vec<SocketAddress>, v4: bool) -> (r: Option<SocketAddress>)
    ensures
        r == first_of_family(candidates@, v4),
{
    let n = candidates.len();
    let mut i: usize = 0;
    proof {
        assert(candidates@.skip(0) =~= candidates@);
    }
    while i < n
        invariant
            n == candidates@.len(),
            i <= n,
            first_of_family(candidates@, v4) == first_of_family(candidates@.skip(i as int), v4),
        decreases n - i,
    {
        if candidates[i].is_ipv4() == v4 {
            return Some(candidates[i]);
        }
        proof {
            assert(candidates@.skip(i as int).drop_first() =~= candidates@.skip(i + 1));
        }
        i += 1;
    }
    None
}

/// Picks the address to test against (see `chosen_address`).
pub fn get_address_with_fallback(
    candidates: &Vec<SocketAddress>,
    force_ipv4: bool,
    force_ipv6: bool,
) -> (r: Option<SocketAddress>)
    ensures
        r == chosen_address(candidates@, force_ipv4, force_ipv6),
{
    if force_ipv4 {
        return find_family(candidates, true);
    }
    if force_ipv6 {
        return find_family(candidates, false);
    }
    if let Some(a) = find_family(candidates, true) {
        return Some(a);
    }
    if let Some(a) = find_family(candidates, false) {
        return Some(a);
    }
    if candidates.len() > 0 {
        Some(candidates[0])
    } else {
        None
    }
}

} // verus!
