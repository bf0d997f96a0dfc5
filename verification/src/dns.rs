//! Choosing socket addresses among those that name resolution found.

use vstd::prelude::*;

use crate::addr::SocketAddress;

verus! {

/// Which address families may be used. With both flags set no address
/// passes.
#[derive(Debug, Clone, Copy, PartialEq, Eq, Structural)]
pub struct ResolveOptions {
    pub ipv4_only: bool,
    pub ipv6_only: bool,
}

impl Default for ResolveOptions {
    /// Any family.
    fn default() -> (options: Self)
        ensures
            !options.ipv4_only,
            !options.ipv6_only,
    {
        ResolveOptions { ipv4_only: false, ipv6_only: false }
    }
}

impl ResolveOptions {
    /// Whether `addr` is of a family that these options let through.
    pub open spec fn admits(&self, addr: SocketAddress) -> bool {
        &&& self.ipv4_only ==> addr is V4
        &&& self.ipv6_only ==> addr is V6
    }

    /// The error that names the family these options asked for in vain.
    pub open spec fn none_admitted(&self) -> ResolveError {
        if self.ipv4_only && self.ipv6_only {
            ResolveError::NoFamily
        } else if self.ipv4_only {
            ResolveError::NoIpv4
        } else {
            ResolveError::NoIpv6
        }
    }

    /// These options with `ipv4_only` set as given.
    pub fn set_ipv4_only(self, ipv4_only: bool) -> (options: Self)
        ensures
            options.ipv4_only == ipv4_only,
            options.ipv6_only == self.ipv6_only,
    {
        ResolveOptions { ipv4_only, ipv6_only: self.ipv6_only }
    }

    /// These options with `ipv6_only` set as given.
    pub fn set_ipv6_only(self, ipv6_only: bool) -> (options: Self)
        ensures
            options.ipv4_only == self.ipv4_only,
            options.ipv6_only == ipv6_only,
    {
        ResolveOptions { ipv4_only: self.ipv4_only, ipv6_only }
    }

    /// The executable form of `admits`.
    fn lets_through(&self, addr: &SocketAddress) -> (yes: bool)
        ensures
            yes == self.admits(*addr),
    {
        (!self.ipv4_only || addr.is_ipv4()) && (!self.ipv6_only || addr.is_ipv6())
    }
}

/// What resolving one configured name gave.
#[derive(Debug)]
pub enum Lookup {
    /// The name resolved to these addresses, in this order.
    Found(Vec<SocketAddress>),
    /// The name did not resolve.
    Failed,
}

/// Why a list of names gives no address to use.
#[derive(Debug, Clone, Copy, PartialEq, Eq, Structural)]
pub enum ResolveError {
    /// No name was given.
    EmptyInput,
    /// The name at `index` did not resolve; those before it did.
    Unresolved { index: usize },
    /// Every name resolved, and all of them together to no address.
    NoAddresses,
    /// Only IPv4 was asked for and no address found is IPv4.
    NoIpv4,
    /// Only IPv6 was asked for and no address found is IPv6.
    NoIpv6,
    /// Only IPv4 and only IPv6 were both asked for, which no address is.
    NoFamily,
}

/// The addresses that one lookup found.
pub open spec fn found_by(lookup: Lookup) -> Seq<SocketAddress> {
    match lookup {
        Lookup::Found(addresses) => addresses@,
        Lookup::Failed => Seq::empty(),
    }
}

/// All addresses found, in the order of the names and then of each answer.
pub open spec fn found_in(lookups: Seq<Lookup>) -> Seq<SocketAddress>
    decreases lookups.len(),
{
    if lookups.len() == 0 {
        Seq::empty()
    } else {
        found_in(lookups.drop_last()) + found_by(lookups.last())
    }
}

/// Whether `index` is the first name that did not resolve.
pub open spec fn first_failed(lookups: Seq<Lookup>, index: int) -> bool {
    &&& 0 <= index < lookups.len()
    &&& lookups[index] is Failed
    &&& forall|j: int| 0 <= j < index ==> lookups[j] is Found
}

/// Whether every name resolved.
pub open spec fn all_found(lookups: Seq<Lookup>) -> bool {
    forall|j: int| 0 <= j < lookups.len() ==> lookups[j] is Found
}

/// The addresses among `all` that `options` let through, in their order.
pub open spec fn admitted(all: Seq<SocketAddress>, options: ResolveOptions) -> Seq<SocketAddress> {
    all.filter(|addr: SocketAddress| options.admits(addr))
}

/// What is made of the addresses found once every name has resolved.
pub open spec fn chosen(all: Seq<SocketAddress>, options: ResolveOptions) -> Result<
    Seq<SocketAddress>,
    ResolveError,
> {
    if all.len() == 0 {
        Err(ResolveError::NoAddresses)
    } else if admitted(all, options).len() == 0 {
        Err(options.none_admitted())
    } else {
        Ok(admitted(all, options))
    }
}

/// A result with its addresses as a sequence.
pub open spec fn as_seq(result: Result<Vec<SocketAddress>, ResolveError>) -> Result<
    Seq<SocketAddress>,
    ResolveError,
> {
    match result {
        Ok(addresses) => Ok(addresses@),
        Err(error) => Err(error),
    }
}

/// Keeps the addresses that `resolve_options` let through, in their order.
pub fn filter_ips(all: &Vec<SocketAddress>, resolve_options: &ResolveOptions) -> (kept: Vec<
    SocketAddress,
>)
    ensures
        kept@ == admitted(all@, *resolve_options),
{
    let ghost lets = |addr: SocketAddress| resolve_options.admits(addr);
    let mut kept: Vec<SocketAddress> = Vec::new();
    let mut i: usize = 0;
    proof {
        reveal(Seq::filter);
        assert(all@.take(0) =~= Seq::<SocketAddress>::empty());
    }
    while i < all.len()
        invariant
            i <= all@.len(),
            lets == |addr: SocketAddress| resolve_options.admits(addr),
            kept@ == all@.take(i as int).filter(lets),
        decreases all@.len() - i,
    {
        proof {
            reveal(Seq::filter);
            assert(all@.take(i + 1).drop_last() =~= all@.take(i as int));
        }
        if resolve_options.lets_through(&all[i]) {
            kept.push(all[i]);
        }
        i = i + 1;
    }
    assert(all@.take(i as int) =~= all@);
    kept
}

/// Turns the answers of name resolution into the addresses to use.
///
/// `lookups` holds, in the order of the configured names, what resolving
/// each gave. The result is every address found that `resolve_options` let
/// through, in that order, and never an empty list. It is an error, the
/// first that applies, when no name was given, when a name did not resolve,
/// when all names together resolved to no address, and when none of the
/// addresses found is let through.
pub fn resolve_and_filter_ips(lookups: &Vec<Lookup>, resolve_options: &ResolveOptions) -> (result:
    Result<Vec<SocketAddress>, ResolveError>)
    ensures
        lookups@.len() == 0 ==> result == Err::<Vec<SocketAddress>, ResolveError>(
            ResolveError::EmptyInput,
        ),
        forall|index: int|
            first_failed(lookups@, index) ==> result == Err::<Vec<SocketAddress>, ResolveError>(
                ResolveError::Unresolved { index: index as usize },
            ),
        lookups@.len() > 0 && all_found(lookups@) ==> as_seq(result) == chosen(
            found_in(lookups@),
            *resolve_options,
        ),
        result matches Ok(addresses) ==> addresses@.len() > 0,
{
    if lookups.len() == 0 {
        return Err(ResolveError::EmptyInput);
    }
    let mut all: Vec<SocketAddress> = Vec::new();
    let mut i: usize = 0;
    assert(lookups@.take(0) =~= Seq::<Lookup>::empty());
    while i < lookups.len()
        invariant
            i <= lookups@.len(),
            forall|j: int| 0 <= j < i ==> lookups@[j] is Found,
            all@ == found_in(lookups@.take(i as int)),
        decreases lookups@.len() - i,
    {
        match &lookups[i] {
            Lookup::Found(addresses) => {
                let ghost before = all@;
                let mut k: usize = 0;
                while k < addresses.len()
                    invariant
                        k <= addresses@.len(),
                        all@ == before + addresses@.take(k as int),
                    decreases addresses@.len() - k,
                {
                    all.push(addresses[k]);
                    k = k + 1;
                    assert(addresses@.take(k as int) =~= addresses@.take(k - 1).push(
                        addresses@[k - 1],
                    ));
                }
                proof {
                    assert(addresses@.take(k as int) =~= addresses@);
                    assert(lookups@.take(i + 1).drop_last() =~= lookups@.take(i as int));
                }
            },
            Lookup::Failed => {
                assert(first_failed(lookups@, i as int));
                assert forall|index: int| first_failed(lookups@, index) implies index == i by {
                    if index < i {
                        assert(lookups@[index] is Found);
                    }
                    if i < index {
                        assert(lookups@[i as int] is Found);
                    }
                }
                return Err(ResolveError::Unresolved { index: i });
            },
        }
        i = i + 1;
    }
    assert(lookups@.take(i as int) =~= lookups@);
    if all.len() == 0 {
        return Err(ResolveError::NoAddresses);
    }
    let kept = filter_ips(&all, resolve_options);
    if kept.len() == 0 {
        if resolve_options.ipv4_only && resolve_options.ipv6_only {
            Err(ResolveError::NoFamily)
        } else if resolve_options.ipv4_only {
            Err(ResolveError::NoIpv4)
        } else {
            Err(ResolveError::NoIpv6)
        }
    } else {
        Ok(kept)
    }
}

/// One of the cases that `resolve_and_filter_ips` tells apart always
/// applies: there is no name, or some name is the first that did not
/// resolve, or every name resolved.
pub proof fn lemma_resolve_cases(lookups: Seq<Lookup>)
    ensures
        lookups.len() == 0 || all_found(lookups) || exists|index: int|
            first_failed(lookups, index),
    decreases lookups.len(),
{
    if lookups.len() > 0 {
        let rest = lookups.drop_last();
        lemma_resolve_cases(rest);
        if rest.len() > 0 && !all_found(rest) {
            let index = choose|index: int| first_failed(rest, index);
            assert(first_failed(lookups, index)) by {
                assert(lookups[index] == rest[index]);
                assert forall|j: int| 0 <= j < index implies lookups[j] is Found by {
                    assert(lookups[j] == rest[j]);
                }
            }
        } else if lookups.last() is Failed {
            assert(first_failed(lookups, lookups.len() - 1)) by {
                assert forall|j: int| 0 <= j < lookups.len() - 1 implies lookups[j] is Found by {
                    assert(lookups[j] == rest[j]);
                }
            }
        } else {
            assert forall|j: int| 0 <= j < lookups.len() implies lookups[j] is Found by {
                if j < lookups.len() - 1 {
                    assert(lookups[j] == rest[j]);
                }
            }
        }
    }
}

/// With no family asked for, every address found is let through.
pub proof fn lemma_any_family_admits_all(all: Seq<SocketAddress>, options: ResolveOptions)
    requires
        !options.ipv4_only,
        !options.ipv6_only,
    ensures
        admitted(all, options) == all,
    decreases all.len(),
{
    reveal(Seq::filter);
    if all.len() > 0 {
        lemma_any_family_admits_all(all.drop_last(), options);
        assert(all.drop_last().push(all.last()) =~= all);
    }
}

/// With both families asked for at once, no address is let through.
pub proof fn lemma_both_families_admit_none(all: Seq<SocketAddress>, options: ResolveOptions)
    requires
        options.ipv4_only,
        options.ipv6_only,
    ensures
        admitted(all, options).len() == 0,
    decreases all.len(),
{
    reveal(Seq::filter);
    if all.len() > 0 {
        lemma_both_families_admit_none(all.drop_last(), options);
    }
}

/// The addresses let through are of the family asked for, and each of them
/// was found.
pub proof fn lemma_admitted_are_admitted(all: Seq<SocketAddress>, options: ResolveOptions, i: int)
    requires
        0 <= i < admitted(all, options).len(),
    ensures
        options.admits(admitted(all, options)[i]),
        all.contains(admitted(all, options)[i]),
{
    let lets = |addr: SocketAddress| options.admits(addr);
    all.lemma_filter_pred(lets, i);
    all.lemma_filter_contains_rev(lets, admitted(all, options)[i]);
}

} // verus!
