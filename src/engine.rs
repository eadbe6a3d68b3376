use vstd::prelude::*;

use std::collections::HashMap;

use crate::error::Error;
use crate::handle::ForwardRuleHandler;
use crate::ports::{port_pairs, range_error, spec_port_pairs};
use crate::rule_id::{is_rule_id, RuleIdPool, MAX_RULES};

verus! {

broadcast use vstd::std_specs::hash::group_hash_axioms;

/// An IP address: four octets, or eight 16-bit groups.
#[derive(Clone, Copy, Debug, PartialEq, Eq)]
pub enum IpAddr {
    V4([u8; 4]),
    V6([u16; 8]),
}

/// What became of the address text that a caller handed in.
#[derive(Clone, Copy, Debug, PartialEq, Eq)]
pub enum AddressText {
    /// The text is not valid UTF-8.
    NotUtf8,
    /// The text is not an IPv4 or IPv6 literal.
    NotIp,
    /// The text is this address.
    Ip(IpAddr),
}

/// The error that the address text meets, if any.
pub open spec fn address_error(addr: AddressText) -> Option<Error> {
    match addr {
        AddressText::NotUtf8 => Some(Error::InvalidString),
        AddressText::NotIp => Some(Error::InvalidIpAddr),
        AddressText::Ip(_) => None,
    }
}

/// What one forwarding worker does: listen on `local_port` and relay each
/// connection to `ip:remote_port`, on behalf of rule `rule_id`.
#[derive(Clone, Copy, Debug, PartialEq, Eq)]
pub struct Worker {
    pub rule_id: i8,
    pub ip: IpAddr,
    pub remote_port: u16,
    pub local_port: u16,
    pub allow_lan: bool,
}

/// The worker of rule `rule_id` for one pair of ports.
pub open spec fn worker_of(rule_id: i8, ip: IpAddr, remote_port: u16, local_port: u16, allow_lan: bool) -> Worker {
    Worker { rule_id, ip, remote_port, local_port, allow_lan }
}

/// The error that a single-port request meets while `active` rules run.
pub open spec fn forward_error(addr: AddressText, active: nat) -> Option<Error> {
    match address_error(addr) {
        Some(e) => Some(e),
        None => if active >= MAX_RULES {
            Some(Error::TooManyRules)
        } else {
            None
        },
    }
}

/// The error that a range request meets while `active` rules run: the range
/// is checked first, then the address, then the room for one more rule.
pub open spec fn forward_range_error(
    addr: AddressText,
    remote_start: u16,
    remote_end: u16,
    local_start: u16,
    active: nat,
) -> Option<Error> {
    match range_error(remote_start, remote_end, local_start) {
        Some(e) => Some(e),
        None => forward_error(addr, active),
    }
}

/// What cancelling `id` leaves of the running rules, and what it returns:
/// the rule's handler when it runs, else `InvalidRuleId`.
pub open spec fn cancel_outcome<H>(rules: Map<i8, ForwardRuleHandler<H>>, id: i8) -> (
    Map<i8, ForwardRuleHandler<H>>,
    Result<ForwardRuleHandler<H>, Error>,
) {
    if rules.contains_key(id) {
        (rules.remove(id), Ok(rules[id]))
    } else {
        (rules, Err(Error::InvalidRuleId))
    }
}

/// Cancelling a running rule succeeds and hands back that rule; cancelling
/// the same identifier again fails with `InvalidRuleId` and changes nothing.
pub proof fn lemma_cancel_twice<H>(rules: Map<i8, ForwardRuleHandler<H>>, id: i8)
    requires
        rules.contains_key(id),
    ensures
        cancel_outcome(rules, id).1 == Ok::<ForwardRuleHandler<H>, Error>(rules[id]),
        cancel_outcome(cancel_outcome(rules, id).0, id).1 == Err::<ForwardRuleHandler<H>, Error>(
            Error::InvalidRuleId,
        ),
        cancel_outcome(cancel_outcome(rules, id).0, id).0 == cancel_outcome(rules, id).0,
{
}

/// The rule identifiers and the registry of running rules. Each identifier
/// in [0, 127] is either free or bound to exactly one running rule.
pub struct Engine<H> {
    pool: RuleIdPool,
    running: HashMap<i8, ForwardRuleHandler<H>>,
}

impl<H> Engine<H> {
    /// The running rules, by identifier.
    pub closed spec fn rules(&self) -> Map<i8, ForwardRuleHandler<H>> {
        self.running@
    }

    /// The free identifiers.
    pub closed spec fn free_ids(&self) -> Set<i8> {
        self.pool.free()
    }

    pub closed spec fn wf(&self) -> bool {
        &&& self.pool.wf()
        &&& forall|id: i8| #[trigger] self.pool.free().contains(id) ==> !self.running@.contains_key(id)
        &&& forall|id: i8| #[trigger] self.running@.contains_key(id) ==> is_rule_id(id)
        &&& forall|id: i8| is_rule_id(id) ==> #[trigger] self.pool.free().contains(id)
            || self.running@.contains_key(id)
        &&& self.pool.count() + self.running@.len() == MAX_RULES
    }

    /// The registry and the pool split the identifier space between them,
    /// and at most 128 rules run; with 128 running no identifier is free.
    pub proof fn lemma_partition(&self)
        requires
            self.wf(),
        ensures
            forall|id: i8| #[trigger] self.rules().contains_key(id) ==> is_rule_id(id),
            forall|id: i8| is_rule_id(id) ==> (#[trigger] self.free_ids().contains(id)
                <==> !self.rules().contains_key(id)),
            forall|id: i8| #[trigger] self.free_ids().contains(id) ==> is_rule_id(id),
            self.rules().len() <= MAX_RULES,
            self.rules().len() == MAX_RULES <==> self.free_ids() == Set::<i8>::empty(),
    {
        self.pool.lemma_free();
    }

    /// With 128 rules running no identifier is free, and every further
    /// request whose address (and range) is valid fails with `TooManyRules`.
    pub proof fn lemma_full_engine_refuses(&self)
        requires
            self.wf(),
            self.rules().len() == MAX_RULES,
        ensures
            self.free_ids() == Set::<i8>::empty(),
            forall|ip: IpAddr| #[trigger] forward_error(AddressText::Ip(ip), self.rules().len())
                == Some(Error::TooManyRules),
            forall|ip: IpAddr, remote_start: u16, remote_end: u16, local_start: u16|
                range_error(remote_start, remote_end, local_start) is None ==>
                #[trigger] forward_range_error(AddressText::Ip(ip), remote_start, remote_end, local_start, self.rules().len())
                == Some(Error::TooManyRules),
    {
        self.lemma_partition();
    }

    /// An identifier that a request returns is in [0, 127] and was held by no
    /// running rule; it is held by the new rule alone afterwards.
    pub proof fn lemma_fresh_id(&self, after: &Self, id: i8, handler: ForwardRuleHandler<H>)
        requires
            self.wf(),
            after.wf(),
            self.free_ids().contains(id),
            after.rules() == self.rules().insert(id, handler),
        ensures
            is_rule_id(id),
            !self.rules().contains_key(id),
            forall|k: i8| #[trigger] self.rules().contains_key(k) ==> k != id,
            after.rules().len() == self.rules().len() + 1,
    {
        self.lemma_partition();
    }

    /// An engine with no rule running and all identifiers free.
    pub fn new() -> (r: Engine<H>)
        ensures
            r.wf(),
            r.rules() == Map::<i8, ForwardRuleHandler<H>>::empty(),
            r.free_ids() == Set::<i8>::new(|id: i8| is_rule_id(id)),
    {
        let running: HashMap<i8, ForwardRuleHandler<H>> = HashMap::with_capacity(MAX_RULES);
        let r = Engine { pool: RuleIdPool::new(), running };
        assert(r.running@.dom() =~= Set::<i8>::empty());
        r
    }

    /// How many rules run.
    pub fn active_rules(&self) -> (r: usize)
        requires
            self.wf(),
        ensures
            r == self.rules().len(),
    {
        self.running.len()
    }

    /// Starts a rule that forwards `local_port` to `remote_port` on the
    /// address. `spawn` starts the worker and returns its task handle. The
    /// address is checked first; no identifier is used up on an error.
    pub fn forward<F: Fn(Worker) -> H>(
        &mut self,
        addr: AddressText,
        remote_port: u16,
        local_port: u16,
        allow_lan: bool,
        spawn: F,
    ) -> (r: Result<i8, Error>)
        requires
            old(self).wf(),
            forall|w: Worker| #[trigger] spawn.requires((w,)),
        ensures
            final(self).wf(),
            match forward_error(addr, old(self).rules().len()) {
                Some(e) => {
                    &&& r == Err::<i8, Error>(e)
                    &&& final(self).rules() == old(self).rules()
                    &&& final(self).free_ids() == old(self).free_ids()
                },
                None => {
                    &&& r is Ok
                    &&& is_rule_id(r->Ok_0)
                    &&& old(self).free_ids().contains(r->Ok_0)
                    &&& !old(self).rules().contains_key(r->Ok_0)
                    &&& final(self).free_ids() == old(self).free_ids().remove(r->Ok_0)
                    &&& final(self).rules() == old(self).rules().insert(
                        r->Ok_0,
                        final(self).rules()[r->Ok_0],
                    )
                    &&& final(self).rules()[r->Ok_0].handles().len() == 1
                    &&& spawn.ensures(
                        (worker_of(r->Ok_0, addr->Ip_0, remote_port, local_port, allow_lan),),
                        final(self).rules()[r->Ok_0].handles()[0],
                    )
                },
            },
    {
        let ip = match addr {
            AddressText::NotUtf8 => return Err(Error::InvalidString),
            AddressText::NotIp => return Err(Error::InvalidIpAddr),
            AddressText::Ip(ip) => ip,
        };
        proof {
            self.lemma_partition();
        }
        let id = match self.pool.get_new_rule_id() {
            None => return Err(Error::TooManyRules),
            Some(id) => id,
        };
        let handle = spawn(Worker { rule_id: id, ip, remote_port, local_port, allow_lan });
        self.running.insert(id, ForwardRuleHandler::single(handle));
        proof {
            assert(self.running@.dom() == old(self).running@.dom().insert(id));
        }
        Ok(id)
    }

    /// Starts one rule that forwards each local port `local_start + i` to
    /// remote port `remote_start + i`, for each remote port in
    /// [remote_start, remote_end]. `spawn` starts one worker per pair, in
    /// order of port. The range is checked first, then the address; no
    /// identifier is used up on an error.
    pub fn forward_range<F: Fn(Worker) -> H>(
        &mut self,
        addr: AddressText,
        remote_start: u16,
        remote_end: u16,
        local_start: u16,
        allow_lan: bool,
        spawn: F,
    ) -> (r: Result<i8, Error>)
        requires
            old(self).wf(),
            forall|w: Worker| #[trigger] spawn.requires((w,)),
        ensures
            final(self).wf(),
            match forward_range_error(addr, remote_start, remote_end, local_start, old(self).rules().len()) {
                Some(e) => {
                    &&& r == Err::<i8, Error>(e)
                    &&& final(self).rules() == old(self).rules()
                    &&& final(self).free_ids() == old(self).free_ids()
                },
                None => {
                    let id = r->Ok_0;
                    let pairs = spec_port_pairs(remote_start, remote_end, local_start);
                    let hs = final(self).rules()[id].handles();
                    &&& r is Ok
                    &&& is_rule_id(id)
                    &&& old(self).free_ids().contains(id)
                    &&& !old(self).rules().contains_key(id)
                    &&& final(self).free_ids() == old(self).free_ids().remove(id)
                    &&& final(self).rules() == old(self).rules().insert(id, final(self).rules()[id])
                    &&& hs.len() == pairs.len()
                    &&& forall|i: int| 0 <= i < pairs.len() ==> spawn.ensures(
                        (worker_of(id, addr->Ip_0, pairs[i].0, pairs[i].1, allow_lan),),
                        #[trigger] hs[i],
                    )
                },
            },
    {
        let pairs = match port_pairs(remote_start, remote_end, local_start) {
            Err(e) => return Err(e),
            Ok(pairs) => pairs,
        };
        let ip = match addr {
            AddressText::NotUtf8 => return Err(Error::InvalidString),
            AddressText::NotIp => return Err(Error::InvalidIpAddr),
            AddressText::Ip(ip) => ip,
        };
        proof {
            self.lemma_partition();
        }
        let id = match self.pool.get_new_rule_id() {
            None => return Err(Error::TooManyRules),
            Some(id) => id,
        };
        let mut handles: Vec<H> = Vec::with_capacity(pairs.len());
        let mut i: usize = 0;
        while i < pairs.len()
            invariant
                i <= pairs@.len(),
                handles@.len() == i,
                forall|w: Worker| #[trigger] spawn.requires((w,)),
                forall|j: int| 0 <= j < i ==> spawn.ensures(
                    (worker_of(id, ip, pairs@[j].0, pairs@[j].1, allow_lan),),
                    #[trigger] handles@[j],
                ),
            decreases pairs@.len() - i,
        {
            let (remote_port, local_port) = pairs[i];
            let handle = spawn(Worker { rule_id: id, ip, remote_port, local_port, allow_lan });
            handles.push(handle);
            i = i + 1;
        }
        self.running.insert(id, ForwardRuleHandler::multiple(handles));
        proof {
            assert(self.running@.dom() == old(self).running@.dom().insert(id));
        }
        Ok(id)
    }

    /// Removes a running rule and frees its identifier; the caller then
    /// aborts the returned tasks. Fails with `InvalidRuleId` when no rule
    /// runs under `id`.
    pub fn cancel_forward(&mut self, id: i8) -> (r: Result<ForwardRuleHandler<H>, Error>)
        requires
            old(self).wf(),
        ensures
            final(self).wf(),
            (final(self).rules(), r) == cancel_outcome(old(self).rules(), id),
            old(self).rules().contains_key(id) ==> final(self).free_ids() == old(self).free_ids().insert(id),
            !old(self).rules().contains_key(id) ==> final(self).free_ids() == old(self).free_ids(),
    {
        match self.running.remove(&id) {
            None => Err(Error::InvalidRuleId),
            Some(handler) => {
                proof {
                    assert(self.running@.dom() == old(self).running@.dom().remove(id));
                }
                self.pool.release_rule_id(id);
                Ok(handler)
            },
        }
    }
}

} // verus!
