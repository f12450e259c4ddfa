//! Which rescue a provider config asks for, on which networks, and the
//! summary shown once the rescue transaction is built.

use vstd::prelude::*;
use crate::chain::{
    chain_debug_spec, chain_debug_text, chain_from_lowercase, chain_named, electrum_connections,
    electrum_connections_spec, invalid_network_message, network_error, rescue_fee_sats,
    rescue_fee_spec, Chain,
};
use crate::config::{Config, ProviderInput};
use crate::text::{lowercase, str_eq, to_lowercase};

verus! {

/// A rescue to perform, with the networks and swap data it needs.
#[derive(Debug)]
#[allow(inconsistent_fields)]
pub enum RescuePlan {
    /// Claim the server's lockup of a reverse swap on `network`.
    ReverseClaim { network: Chain, preimage: String },
    /// Refund the user's lockup of a submarine swap on `network`.
    SubmarineRefund { network: Chain },
    /// Refund the user's lockup of a chain swap on `from`.
    ChainRefund { from: Chain, to: Chain },
    /// Claim the server's lockup of a chain swap on `to`.
    ChainClaim { from: Chain, to: Chain, server_lockup_address: String, preimage: Option<String> },
}

impl RescuePlan {
    /// The network on which the rescued funds arrive.
    pub open spec fn target_network_spec(self) -> Chain {
        match self {
            RescuePlan::ReverseClaim { network, .. } => network,
            RescuePlan::SubmarineRefund { network } => network,
            RescuePlan::ChainRefund { from, .. } => from,
            RescuePlan::ChainClaim { to, .. } => to,
        }
    }

    /// The network on which the rescued funds arrive.
    pub fn target_network(&self) -> (c: Chain)
        ensures
            c == self.target_network_spec(),
    {
        match self {
            RescuePlan::ReverseClaim { network, .. } => *network,
            RescuePlan::SubmarineRefund { network } => *network,
            RescuePlan::ChainRefund { from, .. } => *from,
            RescuePlan::ChainClaim { to, .. } => *to,
        }
    }

    /// The networks the swap runs between, `from` then `to`; a submarine or
    /// reverse swap is taken to run on one network.
    pub open spec fn swap_networks_spec(self) -> (Chain, Chain) {
        match self {
            RescuePlan::ReverseClaim { network, .. } => (network, network),
            RescuePlan::SubmarineRefund { network } => (network, network),
            RescuePlan::ChainRefund { from, to } => (from, to),
            RescuePlan::ChainClaim { from, to, .. } => (from, to),
        }
    }

    /// The absolute fee the rescue transaction pays: the fee of the network
    /// on which the rescued funds arrive.
    pub fn fee_sats(&self) -> (f: u64)
        ensures
            f == rescue_fee_spec(self.target_network_spec()),
    {
        rescue_fee_sats(self.target_network())
    }

    /// The Electrum connections the rescue opens: one for the swap's `from`
    /// network, and one for its `to` network when that is of the other
    /// family.
    pub fn connections(&self) -> (r: Vec<Chain>)
        ensures
            r@ == electrum_connections_spec(self.swap_networks_spec().0, self.swap_networks_spec().1),
    {
        let (from, to) = match self {
            RescuePlan::ReverseClaim { network, .. } => (*network, *network),
            RescuePlan::SubmarineRefund { network } => (*network, *network),
            RescuePlan::ChainRefund { from, to } => (*from, *to),
            RescuePlan::ChainClaim { from, to, .. } => (*from, *to),
        };
        electrum_connections(from, to)
    }
}

/// A planned rescue and the lowercased swap and rescue types it came from.
#[derive(Debug)]
pub struct RescueJob {
    pub plan: RescuePlan,
    pub swap_type: String,
    pub rescue_type: String,
}

/// `r` is the plan for `p`, given its rescue and swap types (`rt`, `st`) and
/// its network names (`from_lower`, `to_lower`), all lowercased: the first
/// missing piece is reported as an error.
pub open spec fn plan_spec(
    p: ProviderInput,
    rt: Seq<char>,
    st: Seq<char>,
    from_lower: Seq<char>,
    to_lower: Seq<char>,
    r: Result<RescuePlan, String>,
) -> bool {
    let from = chain_named(from_lower);
    let to = chain_named(to_lower);
    let bad_to = invalid_network_message("to_network"@, p.to_network_str@);
    if from is None {
        r matches Err(e) && e@ == invalid_network_message("from_network"@, p.from_network_str@)
    } else if st == "reverse"@ {
        match p.preimage {
            Some(pre) => r matches Ok(plan) && plan == (RescuePlan::ReverseClaim {
                network: from->0,
                preimage: pre,
            }),
            None => r matches Err(e) && e@ == "preimage is required for reverse claim"@,
        }
    } else if rt == "refund"@ {
        if st == "submarine"@ {
            r matches Ok(plan) && plan == (RescuePlan::SubmarineRefund { network: from->0 })
        } else if to is None {
            r matches Err(e) && e@ == bad_to
        } else {
            r matches Ok(plan) && plan == (RescuePlan::ChainRefund { from: from->0, to: to->0 })
        }
    } else if to is None {
        r matches Err(e) && e@ == bad_to
    } else {
        match p.server_lockup_address {
            Some(a) => r matches Ok(plan) && plan == (RescuePlan::ChainClaim {
                from: from->0,
                to: to->0,
                server_lockup_address: a,
                preimage: p.preimage,
            }),
            None => r matches Err(e) && e@ == "server_lockup_address is required for claim rescue"@,
        }
    }
}

fn copy_opt_string(o: &Option<String>) -> (r: Option<String>)
    ensures
        r == *o,
{
    match o {
        Some(s) => Some(s.clone()),
        None => None,
    }
}

/// Decides the rescue for `p`, given its rescue and swap types and its
/// network names, all lowercased.
pub fn route_rescue(
    p: &ProviderInput,
    rescue_type: &str,
    swap_type: &str,
    from_lower: &str,
    to_lower: &str,
) -> (r: Result<RescuePlan, String>)
    ensures
        plan_spec(*p, rescue_type@, swap_type@, from_lower@, to_lower@, r),
{
    let from = match chain_from_lowercase(from_lower, p.from_network_str.as_str()) {
        Ok(c) => c,
        Err(e) => {
            return Err(network_error("from_network", e));
        },
    };
    if str_eq(swap_type, "reverse") {
        return match &p.preimage {
            Some(pre) => Ok(RescuePlan::ReverseClaim { network: from, preimage: pre.clone() }),
            None => Err(String::from_str("preimage is required for reverse claim")),
        };
    }
    if str_eq(rescue_type, "refund") && str_eq(swap_type, "submarine") {
        return Ok(RescuePlan::SubmarineRefund { network: from });
    }
    let to = match chain_from_lowercase(to_lower, p.to_network_str.as_str()) {
        Ok(c) => c,
        Err(e) => {
            return Err(network_error("to_network", e));
        },
    };
    if str_eq(rescue_type, "refund") {
        Ok(RescuePlan::ChainRefund { from, to })
    } else {
        match &p.server_lockup_address {
            Some(a) => Ok(
                RescuePlan::ChainClaim {
                    from,
                    to,
                    server_lockup_address: a.clone(),
                    preimage: copy_opt_string(&p.preimage),
                },
            ),
            None => Err(String::from_str("server_lockup_address is required for claim rescue")),
        }
    }
}

/// Decides the rescue a provider config asks for; types and network names
/// are read without regard to case.
pub fn plan_rescue(config: &Config) -> (r: Result<RescueJob, String>)
    ensures
        ({
            let p = config.provider_input;
            let rt = lowercase(p.rescue_type@);
            let st = lowercase(p.swap_type@);
            let plan = match r {
                Ok(job) => Ok(job.plan),
                Err(e) => Err(e),
            };
            &&& plan_spec(
                p,
                rt,
                st,
                lowercase(p.from_network_str@),
                lowercase(p.to_network_str@),
                plan,
            )
            &&& r matches Ok(job) ==> job.rescue_type@ == rt && job.swap_type@ == st
        }),
{
    let p = &config.provider_input;
    let rescue_type = to_lowercase(p.rescue_type.as_str());
    let swap_type = to_lowercase(p.swap_type.as_str());
    let from_lower = to_lowercase(p.from_network_str.as_str());
    let to_lower = to_lowercase(p.to_network_str.as_str());
    match route_rescue(
        p,
        rescue_type.as_str(),
        swap_type.as_str(),
        from_lower.as_str(),
        to_lower.as_str(),
    ) {
        Ok(plan) => Ok(RescueJob { plan, swap_type, rescue_type }),
        Err(e) => Err(e),
    }
}

/// What the tool shows of a built rescue transaction.
#[derive(Debug)]
pub struct RescueSummary {
    pub amount: u64,
    pub return_address: String,
    pub network: String,
    pub swap_id: String,
    pub rescue_type: String,
}

impl Clone for RescueSummary {
    fn clone(&self) -> (r: Self)
        ensures
            r == *self,
    {
        RescueSummary {
            amount: self.amount,
            return_address: self.return_address.clone(),
            network: self.network.clone(),
            swap_id: self.swap_id.clone(),
            rescue_type: self.rescue_type.clone(),
        }
    }
}

impl RescueJob {
    /// The summary of this job's rescue, once built for `amount` satoshis
    /// sent to `return_address`: the network is where the funds arrive and
    /// the type reads "<swap type> <rescue type>".
    pub fn summary(&self, amount: u64, return_address: &str, swap_id: &str) -> (s: RescueSummary)
        ensures
            s.amount == amount,
            s.return_address@ == return_address@,
            s.network@ == chain_debug_spec(self.plan.target_network_spec()),
            s.swap_id@ == swap_id@,
            s.rescue_type@ == self.swap_type@ + " "@ + self.rescue_type@,
    {
        let network = chain_debug_text(self.plan.target_network());
        RescueSummary {
            amount,
            return_address: String::from_str(return_address),
            network: String::from_str(network),
            swap_id: String::from_str(swap_id),
            rescue_type: self.swap_type.clone().concat(" ").concat(self.rescue_type.as_str()),
        }
    }
}

} // verus!
