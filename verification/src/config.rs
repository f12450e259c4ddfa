//! The provider config: what a swap provider hands a user so that a lost
//! swap can be rebuilt, and the rules that make such a config usable.

use vstd::prelude::*;
use crate::chain::{
    chain_from_lowercase, chain_named, chain_result_spec, invalid_network_message, network_error,
    Chain,
};
use crate::text::{
    ascii_lower, is_ascii_text, is_blank, lemma_ascii_case_same_spaces, lemma_blank_same_spaces,
    lowercase, str_eq, to_lowercase, trim_str,
};

verus! {

/// One leaf of a swap's taproot tree.
#[derive(Debug)]
pub struct LeafConfig {
    pub output: String,
    pub version: u8,
}

/// The swap data a provider supplies.
#[derive(Debug)]
pub struct ProviderInput {
    pub rescue_type: String,
    pub swap_type: String,
    pub claim_leaf: LeafConfig,
    pub refund_leaf: LeafConfig,
    pub from_network_str: String,
    pub to_network_str: String,
    pub blinding_key: Option<String>,
    pub timeout_block_height: u32,
    pub server_public_key: String,
    pub user_lockup_address: String,
    pub server_lockup_address: Option<String>,
    pub amount: u64,
    pub swap_id: String,
    pub preimage: Option<String>,
}

/// A provider config file.
#[derive(Debug)]
pub struct Config {
    pub provider_input: ProviderInput,
}

fn copy_opt_string(o: &Option<String>) -> (r: Option<String>)
    ensures
        r == *o,
{
    match o {
        Some(s) => Some(s.clone()),
        None => None,
    }
}

impl Clone for LeafConfig {
    fn clone(&self) -> (r: Self)
        ensures
            r == *self,
    {
        LeafConfig { output: self.output.clone(), version: self.version }
    }
}

impl Clone for ProviderInput {
    fn clone(&self) -> (r: Self)
        ensures
            r == *self,
    {
        ProviderInput {
            rescue_type: self.rescue_type.clone(),
            swap_type: self.swap_type.clone(),
            claim_leaf: self.claim_leaf.clone(),
            refund_leaf: self.refund_leaf.clone(),
            from_network_str: self.from_network_str.clone(),
            to_network_str: self.to_network_str.clone(),
            blinding_key: copy_opt_string(&self.blinding_key),
            timeout_block_height: self.timeout_block_height,
            server_public_key: self.server_public_key.clone(),
            user_lockup_address: self.user_lockup_address.clone(),
            server_lockup_address: copy_opt_string(&self.server_lockup_address),
            amount: self.amount,
            swap_id: self.swap_id.clone(),
            preimage: copy_opt_string(&self.preimage),
        }
    }
}

impl Clone for Config {
    fn clone(&self) -> (r: Self)
        ensures
            r == *self,
    {
        Config { provider_input: self.provider_input.clone() }
    }
}

/// The swap type a config without one stands for.
pub fn default_swap_type() -> (r: String)
    ensures
        r@ == "chain"@,
{
    String::from_str("chain")
}

/// An optional field that is present and not blank.
pub open spec fn is_filled(o: Option<String>) -> bool {
    match o {
        Some(s) => !is_blank(s@),
        None => false,
    }
}

/// A rescue needs the preimage: claims of chain and reverse swaps.
pub open spec fn preimage_required(rescue_type: Seq<char>, swap_type: Seq<char>) -> bool {
    rescue_type == "claim"@ && (swap_type == "chain"@ || swap_type == "reverse"@)
}

/// The lowercased name of the network the rescue spends on: `to_network`
/// for claims of chain swaps, `from_network` for every other rescue.
pub open spec fn rescued_network(rt: Seq<char>, st: Seq<char>, from: Seq<char>, to: Seq<char>) -> Seq<
    char,
> {
    if st == "chain"@ && rt == "claim"@ {
        to
    } else {
        from
    }
}

/// A lowercased network name that names a Liquid network.
pub open spec fn names_liquid(lower: Seq<char>) -> bool {
    chain_named(lower) matches Some(Chain::Liquid(_))
}

/// The first rule that `p` breaks, as the message that reports it, given
/// its rescue and swap types (`rt`, `st`) and its network names (`from`,
/// `to`), all lowercased; `None` when it breaks none. The rules are checked
/// in this order.
pub open spec fn provider_input_problem(
    p: ProviderInput,
    rt: Seq<char>,
    st: Seq<char>,
    from: Seq<char>,
    to: Seq<char>,
) -> Option<Seq<char>> {
    if is_blank(p.rescue_type@) {
        Some("rescue_type is required in provider_input"@)
    } else if rt != "claim"@ && rt != "refund"@ {
        Some("rescue_type must be 'claim' or 'refund', got '"@ + p.rescue_type@ + "'"@)
    } else if st != "chain"@ && st != "submarine"@ && st != "reverse"@ {
        Some(
            "swap_type must be 'chain', 'submarine', or 'reverse', got '"@ + p.swap_type@ + "'"@,
        )
    } else if st == "reverse"@ && rt != "claim"@ {
        Some(
            "reverse swaps only support rescue_type 'claim' (user cannot refund a reverse swap)"@,
        )
    } else if st == "submarine"@ && rt == "claim"@ {
        Some("submarine swaps only support rescue_type 'refund' on the user side"@)
    } else if is_blank(p.claim_leaf.output@) {
        Some("claim_leaf.output is required in provider_input"@)
    } else if is_blank(p.refund_leaf.output@) {
        Some("refund_leaf.output is required in provider_input"@)
    } else if is_blank(p.from_network_str@) {
        Some("from_network is required in provider_input"@)
    } else if chain_named(from) is None {
        Some(invalid_network_message("from_network"@, p.from_network_str@))
    } else if st == "chain"@ && is_blank(p.to_network_str@) {
        Some("to_network is required in provider_input for chain swaps"@)
    } else if st == "chain"@ && chain_named(to) is None {
        Some(invalid_network_message("to_network"@, p.to_network_str@))
    } else if names_liquid(rescued_network(rt, st, from, to)) && !is_filled(p.blinding_key) {
        Some("blinding_key is required in provider_input for Liquid swaps"@)
    } else if p.timeout_block_height == 0 {
        Some("timeout_block_height must be greater than 0 in provider_input"@)
    } else if is_blank(p.server_public_key@) {
        Some("server_public_key is required in provider_input"@)
    } else if is_blank(p.user_lockup_address@) {
        Some("user_lockup_address is required in provider_input"@)
    } else if st == "chain"@ && rt == "claim"@ && !is_filled(p.server_lockup_address) {
        Some("server_lockup_address is required for chain swap claims"@)
    } else if p.amount == 0 {
        Some("amount must be greater than 0 in provider_input"@)
    } else if is_blank(p.swap_id@) {
        Some("swap_id is required in provider_input"@)
    } else if preimage_required(rt, st) && !is_filled(p.preimage) {
        Some("preimage is required in provider_input for "@ + st + " claim"@)
    } else {
        None
    }
}

/// `r` reports exactly the problem `problem`: `Ok` when there is none.
pub open spec fn reports(r: Result<(), String>, problem: Option<Seq<char>>) -> bool {
    match r {
        Ok(_) => problem is None,
        Err(e) => problem == Some(e@),
    }
}

fn blank(s: &str) -> (b: bool)
    ensures
        b == is_blank(s@),
{
    trim_str(s).is_empty()
}

fn filled(o: &Option<String>) -> (b: bool)
    ensures
        b == is_filled(*o),
{
    match o {
        Some(s) => !blank(s.as_str()),
        None => false,
    }
}

/// Checks `p` against the rules of a provider config, given its rescue and
/// swap types and its network names already lowercased.
pub fn check_provider_input(
    p: &ProviderInput,
    rescue_type: &str,
    swap_type: &str,
    from_network: &str,
    to_network: &str,
) -> (r: Result<(), String>)
    ensures
        reports(r, provider_input_problem(*p, rescue_type@, swap_type@, from_network@, to_network@)),
{
    if blank(p.rescue_type.as_str()) {
        return Err(String::from_str("rescue_type is required in provider_input"));
    }
    let is_claim = str_eq(rescue_type, "claim");
    let is_refund = str_eq(rescue_type, "refund");
    if !is_claim && !is_refund {
        return Err(
            String::from_str("rescue_type must be 'claim' or 'refund', got '").concat(
                p.rescue_type.as_str(),
            ).concat("'"),
        );
    }
    let is_chain = str_eq(swap_type, "chain");
    let is_submarine = str_eq(swap_type, "submarine");
    let is_reverse = str_eq(swap_type, "reverse");
    if !is_chain && !is_submarine && !is_reverse {
        return Err(
            String::from_str("swap_type must be 'chain', 'submarine', or 'reverse', got '").concat(
                p.swap_type.as_str(),
            ).concat("'"),
        );
    }
    if is_reverse && !is_claim {
        return Err(
            String::from_str(
                "reverse swaps only support rescue_type 'claim' (user cannot refund a reverse swap)",
            ),
        );
    }
    if is_submarine && is_claim {
        return Err(
            String::from_str("submarine swaps only support rescue_type 'refund' on the user side"),
        );
    }
    if blank(p.claim_leaf.output.as_str()) {
        return Err(String::from_str("claim_leaf.output is required in provider_input"));
    }
    if blank(p.refund_leaf.output.as_str()) {
        return Err(String::from_str("refund_leaf.output is required in provider_input"));
    }
    if blank(p.from_network_str.as_str()) {
        return Err(String::from_str("from_network is required in provider_input"));
    }
    let from_chain = match chain_from_lowercase(from_network, p.from_network_str.as_str()) {
        Ok(c) => c,
        Err(e) => {
            return Err(network_error("from_network", e));
        },
    };
    if is_chain && blank(p.to_network_str.as_str()) {
        return Err(String::from_str("to_network is required in provider_input for chain swaps"));
    }
    let rescued_chain = if is_chain {
        let to_chain = match chain_from_lowercase(to_network, p.to_network_str.as_str()) {
            Ok(c) => c,
            Err(e) => {
                return Err(network_error("to_network", e));
            },
        };
        if is_claim {
            to_chain
        } else {
            from_chain
        }
    } else {
        from_chain
    };
    let rescued_is_liquid = match rescued_chain {
        Chain::Liquid(_) => true,
        Chain::Bitcoin(_) => false,
    };
    if rescued_is_liquid && !filled(&p.blinding_key) {
        return Err(
            String::from_str("blinding_key is required in provider_input for Liquid swaps"),
        );
    }
    if p.timeout_block_height == 0 {
        return Err(
            String::from_str("timeout_block_height must be greater than 0 in provider_input"),
        );
    }
    if blank(p.server_public_key.as_str()) {
        return Err(String::from_str("server_public_key is required in provider_input"));
    }
    if blank(p.user_lockup_address.as_str()) {
        return Err(String::from_str("user_lockup_address is required in provider_input"));
    }
    if is_chain && is_claim && !filled(&p.server_lockup_address) {
        return Err(String::from_str("server_lockup_address is required for chain swap claims"));
    }
    if p.amount == 0 {
        return Err(String::from_str("amount must be greater than 0 in provider_input"));
    }
    if blank(p.swap_id.as_str()) {
        return Err(String::from_str("swap_id is required in provider_input"));
    }
    let needs_preimage = is_claim && (is_chain || is_reverse);
    if needs_preimage && !filled(&p.preimage) {
        return Err(
            String::from_str("preimage is required in provider_input for ").concat(
                swap_type,
            ).concat(" claim"),
        );
    }
    Ok(())
}

/// Checks a loaded provider config against the rules of the schema; the
/// rescue and swap types and the network names are compared without regard
/// to case.
pub fn validate_provider_config(config: &Config) -> (r: Result<(), String>)
    ensures
        reports(
            r,
            provider_input_problem(
                config.provider_input,
                lowercase(config.provider_input.rescue_type@),
                lowercase(config.provider_input.swap_type@),
                lowercase(config.provider_input.from_network_str@),
                lowercase(config.provider_input.to_network_str@),
            ),
        ),
        is_ascii_text(config.provider_input.rescue_type@) && is_ascii_text(
            config.provider_input.swap_type@,
        ) ==> reports(
            r,
            provider_input_problem(
                config.provider_input,
                ascii_lower(config.provider_input.rescue_type@),
                ascii_lower(config.provider_input.swap_type@),
                lowercase(config.provider_input.from_network_str@),
                lowercase(config.provider_input.to_network_str@),
            ),
        ),
{
    let p = &config.provider_input;
    let rescue_type = to_lowercase(p.rescue_type.as_str());
    let swap_type = to_lowercase(p.swap_type.as_str());
    let from_network = to_lowercase(p.from_network_str.as_str());
    let to_network = to_lowercase(p.to_network_str.as_str());
    check_provider_input(
        p,
        rescue_type.as_str(),
        swap_type.as_str(),
        from_network.as_str(),
        to_network.as_str(),
    )
}


/// `a` and `b` agree on every field but the rescue and swap types.
pub open spec fn same_but_types(a: ProviderInput, b: ProviderInput) -> bool {
    &&& a.claim_leaf == b.claim_leaf
    &&& a.refund_leaf == b.refund_leaf
    &&& a.from_network_str == b.from_network_str
    &&& a.to_network_str == b.to_network_str
    &&& a.blinding_key == b.blinding_key
    &&& a.timeout_block_height == b.timeout_block_height
    &&& a.server_public_key == b.server_public_key
    &&& a.user_lockup_address == b.user_lockup_address
    &&& a.server_lockup_address == b.server_lockup_address
    &&& a.amount == b.amount
    &&& a.swap_id == b.swap_id
    &&& a.preimage == b.preimage
}

/// The rescue and swap types are matched without regard to ASCII case: two
/// configs that differ only in the case of those two fields are both
/// accepted or both refused.
pub proof fn lemma_validation_ignores_ascii_case(
    a: Config,
    b: Config,
    ra: Result<(), String>,
    rb: Result<(), String>,
)
    requires
        same_but_types(a.provider_input, b.provider_input),
        is_ascii_text(a.provider_input.rescue_type@),
        is_ascii_text(a.provider_input.swap_type@),
        is_ascii_text(b.provider_input.rescue_type@),
        is_ascii_text(b.provider_input.swap_type@),
        ascii_lower(a.provider_input.rescue_type@) == ascii_lower(b.provider_input.rescue_type@),
        ascii_lower(a.provider_input.swap_type@) == ascii_lower(b.provider_input.swap_type@),
        reports(
            ra,
            provider_input_problem(
                a.provider_input,
                ascii_lower(a.provider_input.rescue_type@),
                ascii_lower(a.provider_input.swap_type@),
                lowercase(a.provider_input.from_network_str@),
                lowercase(a.provider_input.to_network_str@),
            ),
        ),
        reports(
            rb,
            provider_input_problem(
                b.provider_input,
                ascii_lower(b.provider_input.rescue_type@),
                ascii_lower(b.provider_input.swap_type@),
                lowercase(b.provider_input.from_network_str@),
                lowercase(b.provider_input.to_network_str@),
            ),
        ),
    ensures
        (ra is Ok) == (rb is Ok),
{
    lemma_ascii_case_same_spaces(a.provider_input.rescue_type@, b.provider_input.rescue_type@);
    lemma_blank_same_spaces(a.provider_input.rescue_type@, b.provider_input.rescue_type@);
}

/// The rescues the tool supports: claim or refund of a chain swap, refund of
/// a submarine swap, claim of a reverse swap.
pub open spec fn supported_flow(rescue_type: Seq<char>, swap_type: Seq<char>) -> bool {
    ||| swap_type == "chain"@ && (rescue_type == "claim"@ || rescue_type == "refund"@)
    ||| swap_type == "submarine"@ && rescue_type == "refund"@
    ||| swap_type == "reverse"@ && rescue_type == "claim"@
}

/// A config that passes validation asks for a supported rescue and carries
/// what that rescue needs: the preimage for chain and reverse claims, the
/// server lockup address for chain claims, a known `from_network`, a known
/// `to_network` for chain swaps, and the blinding key when the rescue spends
/// on Liquid.
pub proof fn lemma_valid_config_is_complete(
    p: ProviderInput,
    rt: Seq<char>,
    st: Seq<char>,
    from: Seq<char>,
    to: Seq<char>,
)
    requires
        provider_input_problem(p, rt, st, from, to) is None,
    ensures
        supported_flow(rt, st),
        preimage_required(rt, st) ==> is_filled(p.preimage),
        st == "chain"@ && rt == "claim"@ ==> is_filled(p.server_lockup_address),
        st == "chain"@ ==> !is_blank(p.to_network_str@),
        chain_named(from) is Some,
        st == "chain"@ ==> chain_named(to) is Some,
        names_liquid(rescued_network(rt, st, from, to)) ==> is_filled(p.blinding_key),
        !is_blank(p.rescue_type@),
        !is_blank(p.claim_leaf.output@),
        !is_blank(p.refund_leaf.output@),
        !is_blank(p.server_public_key@),
        !is_blank(p.user_lockup_address@),
        !is_blank(p.swap_id@),
        !is_blank(p.from_network_str@),
        p.amount > 0,
        p.timeout_block_height > 0,
{
}

/// The network names of a config that passes validation parse: `from_network`
/// always, `to_network` for chain swaps. And when the rescue spends on
/// Liquid, the config carries a blinding key.
pub proof fn lemma_valid_config_networks_parse(
    c: Config,
    r_from: Result<Chain, String>,
    r_to: Result<Chain, String>,
)
    requires
        ({
            let p = c.provider_input;
            provider_input_problem(
                p,
                lowercase(p.rescue_type@),
                lowercase(p.swap_type@),
                lowercase(p.from_network_str@),
                lowercase(p.to_network_str@),
            ) is None
        }),
        chain_result_spec(
            lowercase(c.provider_input.from_network_str@),
            c.provider_input.from_network_str@,
            r_from,
        ),
        chain_result_spec(
            lowercase(c.provider_input.to_network_str@),
            c.provider_input.to_network_str@,
            r_to,
        ),
    ensures
        r_from is Ok,
        lowercase(c.provider_input.swap_type@) == "chain"@ ==> r_to is Ok,
        ({
            let p = c.provider_input;
            let rescued = if lowercase(p.swap_type@) == "chain"@ && lowercase(p.rescue_type@)
                == "claim"@ {
                r_to
            } else {
                r_from
            };
            rescued matches Ok(Chain::Liquid(_)) ==> is_filled(p.blinding_key)
        }),
{
}

} // verus!
