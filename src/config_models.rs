use vstd::prelude::*;
use crate::address::Address;

verus! {

/// The whole configuration: every network and its exchanges.
pub struct Config {
    pub networks: Vec<NetworkConfig>,
}

/// One network and the exchanges to watch on it.
pub struct NetworkConfig {
    pub metadata: NetworkMetadata,
    pub exchanges: Vec<ExchangeConfig>,
}

/// The identity of a chain and of the bot's wallet on it.
#[derive(Clone)]
pub struct NetworkMetadata {
    pub name: String,
    pub symbol: String,
    pub chain_id: u64,
    pub native_coin_coingecko_id: String,
    pub rpc_url: String,
    pub ws_url: String,
    pub wallet_address: Address,
    pub wrapped_native_address: Address,
}

/// One exchange deployment on a network.
#[derive(Clone)]
pub struct ExchangeConfig {
    pub name: String,
    pub base_implementation: String,
    pub factory_contract_address: String,
    pub router_contract_address: String,
}

/// The market designs that the bot can trade on.
#[derive(Clone, Copy, Debug, PartialEq, Eq, Structural)]
pub enum AmmVersion {
    UniswapV2,
    UniswapV3,
}

/// The market design that an implementation tag names, if it is known.
pub open spec fn amm_version_of(tag: Seq<char>) -> Option<AmmVersion> {
    if tag == "UniswapV2"@ {
        Some(AmmVersion::UniswapV2)
    } else if tag == "UniswapV3"@ {
        Some(AmmVersion::UniswapV3)
    } else {
        None
    }
}

impl ExchangeConfig {
    /// The market design of this exchange, `None` for an unknown tag.
    pub fn amm_version(&self) -> (r: Option<AmmVersion>)
        ensures
            r == amm_version_of(self.base_implementation@),
    {
        if self.base_implementation == String::from_str("UniswapV2") {
            Some(AmmVersion::UniswapV2)
        } else if self.base_implementation == String::from_str("UniswapV3") {
            Some(AmmVersion::UniswapV3)
        } else {
            None
        }
    }

    /// Whether trades on this exchange take the concentrated-liquidity shape;
    /// every other tag trades in the pair shape.
    pub fn is_v3(&self) -> (r: bool)
        ensures
            r == (self.base_implementation@ == "UniswapV3"@),
    {
        self.base_implementation == String::from_str("UniswapV3")
    }
}

/// Number of exchanges over all the networks.
pub open spec fn total_exchanges(networks: Seq<NetworkConfig>) -> int
    decreases networks.len(),
{
    if networks.len() == 0 {
        0
    } else {
        total_exchanges(networks.drop_last()) + networks.last().exchanges@.len()
    }
}

proof fn lemma_total_exchanges_prefix(networks: Seq<NetworkConfig>, i: int)
    requires
        0 <= i <= networks.len(),
    ensures
        0 <= total_exchanges(networks.subrange(0, i)) <= total_exchanges(networks),
    decreases networks.len(),
{
    if networks.len() > 0 {
        if i == networks.len() {
            assert(networks.subrange(0, i) =~= networks);
            lemma_total_exchanges_prefix(networks.drop_last(), i - 1);
            assert(networks.drop_last().subrange(0, i - 1) =~= networks.drop_last());
        } else {
            lemma_total_exchanges_prefix(networks.drop_last(), i);
            assert(networks.drop_last().subrange(0, i) =~= networks.subrange(0, i));
        }
    } else {
        assert(networks.subrange(0, i) =~= networks);
    }
}

impl Config {
    /// The number of tasks that meet at the start barrier: one listener per
    /// (network, exchange) pair, and the task that started them.
    pub fn barrier_parties(&self) -> (r: usize)
        requires
            total_exchanges(self.networks@) < usize::MAX,
        ensures
            r == total_exchanges(self.networks@) + 1,
    {
        let mut total: usize = 0;
        let mut i: usize = 0;
        while i < self.networks.len()
            invariant
                i <= self.networks@.len(),
                total == total_exchanges(self.networks@.subrange(0, i as int)),
                total_exchanges(self.networks@) < usize::MAX,
            decreases self.networks@.len() - i,
        {
            proof {
                assert(self.networks@.subrange(0, i + 1).drop_last() =~= self.networks@.subrange(
                    0,
                    i as int,
                ));
                lemma_total_exchanges_prefix(self.networks@, i + 1);
            }
            total = total + self.networks[i].exchanges.len();
            i = i + 1;
        }
        assert(self.networks@.subrange(0, i as int) =~= self.networks@);
        total + 1
    }
}

} // verus!
