use vstd::prelude::*;

verus! {

/// The security oracle's answer: the details of each queried address, keyed
/// by the address written as lower-case hex with a `0x` prefix, each key
/// once (see `wf`).
#[derive(Debug)]
pub struct TokenSecurityResponse {
    pub result: Vec<(String, TokenSecurityDetails)>,
}

/// The risk facts that the security oracle reports for one token. Flags are
/// `"1"` (present), another text (absent), or missing (unknown).
#[derive(Debug, Clone)]
pub struct TokenSecurityDetails {
    pub anti_whale_modifiable: Option<String>,
    pub buy_tax: Option<String>,
    pub can_take_back_ownership: Option<String>,
    pub cannot_buy: Option<String>,
    pub cannot_sell_all: Option<String>,
    pub creator_address: Option<String>,
    pub creator_balance: Option<String>,
    pub creator_percent: Option<String>,
    pub dex: Option<Vec<DexInfo>>,
    pub external_call: Option<String>,
    pub hidden_owner: Option<String>,
    pub holder_count: Option<String>,
    pub holders: Option<Vec<HolderInfo>>,
    pub is_anti_whale: Option<String>,
    pub is_blacklisted: Option<String>,
    pub is_honeypot: Option<String>,
    pub is_in_dex: Option<String>,
    pub honeypot_with_same_creator: Option<String>,
    pub is_mintable: Option<String>,
    pub is_open_source: Option<String>,
    pub is_proxy: Option<String>,
    pub is_whitelisted: Option<String>,
    pub lp_holder_count: Option<String>,
    pub owner_address: Option<String>,
    pub owner_balance: Option<String>,
    pub owner_change_balance: Option<String>,
    pub owner_percent: Option<String>,
    pub personal_slippage_modifiable: Option<String>,
    pub selfdestruct: Option<String>,
    pub sell_tax: Option<String>,
    pub slippage_modifiable: Option<String>,
    pub token_name: Option<String>,
    pub token_symbol: Option<String>,
    pub total_supply: Option<String>,
    pub trading_cooldown: Option<String>,
    pub transfer_pausable: Option<String>,
}

/// One exchange on which the token is listed, with the pool's liquidity.
#[derive(Debug, Clone)]
pub struct DexInfo {
    pub liquidity_type: Option<String>,
    pub name: Option<String>,
    pub liquidity: Option<String>,
    pub pair: Option<String>,
}

/// One holder of the token and its share of the supply.
#[derive(Debug, Clone)]
pub struct HolderInfo {
    pub address: Option<String>,
    pub tag: Option<String>,
    pub is_contract: Option<i32>,
    pub balance: Option<String>,
    pub percent: Option<String>,
    pub is_locked: Option<i32>,
}

/// One holder of the pool's liquidity tokens.
#[allow(non_snake_case)]
#[derive(Debug)]
pub struct LPHolderInfo {
    pub address: Option<String>,
    pub locked: Option<String>,
    pub tag: Option<String>,
    pub is_contract: Option<String>,
    pub balance: Option<String>,
    pub percent: Option<String>,
    pub NFT_list: Vec<NFTDetail>,
    pub locked_detail: Vec<LockDetail>,
}

/// A lock on liquidity tokens.
#[derive(Debug)]
pub struct LockDetail {
    pub amount: Option<String>,
    pub end_time: Option<String>,
    pub opt_time: Option<String>,
}

/// A liquidity position held as an NFT.
#[allow(non_snake_case)]
#[derive(Debug)]
pub struct NFTDetail {
    pub value: Option<String>,
    pub NFT_id: Option<String>,
    pub amount: Option<String>,
    pub in_effect: Option<String>,
    pub NFT_percentage: Option<String>,
}

/// The real token that a counterfeit imitates.
#[derive(Debug)]
pub struct FakeTokenInfo {
    pub true_token_address: Option<String>,
    pub value: Option<String>,
}

/// Index of the first entry keyed by `key`, if any.
pub open spec fn first_entry_index(
    entries: Seq<(String, TokenSecurityDetails)>,
    key: Seq<char>,
) -> Option<int>
    decreases entries.len(),
{
    if entries.len() == 0 {
        None
    } else if entries[0].0@ == key {
        Some(0)
    } else {
        match first_entry_index(entries.drop_first(), key) {
            Some(i) => Some(i + 1),
            None => None,
        }
    }
}

proof fn lemma_first_entry_index(entries: Seq<(String, TokenSecurityDetails)>, key: Seq<char>, k: int)
    requires
        0 <= k <= entries.len(),
        forall|j: int| 0 <= j < k ==> entries[j].0@ != key,
    ensures
        k < entries.len() && entries[k].0@ == key ==> first_entry_index(entries, key) == Some(k),
        k == entries.len() ==> first_entry_index(entries, key) is None,
    decreases k,
{
    if k > 0 {
        let t = entries.drop_first();
        assert forall|j: int| 0 <= j < k - 1 implies t[j].0@ != key by {
            assert(t[j] == entries[j + 1]);
        }
        lemma_first_entry_index(t, key, k - 1);
        if k < entries.len() {
            assert(t[k - 1] == entries[k]);
        }
    }
}

/// Whether no two entries share a key.
pub open spec fn keys_distinct(entries: Seq<(String, TokenSecurityDetails)>) -> bool {
    forall|i: int, j: int|
        0 <= i < j < entries.len() ==> #[trigger] entries[i].0@ != #[trigger] entries[j].0@
}

impl TokenSecurityResponse {
    /// A response keys each address once.
    pub open spec fn wf(&self) -> bool {
        keys_distinct(self.result@)
    }

    /// Builds a response from its entries; `None` when two entries share a key.
    pub fn from_entries(entries: Vec<(String, TokenSecurityDetails)>) -> (r: Option<TokenSecurityResponse>)
        ensures
            r is Some <==> keys_distinct(entries@),
            r matches Some(resp) ==> resp.result@ == entries@ && resp.wf(),
    {
        let n = entries.len();
        let mut i: usize = 0;
        while i < n
            invariant
                n == entries@.len(),
                i <= n,
                forall|a: int, b: int|
                    0 <= a < i && a < b < n ==> #[trigger] entries@[a].0@ != #[trigger] entries@[b].0@,
            decreases n - i,
        {
            let mut j: usize = i + 1;
            while j < n
                invariant
                    n == entries@.len(),
                    i < n,
                    i + 1 <= j <= n,
                    forall|a: int, b: int|
                        0 <= a < i && a < b < n ==> #[trigger] entries@[a].0@ != #[trigger] entries@[b].0@,
                    forall|b: int| i < b < j ==> entries@[i as int].0@ != #[trigger] entries@[b].0@,
                decreases n - j,
            {
                if entries[i].0 == entries[j].0 {
                    assert(!keys_distinct(entries@)) by {
                        assert(entries@[i as int].0@ == entries@[j as int].0@);
                    }
                    return None;
                }
                j = j + 1;
            }
            i = i + 1;
        }
        Some(TokenSecurityResponse { result: entries })
    }

    /// The details reported under `key`: those of the first entry with that
    /// key, or `None` when the response has no such entry.
    pub fn details_for(&self, key: &String) -> (r: Option<&TokenSecurityDetails>)
        ensures
            match first_entry_index(self.result@, key@) {
                Some(i) => r matches Some(d) && *d == self.result@[i].1,
                None => r is None,
            },
    {
        let mut i: usize = 0;
        while i < self.result.len()
            invariant
                i <= self.result@.len(),
                forall|j: int| 0 <= j < i ==> self.result@[j].0@ != key@,
            decreases self.result@.len() - i,
        {
            if self.result[i].0 == *key {
                proof {
                    lemma_first_entry_index(self.result@, key@, i as int);
                }
                return Some(&self.result[i].1);
            }
            i = i + 1;
        }
        proof {
            lemma_first_entry_index(self.result@, key@, i as int);
        }
        None
    }
}

} // verus!
