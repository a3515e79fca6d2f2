use vstd::prelude::*;
use crate::address::Address;

verus! {

/// Where a trade stands.
#[derive(Clone, Copy, Debug, PartialEq, Eq, Structural)]
pub enum TradeStatus {
    OpenPosition,
    ClosedPosition,
    Canceled,
}

/// Why a trade stands where it does.
#[derive(Clone, Copy, Debug, PartialEq, Eq, Structural)]
pub enum TradeSubStatus {
    NotBaseTokenPair,
    ExistingPoolsFound,
    FailedSecurityCheck,
    InsufficientFunds,
}

/// The record of one candidate pair, keyed by the pair's address. Amounts
/// are in wei; the score and the multiplier are in millionths.
#[derive(Clone, Debug)]
pub struct ProcessedTrade {
    pub network_chain_id: u64,
    pub network_name: String,
    pub exchange_name: String,
    pub pair_address: Address,
    pub token_address: Address,
    pub base_token_address: Address,
    pub last_update: String,
    pub status: TradeStatus,
    pub substatus: Option<TradeSubStatus>,
    pub security_score: Option<i64>,
    pub amount_bought: Option<u128>,
    pub amount_sold: Option<u128>,
    pub exchange_fee_paid: Option<u128>,
    pub gas_fee_paid: Option<u128>,
    pub profit_or_loss: Option<i128>,
    pub multiplier: Option<i64>,
    pub bot_wallet_balance: Option<u128>,
}

/// The decimal digit `d`, for `d < 10`.
pub open spec fn digit_char(d: nat) -> char {
    if d == 0 {
        '0'
    } else if d == 1 {
        '1'
    } else if d == 2 {
        '2'
    } else if d == 3 {
        '3'
    } else if d == 4 {
        '4'
    } else if d == 5 {
        '5'
    } else if d == 6 {
        '6'
    } else if d == 7 {
        '7'
    } else if d == 8 {
        '8'
    } else {
        '9'
    }
}

/// `n` written in decimal, without leading zeros.
pub open spec fn decimal_digits(n: nat) -> Seq<char>
    decreases n,
{
    if n < 10 {
        seq![digit_char(n)]
    } else {
        decimal_digits(n / 10) + seq![digit_char(n % 10)]
    }
}

/// The text of a time stamp: the seconds since the Unix epoch in decimal,
/// or `Invalid time` for a clock set before the epoch.
pub open spec fn time_text(seconds: Option<u64>) -> Seq<char> {
    match seconds {
        Some(s) => decimal_digits(s as nat),
        None => "Invalid time"@,
    }
}

fn digit_str(d: u64) -> (r: &'static str)
    requires
        d < 10,
    ensures
        r@ == seq![digit_char(d as nat)],
{
    proof {
        reveal_strlit("0");
        reveal_strlit("1");
        reveal_strlit("2");
        reveal_strlit("3");
        reveal_strlit("4");
        reveal_strlit("5");
        reveal_strlit("6");
        reveal_strlit("7");
        reveal_strlit("8");
        reveal_strlit("9");
    }
    let r = if d == 0 {
        "0"
    } else if d == 1 {
        "1"
    } else if d == 2 {
        "2"
    } else if d == 3 {
        "3"
    } else if d == 4 {
        "4"
    } else if d == 5 {
        "5"
    } else if d == 6 {
        "6"
    } else if d == 7 {
        "7"
    } else if d == 8 {
        "8"
    } else {
        "9"
    };
    assert(r@ =~= seq![digit_char(d as nat)]);
    r
}

/// `n` written in decimal.
pub fn decimal_text(n: u64) -> (r: String)
    ensures
        r@ == decimal_digits(n as nat),
    decreases n,
{
    if n < 10 {
        String::from_str(digit_str(n))
    } else {
        let mut r = decimal_text(n / 10);
        r.append(digit_str(n % 10));
        r
    }
}

/// Relies on std's `SystemTime::elapsed` applied to `UNIX_EPOCH`: the whole
/// seconds since the epoch, or `None` when the clock is set before it.
#[verifier::external_body]
pub(crate) fn seconds_since_epoch() -> (r: Option<u64>) {
    std::time::UNIX_EPOCH.elapsed().ok().map(|d| d.as_secs())
}

/// The text of a time stamp taken from a clock reading.
pub fn time_stamp_text(seconds: Option<u64>) -> (r: String)
    ensures
        r@ == time_text(seconds),
{
    match seconds {
        Some(s) => decimal_text(s),
        None => String::from_str("Invalid time"),
    }
}

/// The time now, as the text of a time stamp.
pub fn formatted_time() -> (r: String)
    ensures
        exists|seconds: Option<u64>| r@ == time_text(seconds),
{
    let seconds = seconds_since_epoch();
    time_stamp_text(seconds)
}

impl ProcessedTrade {
    /// A new record, an open position with nothing bought yet.
    pub fn new(
        network_chain_id: u64,
        network_name: String,
        exchange_name: String,
        pair_address: Address,
        token_address: Address,
        base_token_address: Address,
    ) -> (r: ProcessedTrade)
        ensures
            r.network_chain_id == network_chain_id,
            r.network_name@ == network_name@,
            r.exchange_name@ == exchange_name@,
            r.pair_address == pair_address,
            r.token_address == token_address,
            r.base_token_address == base_token_address,
            exists|seconds: Option<u64>| r.last_update@ == time_text(seconds),
            r.status == TradeStatus::OpenPosition,
            r.substatus is None,
            r.security_score is None,
            r.amount_bought is None,
            r.amount_sold is None,
            r.exchange_fee_paid is None,
            r.gas_fee_paid is None,
            r.profit_or_loss is None,
            r.multiplier is None,
            r.bot_wallet_balance is None,
    {
        ProcessedTrade {
            network_chain_id,
            network_name,
            exchange_name,
            pair_address,
            token_address,
            base_token_address,
            last_update: formatted_time(),
            status: TradeStatus::OpenPosition,
            substatus: None,
            security_score: None,
            amount_bought: None,
            amount_sold: None,
            exchange_fee_paid: None,
            gas_fee_paid: None,
            profit_or_loss: None,
            multiplier: None,
            bot_wallet_balance: None,
        }
    }

    /// Marks the position open, with the amount bought and the score.
    pub fn open_position(&mut self, amount: u128, security_score: i64)
        ensures
            *final(self) == (ProcessedTrade {
                status: TradeStatus::OpenPosition,
                amount_bought: Some(amount),
                security_score: Some(security_score),
                last_update: final(self).last_update,
                ..*old(self)
            }),
            exists|seconds: Option<u64>| final(self).last_update@ == time_text(seconds),
    {
        self.status = TradeStatus::OpenPosition;
        self.amount_bought = Some(amount);
        self.security_score = Some(security_score);
        self.last_update = formatted_time();
    }

    /// Marks the position closed, with the amount sold and the result.
    pub fn closed_position(&mut self, amount_sold: u128, profit_or_loss: i128)
        ensures
            *final(self) == (ProcessedTrade {
                status: TradeStatus::ClosedPosition,
                amount_sold: Some(amount_sold),
                profit_or_loss: Some(profit_or_loss),
                last_update: final(self).last_update,
                ..*old(self)
            }),
            exists|seconds: Option<u64>| final(self).last_update@ == time_text(seconds),
    {
        self.status = TradeStatus::ClosedPosition;
        self.amount_sold = Some(amount_sold);
        self.profit_or_loss = Some(profit_or_loss);
        self.last_update = formatted_time();
    }

    /// Marks the trade canceled, for the reason given.
    pub fn canceled(&mut self, substatus: TradeSubStatus)
        ensures
            *final(self) == (ProcessedTrade {
                status: TradeStatus::Canceled,
                substatus: Some(substatus),
                last_update: final(self).last_update,
                ..*old(self)
            }),
            exists|seconds: Option<u64>| final(self).last_update@ == time_text(seconds),
    {
        self.status = TradeStatus::Canceled;
        self.substatus = Some(substatus);
        self.last_update = formatted_time();
    }
}

/// Index of the first record of the pair `pair`, if any.
pub open spec fn first_record_index(records: Seq<ProcessedTrade>, pair: Address) -> Option<int>
    decreases records.len(),
{
    if records.len() == 0 {
        None
    } else if records[0].pair_address == pair {
        Some(0)
    } else {
        match first_record_index(records.drop_first(), pair) {
            Some(i) => Some(i + 1),
            None => None,
        }
    }
}

proof fn lemma_first_record_index(records: Seq<ProcessedTrade>, pair: Address, k: int)
    requires
        0 <= k <= records.len(),
        forall|j: int| 0 <= j < k ==> records[j].pair_address != pair,
    ensures
        k < records.len() && records[k].pair_address == pair ==> first_record_index(records, pair)
            == Some(k),
        k == records.len() ==> first_record_index(records, pair) is None,
    decreases k,
{
    if k > 0 {
        let t = records.drop_first();
        assert forall|j: int| 0 <= j < k - 1 implies t[j].pair_address != pair by {
            assert(t[j] == records[j + 1]);
        }
        lemma_first_record_index(t, pair, k - 1);
        if k < records.len() {
            assert(t[k - 1] == records[k]);
        }
    }
}

/// Puts `data` in place of the first record of the same pair; the records
/// are left as they are when none is of that pair.
pub fn update_record(records: &mut Vec<ProcessedTrade>, data: ProcessedTrade)
    ensures
        match first_record_index(old(records)@, data.pair_address) {
            Some(i) => final(records)@ == old(records)@.update(i, data),
            None => final(records)@ == old(records)@,
        },
{
    let mut i: usize = 0;
    while i < records.len()
        invariant
            records@ == old(records)@,
            i <= records@.len(),
            forall|j: int| 0 <= j < i ==> records@[j].pair_address != data.pair_address,
        decreases records@.len() - i,
    {
        if records[i].pair_address == data.pair_address {
            proof {
                lemma_first_record_index(records@, data.pair_address, i as int);
            }
            records.set(i, data);
            return;
        }
        i = i + 1;
    }
    proof {
        lemma_first_record_index(records@, data.pair_address, i as int);
    }
}

} // verus!
