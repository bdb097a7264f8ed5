//! Reading the exchange's reply envelope, and deciding from the balances
//! whether to sell.

use crate::text::{is_positive_decimal, positive_decimal};
use vstd::prelude::*;
use vstd::string::StringExecFns;

verus! {

/// The envelope of every reply: a list of error messages (empty on success)
/// and, optionally, a mapping from string keys to string values, held as
/// its entries.
#[derive(Debug, PartialEq, Eq)]
pub struct Envelope {
    pub error: Vec<String>,
    pub result: Option<Vec<(String, String)>>,
}

/// What a reply envelope says.
#[derive(Debug, PartialEq, Eq)]
pub enum Reply {
    /// No errors, and the result's entries.
    Data(Vec<(String, String)>),
    /// The exchange reported these errors.
    ApiErrors(Vec<String>),
    /// No errors, but no result either.
    NoData,
}

/// Whether an HTTP status code is a success (2xx).
pub fn is_success(status: u16) -> (r: bool)
    ensures
        r == (200 <= status && status < 300),
{
    200 <= status && status < 300
}

/// Reads an envelope: its errors where there are any, else its result.
pub fn read_envelope(env: Envelope) -> (r: Reply)
    ensures
        env.error@.len() > 0 ==> r == Reply::ApiErrors(env.error),
        env.error@.len() == 0 && env.result is Some ==> r == Reply::Data(env.result->0),
        env.error@.len() == 0 && env.result is None ==> r == Reply::NoData,
{
    if env.error.len() > 0 {
        Reply::ApiErrors(env.error)
    } else {
        match env.result {
            Some(entries) => Reply::Data(entries),
            None => Reply::NoData,
        }
    }
}

impl Reply {
    /// The balances that a reply yields: the result's entries where the
    /// reply has them, else none.
    pub fn into_balances(self) -> (r: Option<Vec<(String, String)>>)
        ensures
            self matches Reply::Data(entries) ==> r == Some(entries),
            !(self is Data) ==> r is None,
    {
        match self {
            Reply::Data(entries) => Some(entries),
            _ => None,
        }
    }

}

/// The value of the first entry whose key is `key`, if any.
pub open spec fn lookup(entries: Seq<(String, String)>, key: Seq<char>) -> Option<Seq<char>>
    decreases entries.len(),
{
    if entries.len() == 0 {
        None
    } else if entries[0].0@ == key {
        Some(entries[0].1@)
    } else {
        lookup(entries.skip(1), key)
    }
}

proof fn lemma_lookup_step(entries: Seq<(String, String)>, key: Seq<char>, i: int)
    requires
        0 <= i < entries.len(),
    ensures
        lookup(entries.skip(i), key) == if entries[i].0@ == key {
            Some(entries[i].1@)
        } else {
            lookup(entries.skip(i + 1), key)
        },
{
    assert(entries.skip(i).skip(1) =~= entries.skip(i + 1));
}

/// The asset whose whole balance is sold.
pub open spec fn sold_asset() -> Seq<char> {
    "USDC"@
}

/// The volume to sell, given the balances: the balance of the sold asset
/// where there is one and it reads as a decimal greater than zero.
pub open spec fn volume_to_sell(entries: Seq<(String, String)>) -> Option<Seq<char>> {
    match lookup(entries, sold_asset()) {
        Some(b) => if is_positive_decimal(b) {
            Some(b)
        } else {
            None
        },
        None => None,
    }
}

/// The balance of `asset` among the entries (the first entry with that key).
pub fn balance_of(entries: &Vec<(String, String)>, asset: &str) -> (r: Option<String>)
    ensures
        match r {
            Some(v) => lookup(entries@, asset@) == Some(v@),
            None => lookup(entries@, asset@) is None,
        },
{
    let key = String::from_str(asset);
    let mut i: usize = 0;
    assert(entries@.skip(0) =~= entries@);
    while i < entries.len()
        invariant
            0 <= i <= entries@.len(),
            key@ == asset@,
            lookup(entries@, asset@) == lookup(entries@.skip(i as int), asset@),
        decreases entries@.len() - i,
    {
        proof {
            lemma_lookup_step(entries@, asset@, i as int);
        }
        if entries[i].0 == key {
            return Some(entries[i].1.clone());
        }
        i = i + 1;
    }
    None
}

/// The volume of the market sell order to place, if any: the whole balance
/// of the sold asset, exactly as the exchange wrote it, where it reads as a
/// decimal greater than zero; `None` means no order.
pub fn sell_volume(entries: &Vec<(String, String)>) -> (r: Option<String>)
    ensures
        match r {
            Some(v) => volume_to_sell(entries@) == Some(v@),
            None => volume_to_sell(entries@) is None,
        },
{
    match balance_of(entries, "USDC") {
        Some(b) => {
            if positive_decimal(b.as_str()) {
                Some(b)
            } else {
                None
            }
        },
        None => None,
    }
}

} // verus!
