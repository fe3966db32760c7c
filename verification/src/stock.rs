//! The instruments that a service tracks.

use vstd::prelude::*;

verus! {

/// One tracked instrument. Its `id` names it; its `sentiment_port` is the
/// multicast port that carries its feed.
#[derive(Debug, Clone)]
pub struct Stock {
    pub ticker: String,
    pub id: u64,
    pub company_name: String,
    /// Number of shares.
    pub total_float: u64,
    /// Price at start-up, in millionths.
    pub initial_price: i64,
    pub sentiment_port: u64,
}

/// The ids of a list of instruments, in order.
pub open spec fn ids_of(stocks: Seq<Stock>) -> Seq<u64> {
    Seq::new(stocks.len(), |i: int| stocks[i].id)
}

/// The ports of a list of instruments, in order.
pub open spec fn ports_of(stocks: Seq<Stock>) -> Seq<u64> {
    Seq::new(stocks.len(), |i: int| stocks[i].sentiment_port)
}

/// Collects the ids of `stocks`, in order.
pub fn instrument_ids(stocks: &Vec<Stock>) -> (ids: Vec<u64>)
    ensures
        ids@ == ids_of(stocks@),
{
    let mut ids: Vec<u64> = Vec::new();
    let n: usize = stocks.len();
    let mut i: usize = 0;
    while i < n
        invariant
            i <= n,
            n == stocks.len(),
            ids.len() == i,
            forall|k: int| 0 <= k < i ==> ids@[k] == stocks@[k].id,
        decreases n - i,
    {
        ids.push(stocks[i].id);
        i += 1;
    }
    assert(ids@ =~= ids_of(stocks@));
    ids
}

/// Collects the ports of `stocks`, in order.
pub fn instrument_ports(stocks: &Vec<Stock>) -> (ports: Vec<u64>)
    ensures
        ports@ == ports_of(stocks@),
{
    let mut ports: Vec<u64> = Vec::new();
    let n: usize = stocks.len();
    let mut i: usize = 0;
    while i < n
        invariant
            i <= n,
            n == stocks.len(),
            ports.len() == i,
            forall|k: int| 0 <= k < i ==> ports@[k] == stocks@[k].sentiment_port,
        decreases n - i,
    {
        ports.push(stocks[i].sentiment_port);
        i += 1;
    }
    assert(ports@ =~= ports_of(stocks@));
    ports
}

/// Tells whether no number occurs twice in `values`.
pub fn all_distinct(values: &Vec<u64>) -> (r: bool)
    ensures
        r == values@.no_duplicates(),
{
    let n: usize = values.len();
    let mut i: usize = 0;
    while i < n
        invariant
            i <= n,
            n == values.len(),
            forall|a: int, b: int| 0 <= a < b < i ==> values@[a] != values@[b],
        decreases n - i,
    {
        let mut j: usize = 0;
        while j < i
            invariant
                j <= i < n,
                n == values.len(),
                forall|a: int| 0 <= a < j ==> values@[a] != values@[i as int],
            decreases i - j,
        {
            if values[j] == values[i] {
                assert(values@[j as int] == values@[i as int]);
                return false;
            }
            j += 1;
        }
        i += 1;
    }
    assert forall|a: int, b: int|
        0 <= a < values@.len() && 0 <= b < values@.len() && a != b implies values@[a]
        != values@[b] by {
        if a < b {
            assert(values@[a] != values@[b]);
        } else {
            assert(values@[b] != values@[a]);
        }
    }
    true
}

} // verus!
