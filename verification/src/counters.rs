//! Traffic counter tables: byte counts observed per destination address
//! and local interface.
//!
//! A table is a list of samples. A key may occur in more than one sample;
//! what the table says of a key is the sum of the samples that carry it.

use crate::address::IpAddress;
use vstd::prelude::*;

verus! {

/// Bytes counted for one destination on one local interface.
#[derive(Debug, PartialEq, Eq)]
pub struct CounterSample {
    pub dest: IpAddress,
    pub iface: String,
    pub bytes: u64,
}

impl CounterSample {
    /// A sample of `bytes` bytes for `dest` on `iface`.
    pub fn new(dest: IpAddress, iface: String, bytes: u64) -> (r: CounterSample)
        ensures
            r.dest == dest,
            r.iface == iface,
            r.bytes == bytes,
    {
        CounterSample { dest, iface, bytes }
    }

    /// A second sample equal to this one.
    pub fn duplicate(&self) -> (r: CounterSample)
        ensures
            r == *self,
    {
        CounterSample { dest: self.dest, iface: self.iface.clone(), bytes: self.bytes }
    }
}

/// The bytes that a table counts for `dest` on `iface`: the sum over the
/// samples with that key.
pub open spec fn bytes_for(samples: Seq<CounterSample>, dest: IpAddress, iface: Seq<char>) -> nat
    decreases samples.len(),
{
    if samples.len() == 0 {
        0
    } else {
        let s = samples.last();
        bytes_for(samples.drop_last(), dest, iface) + if s.dest == dest && s.iface@ == iface {
            s.bytes as nat
        } else {
            0
        }
    }
}

/// Two tables laid end to end count, for every key, the sum of what the
/// two count.
pub proof fn lemma_bytes_for_concat(
    a: Seq<CounterSample>,
    b: Seq<CounterSample>,
    dest: IpAddress,
    iface: Seq<char>,
)
    ensures
        bytes_for(a + b, dest, iface) == bytes_for(a, dest, iface) + bytes_for(b, dest, iface),
    decreases b.len(),
{
    if b.len() == 0 {
        assert(a + b =~= a);
    } else {
        assert((a + b).drop_last() =~= a + b.drop_last());
        assert((a + b).last() == b.last());
        lemma_bytes_for_concat(a, b.drop_last(), dest, iface);
    }
}

/// Merges two counter tables into one that counts, for every key, the sum
/// of what the two tables count: the samples of `a` followed by those of
/// `b`.
pub fn merge_counters(a: &Vec<CounterSample>, b: &Vec<CounterSample>) -> (r: Vec<CounterSample>)
    ensures
        r@ == a@ + b@,
        forall|dest: IpAddress, iface: Seq<char>|
            #![trigger bytes_for(r@, dest, iface)]
            bytes_for(r@, dest, iface) == bytes_for(a@, dest, iface) + bytes_for(
                b@,
                dest,
                iface,
            ),
{
    let mut r: Vec<CounterSample> = Vec::new();
    let mut i: usize = 0;
    while i < a.len()
        invariant
            i <= a.len(),
            r@ == a@.take(i as int),
        decreases a.len() - i,
    {
        r.push(a[i].duplicate());
        i += 1;
        assert(r@ =~= a@.take(i as int));
    }
    assert(a@.take(a.len() as int) =~= a@);
    let mut j: usize = 0;
    while j < b.len()
        invariant
            j <= b.len(),
            r@ == a@ + b@.take(j as int),
        decreases b.len() - j,
    {
        r.push(b[j].duplicate());
        j += 1;
        assert(r@ =~= a@ + b@.take(j as int));
    }
    assert(b@.take(b.len() as int) =~= b@);
    proof {
        assert forall|dest: IpAddress, iface: Seq<char>|
            #![trigger bytes_for(r@, dest, iface)]
            bytes_for(r@, dest, iface) == bytes_for(a@, dest, iface) + bytes_for(
                b@,
                dest,
                iface,
            ) by {
            lemma_bytes_for_concat(a@, b@, dest, iface);
        }
    }
    r
}

} // verus!
