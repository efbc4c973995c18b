//! The gap-limit unspent-address discovery engine: addresses are assumed to
//! be used contiguously from the start of the chain, so the scan walks
//! batches of consecutively derived addresses and stops at the first one
//! whose balance is zero.

use vstd::prelude::*;

use crate::codec::copy_bytes;
use crate::error::Error;

verus! {

/// How many consecutive addresses one discovery batch derives and queries.
pub const GAP_LIMIT: usize = 20;

/// A wallet chain: the hardened segments under which addresses are derived
/// by index. The chain itself is opaque to the scan; only its presence is
/// checked.
pub struct DerivationPath {
    pub segments: Vec<u32>,
}

impl Clone for DerivationPath {
    /// A copy holding the same segments.
    fn clone(&self) -> (r: Self)
        ensures
            r.segments@ == self.segments@,
    {
        let mut out: Vec<u32> = Vec::new();
        let mut i: usize = 0;
        while i < self.segments.len()
            invariant
                i <= self.segments@.len(),
                out@ == self.segments@.take(i as int),
            decreases self.segments@.len() - i,
        {
            out.push(self.segments[i]);
            proof {
                assert(out@ =~= self.segments@.take(i + 1));
            }
            i = i + 1;
        }
        proof {
            assert(self.segments@.take(i as int) =~= self.segments@);
        }
        DerivationPath { segments: out }
    }
}

/// A derived address: an opaque 32-byte identifier and an address-type tag.
pub struct Address {
    pub kind: u8,
    pub bytes: Vec<u8>,
}

impl Address {
    /// True when the identifier has its full 32 bytes.
    pub open spec fn wf(&self) -> bool {
        self.bytes@.len() == 32
    }
}

impl Clone for Address {
    /// A copy holding the same tag and bytes.
    fn clone(&self) -> (r: Self)
        ensures
            r.kind == self.kind && r.bytes@ == self.bytes@,
    {
        Address { kind: self.kind, bytes: copy_bytes(&self.bytes) }
    }
}

/// True when the first `n` balances of `s` are all nonzero.
pub open spec fn zero_free_prefix(s: Seq<u64>, n: int) -> bool {
    forall|j: int| 0 <= j < n ==> #[trigger] s[j] != 0
}

/// True when `i` is the first index at or after `start` where `s` holds a
/// zero balance.
pub open spec fn first_zero_at(s: Seq<u64>, start: int, i: int) -> bool {
    start <= i < s.len() && s[i] == 0 && (forall|j: int| start <= j < i ==> #[trigger] s[j] != 0)
}

/// A discovery scan in progress: the seed and chain it derives from, and the
/// absolute index the next batch starts at. The cursor only ever moves
/// upward; an index once passed over is never probed again.
pub struct UnspentScan {
    pub seed: Vec<u8>,
    pub path: DerivationPath,
    pub cursor: usize,
}

impl UnspentScan {
    /// The absolute index range of the next batch to derive and query:
    /// `GAP_LIMIT` consecutive indices starting at the cursor.
    pub fn next_batch_range(&self) -> (r: (usize, usize))
        requires
            self.cursor + GAP_LIMIT <= usize::MAX,
        ensures
            r.0 == self.cursor,
            r.1 == self.cursor + GAP_LIMIT,
    {
        (self.cursor, self.cursor + GAP_LIMIT)
    }

    /// Consumes the balances observed for the batch starting at the cursor,
    /// in index order. Returns the absolute index of the first zero balance
    /// and parks the cursor there; when every balance is nonzero, returns
    /// nothing and advances the cursor past the batch so that the next batch
    /// continues where this one ended.
    pub fn on_batch(&mut self, balances: &Vec<u64>) -> (found: Option<usize>)
        requires
            old(self).cursor + balances@.len() <= usize::MAX,
        ensures
            found is Some <==> !zero_free_prefix(balances@, balances@.len() as int),
            found matches Some(i) ==> old(self).cursor <= i && first_zero_at(
                balances@,
                0,
                i - old(self).cursor,
            ) && final(self).cursor == i,
            found is None ==> final(self).cursor == old(self).cursor + balances@.len(),
            final(self).seed@ == old(self).seed@ && final(self).path.segments@ == old(
                self,
            ).path.segments@,
    {
        let mut j: usize = 0;
        while j < balances.len()
            invariant
                j <= balances@.len(),
                zero_free_prefix(balances@, j as int),
                self.cursor + balances@.len() <= usize::MAX,
                *self == *old(self),
            decreases balances@.len() - j,
        {
            if balances[j] == 0 {
                let at = self.cursor + j;
                self.cursor = at;
                return Some(at);
            }
            j = j + 1;
        }
        self.cursor = self.cursor + balances.len();
        None
    }
}

/// A deferred discovery call: the seed, the chain path, and the start index,
/// gathered before the scan begins. The path is mandatory; the start index
/// defaults to zero.
pub struct GetUnspentAddressBuilder {
    pub seed: Vec<u8>,
    pub path: Option<DerivationPath>,
    pub index: Option<usize>,
}

impl GetUnspentAddressBuilder {
    /// A builder for the given seed, with no path and no start index yet.
    pub fn new(seed: Vec<u8>) -> (r: Self)
        ensures
            r.seed@ == seed@,
            r.path is None,
            r.index is None,
    {
        GetUnspentAddressBuilder { seed, path: None, index: None }
    }

    /// Sets the wallet chain path the scan derives under.
    pub fn path(self, path: DerivationPath) -> (r: Self)
        ensures
            r.seed@ == self.seed@,
            r.path matches Some(p) && p.segments@ == path.segments@,
            r.index == self.index,
    {
        GetUnspentAddressBuilder { path: Some(path), ..self }
    }

    /// Sets the absolute index the scan starts at.
    pub fn index(self, index: usize) -> (r: Self)
        ensures
            r.seed@ == self.seed@,
            r.path == self.path,
            r.index == Some(index),
    {
        GetUnspentAddressBuilder { index: Some(index), ..self }
    }

    /// Consumes the builder and begins the scan. Fails with
    /// `MissingParameter` exactly when no path was set — before any address
    /// is derived or any balance is queried; a missing start index defaults
    /// to zero.
    pub fn get(self) -> (r: Result<UnspentScan, Error>)
        ensures
            r is Ok <==> self.path is Some,
            r matches Ok(scan) ==> scan.seed@ == self.seed@ && (self.path matches Some(p)
                && scan.path.segments@ == p.segments@) && scan.cursor == (if self.index is Some {
                self.index.unwrap() as int
            } else {
                0
            }),
            r is Err ==> (r matches Err(Error::MissingParameter(s)) && s@ == "BIP32 path"@),
    {
        let path = match self.path {
            Some(p) => p,
            None => {
                return Err(Error::MissingParameter(String::from_str("BIP32 path")));
            },
        };
        let cursor = match self.index {
            Some(i) => i,
            None => 0,
        };
        Ok(UnspentScan { seed: self.seed, path, cursor })
    }
}

/// Scans a fully known balance sequence the way the discovery loop would:
/// batches of `batch` consecutive balances starting at `start`, each batch
/// read in index order. The result is the first index at or after `start`
/// holding a zero balance, whatever batch size at least one is used.
pub fn scan_balances(balances: &Vec<u64>, start: usize, batch: usize) -> (r: Option<usize>)
    requires
        batch >= 1,
    ensures
        r matches Some(i) ==> first_zero_at(balances@, start as int, i as int),
        r is Some <==> exists|i: int|
            start <= i < balances@.len() && #[trigger] balances@[i] == 0,
{
    let mut scan = UnspentScan {
        seed: Vec::new(),
        path: DerivationPath { segments: Vec::new() },
        cursor: start,
    };
    while scan.cursor < balances.len()
        invariant
            start <= scan.cursor,
            batch >= 1,
            forall|j: int| start <= j < scan.cursor ==> #[trigger] balances@[j] != 0,
        decreases balances@.len() - scan.cursor,
    {
        let mut chunk: Vec<u64> = Vec::new();
        let mut k: usize = scan.cursor;
        let end = if balances.len() - scan.cursor < batch {
            balances.len()
        } else {
            scan.cursor + batch
        };
        while k < end
            invariant
                scan.cursor <= k <= end,
                end <= balances@.len(),
                chunk@ == balances@.subrange(scan.cursor as int, k as int),
            decreases end - k,
        {
            chunk.push(balances[k]);
            proof {
                assert(chunk@ =~= balances@.subrange(scan.cursor as int, k + 1));
            }
            k = k + 1;
        }
        let ghost pre = scan.cursor as int;
        let found = scan.on_batch(&chunk);
        match found {
            Some(i) => {
                proof {
                    let off = i - pre;
                    assert(balances@[i as int] == chunk@[off]);
                    assert forall|j: int| start <= j < i implies #[trigger] balances@[j] != 0 by {
                        if j >= pre {
                            assert(chunk@[j - pre] != 0);
                        }
                    }
                }
                return Some(i);
            },
            None => {
                proof {
                    assert forall|j: int| start <= j < scan.cursor implies #[trigger] balances@[j]
                        != 0 by {
                        if j >= pre {
                            assert(chunk@[j - pre] != 0);
                        }
                    }
                }
            },
        }
    }
    proof {
        if exists|i: int| start <= i < balances@.len() && #[trigger] balances@[i] == 0 {
            let i = choose|i: int| start <= i < balances@.len() && #[trigger] balances@[i] == 0;
            assert(balances@[i] != 0);
        }
    }
    None
}

} // verus!
