//! Building a canonical transaction from a record, and what else a record yields.
use amplify::confinement::{Confined, U32};
use vstd::prelude::*;
use crate::hex::witness_decoded;
use crate::model::{
    bounded, BlockTime, Outpoint, Transaction, Tx, TxIn, TxOut, TxStatus, Vin, Vout, MAX_ITEMS,
    MIN_ITEMS,
};

verus! {

/// Why a collection does not fit its bounds.
#[derive(Clone, Copy, Debug, PartialEq, Eq, Structural)]
pub enum ConfinementError {
    /// Fewer elements than the least allowed.
    Undersize { len: usize, min_len: usize },
    /// More elements than the most allowed.
    Oversize { len: usize, max_len: usize },
    /// An index past the end of the collection.
    OutOfBoundary { index: usize, len: usize },
}

/// The error for a list of `n` elements that is out of bounds.
pub open spec fn confinement_error(n: nat) -> ConfinementError {
    if n < MIN_ITEMS {
        ConfinementError::Undersize { len: n as usize, min_len: MIN_ITEMS }
    } else {
        ConfinementError::Oversize { len: n as usize, max_len: MAX_ITEMS }
    }
}

/// Relies on amplify's `Confined::try_from` with bounds 1 and `U32`
/// (`u32::MAX`): it fails with `Undersize` below the least length, with
/// `Oversize` above the greatest, and otherwise holds the collection unchanged,
/// which `release` hands back.
#[verifier::external_body]
fn confine<T>(v: Vec<T>) -> (r: Result<Vec<T>, ConfinementError>)
    ensures
        r is Ok <==> bounded(v@.len()),
        r is Ok ==> r->Ok_0@ == v@,
        r is Err ==> r->Err_0 == confinement_error(v@.len()),
{
    match Confined::<Vec<T>, 1, U32>::try_from(v) {
        Ok(c) => Ok(c.release()),
        Err(amplify::confinement::Error::Undersize { len, min_len }) => Err(
            ConfinementError::Undersize { len, min_len },
        ),
        Err(amplify::confinement::Error::Oversize { len, max_len }) => Err(
            ConfinementError::Oversize { len, max_len },
        ),
        Err(amplify::confinement::Error::OutOfBoundary { index, len }) => Err(
            ConfinementError::OutOfBoundary { index, len },
        ),
    }
}

/// Two stacks of byte strings hold the same bytes, in the same order.
pub open spec fn same_stack(a: Seq<Vec<u8>>, b: Seq<Vec<u8>>) -> bool {
    a.len() == b.len() && forall|i: int| 0 <= i < a.len() ==> #[trigger] a[i]@ == b[i]@
}

/// The canonical input that a record's input stands for.
pub open spec fn input_of(t: TxIn, v: Vin) -> bool {
    &&& t.prev_output == Outpoint { txid: v.txid, vout: v.vout }
    &&& t.sig_script@ == v.scriptsig@
    &&& t.sequence == v.sequence
    &&& same_stack(t.witness@, v.witness@)
}

/// The canonical output that a record's output stands for.
pub open spec fn output_of(t: TxOut, v: Vout) -> bool {
    t.value == v.value && t.script_pubkey@ == v.scriptpubkey@
}

/// A record can be built: it has inputs and outputs, within the bounds.
pub open spec fn builds(raw: Tx) -> bool {
    bounded(raw.vin@.len()) && bounded(raw.vout@.len())
}

/// `t` is the canonical transaction of the record `raw`: the same version and
/// lock time, and one input and one output for each of the record's, in order.
pub open spec fn built_from(t: Transaction, raw: Tx) -> bool {
    &&& t.version == raw.version
    &&& t.lock_time == raw.locktime
    &&& t.inputs@.len() == raw.vin@.len()
    &&& forall|i: int| 0 <= i < t.inputs@.len() ==> input_of(#[trigger] t.inputs@[i], raw.vin@[i])
    &&& t.outputs@.len() == raw.vout@.len()
    &&& forall|i: int|
        0 <= i < t.outputs@.len() ==> output_of(#[trigger] t.outputs@[i], raw.vout@[i])
}

/// The block time of a status: present only when the status is confirmed and
/// gives both height and time.
pub open spec fn block_time_of(s: TxStatus) -> Option<BlockTime> {
    if s.confirmed && s.block_height is Some && s.block_time is Some {
        Some(BlockTime { timestamp: s.block_time->Some_0, height: s.block_height->Some_0 })
    } else {
        None
    }
}

/// `o` is what the input `v` reveals of the output that it spends.
pub open spec fn prev_output_of(o: Option<TxOut>, v: Vin) -> bool {
    match v.prevout {
        None => o is None,
        Some(p) => o is Some && o->Some_0.value == p.value && o->Some_0.script_pubkey@
            == p.scriptpubkey@,
    }
}

fn copy_bytes(b: &Vec<u8>) -> (r: Vec<u8>)
    ensures
        r@ == b@,
{
    let mut r: Vec<u8> = Vec::new();
    let mut i: usize = 0;
    while i < b.len()
        invariant
            0 <= i <= b@.len(),
            r@ == b@.subrange(0, i as int),
        decreases b@.len() - i,
    {
        r.push(b[i]);
        i = i + 1;
        assert(r@ =~= b@.subrange(0, i as int));
    }
    assert(r@ =~= b@);
    r
}

fn copy_stack(s: &Vec<Vec<u8>>) -> (r: Vec<Vec<u8>>)
    ensures
        same_stack(r@, s@),
{
    let mut r: Vec<Vec<u8>> = Vec::new();
    let mut i: usize = 0;
    while i < s.len()
        invariant
            0 <= i <= s@.len(),
            r@.len() == i,
            forall|j: int| 0 <= j < i ==> #[trigger] r@[j]@ == s@[j]@,
        decreases s@.len() - i,
    {
        r.push(copy_bytes(&s[i]));
        i = i + 1;
    }
    r
}

/// A coinbase input without a previous output does not keep a record within
/// bounds from being built, and the previous output given for it is nothing.
pub proof fn lemma_coinbase_input(raw: Tx, i: int, prev: Seq<Option<TxOut>>)
    requires
        bounded(raw.vin@.len()),
        bounded(raw.vout@.len()),
        0 <= i < raw.vin@.len(),
        raw.vin@[i].is_coinbase,
        raw.vin@[i].prevout is None,
        prev.len() == raw.vin@.len(),
        forall|j: int| 0 <= j < prev.len() ==> prev_output_of(#[trigger] prev[j], raw.vin@[j]),
    ensures
        builds(raw),
        prev[i] is None,
{
    assert(prev_output_of(prev[i], raw.vin@[i]));
}

/// An input whose witness field was absent has the empty witness stack in the
/// canonical transaction.
pub proof fn lemma_absent_witness(raw: Tx, t: Transaction, i: int)
    requires
        built_from(t, raw),
        0 <= i < raw.vin@.len(),
        witness_decoded(None, raw.vin@[i].witness@),
    ensures
        t.inputs@[i].witness@.len() == 0,
{
    assert(input_of(t.inputs@[i], raw.vin@[i]));
}

/// A status gives a block time exactly when it is confirmed and has both a
/// height and a time, whatever its block hash.
pub proof fn lemma_block_time_iff(s: TxStatus)
    ensures
        block_time_of(s) is Some <==> (s.confirmed && s.block_height is Some
            && s.block_time is Some),
        block_time_of(s) is Some ==> block_time_of(s)->Some_0 == (BlockTime {
            timestamp: s.block_time->Some_0,
            height: s.block_height->Some_0,
        }),
        forall|h: Option<[u8; 32]>|
            #[trigger] block_time_of(TxStatus { block_hash: h, ..s }) == block_time_of(s),
{
}

impl Tx {
    /// Builds the canonical transaction: inputs and outputs copied in order,
    /// sequence numbers as given. Fails when either list is empty or longer
    /// than the protocol allows; the inputs are checked first.
    pub fn to_tx(&self) -> (r: Result<Transaction, ConfinementError>)
        ensures
            r is Ok <==> builds(*self),
            r is Ok ==> built_from(r->Ok_0, *self) && r->Ok_0.wf(),
            !bounded(self.vin@.len()) ==> r == Err::<Transaction, ConfinementError>(
                confinement_error(self.vin@.len()),
            ),
            bounded(self.vin@.len()) && !bounded(self.vout@.len()) ==> r == Err::<
                Transaction,
                ConfinementError,
            >(confinement_error(self.vout@.len())),
    {
        let mut inputs: Vec<TxIn> = Vec::new();
        let mut i: usize = 0;
        while i < self.vin.len()
            invariant
                0 <= i <= self.vin@.len(),
                inputs@.len() == i,
                forall|j: int| 0 <= j < i ==> input_of(#[trigger] inputs@[j], self.vin@[j]),
            decreases self.vin@.len() - i,
        {
            let vin = &self.vin[i];
            inputs.push(
                TxIn {
                    prev_output: Outpoint { txid: vin.txid, vout: vin.vout },
                    sig_script: copy_bytes(&vin.scriptsig),
                    sequence: vin.sequence,
                    witness: copy_stack(&vin.witness),
                },
            );
            i = i + 1;
        }
        let mut outputs: Vec<TxOut> = Vec::new();
        let mut k: usize = 0;
        while k < self.vout.len()
            invariant
                0 <= k <= self.vout@.len(),
                outputs@.len() == k,
                forall|j: int| 0 <= j < k ==> output_of(#[trigger] outputs@[j], self.vout@[j]),
            decreases self.vout@.len() - k,
        {
            let vout = &self.vout[k];
            outputs.push(TxOut { value: vout.value, script_pubkey: copy_bytes(&vout.scriptpubkey) });
            k = k + 1;
        }
        let inputs = match confine(inputs) {
            Ok(c) => c,
            Err(e) => {
                return Err(e);
            },
        };
        let outputs = match confine(outputs) {
            Ok(c) => c,
            Err(e) => {
                return Err(e);
            },
        };
        Ok(Transaction { version: self.version, lock_time: self.locktime, inputs, outputs })
    }

    /// The block height and time of a confirmed transaction; `None` unless the
    /// status is confirmed and gives both. The block hash plays no part.
    pub fn confirmation_time(&self) -> (r: Option<BlockTime>)
        ensures
            r == block_time_of(self.status),
    {
        if self.status.confirmed {
            match (self.status.block_height, self.status.block_time) {
                (Some(height), Some(timestamp)) => Some(BlockTime { timestamp, height }),
                _ => None,
            }
        } else {
            None
        }
    }

    /// For each input, in order, the output that it spends where the record
    /// gives it, and `None` where it does not.
    pub fn previous_outputs(&self) -> (r: Vec<Option<TxOut>>)
        ensures
            r@.len() == self.vin@.len(),
            forall|i: int| 0 <= i < r@.len() ==> prev_output_of(#[trigger] r@[i], self.vin@[i]),
    {
        let mut r: Vec<Option<TxOut>> = Vec::new();
        let mut i: usize = 0;
        while i < self.vin.len()
            invariant
                0 <= i <= self.vin@.len(),
                r@.len() == i,
                forall|j: int| 0 <= j < i ==> prev_output_of(#[trigger] r@[j], self.vin@[j]),
            decreases self.vin@.len() - i,
        {
            let o = match &self.vin[i].prevout {
                None => None,
                Some(p) => Some(TxOut { value: p.value, script_pubkey: copy_bytes(&p.scriptpubkey) }),
            };
            r.push(o);
            i = i + 1;
        }
        r
    }
}

} // verus!
