use vstd::prelude::*;
use vstd::slice::{slice_subrange, slice_to_vec};
use crate::amount::{Amount, be_value};

verus! {

/// The signature hash that marks a token transfer event:
/// keccak256 of `Transfer(address,address,uint256)`.
pub open spec fn transfer_signature() -> Seq<u8> {
    seq![
        0xddu8, 0xf2, 0x52, 0xad, 0x1b, 0xe2, 0xc8, 0x9b,
        0x69, 0xc2, 0xb0, 0x68, 0xfc, 0x37, 0x8d, 0xaa,
        0x95, 0x2b, 0xa7, 0xf1, 0x63, 0xc4, 0xa1, 0x16,
        0x28, 0xf5, 0x5a, 0x4d, 0xf5, 0x23, 0xb3, 0xef,
    ]
}

/// The signature hash of the transfer event, as bytes.
pub fn transfer_signature_bytes() -> (r: Vec<u8>)
    ensures
        r@ == transfer_signature(),
{
    let r: Vec<u8> = vec![
        0xddu8, 0xf2, 0x52, 0xad, 0x1b, 0xe2, 0xc8, 0x9b,
        0x69, 0xc2, 0xb0, 0x68, 0xfc, 0x37, 0x8d, 0xaa,
        0x95, 0x2b, 0xa7, 0xf1, 0x63, 0xc4, 0xa1, 0x16,
        0x28, 0xf5, 0x5a, 0x4d, 0xf5, 0x23, 0xb3, 0xef,
    ];
    assert(r@ =~= transfer_signature());
    r
}

/// An event log as the chain reports it: indexed 32-byte topic words, an
/// unindexed payload, and where it was emitted.
#[derive(Clone, Debug)]
pub struct RawLog {
    /// The emitting contract.
    pub address: Vec<u8>,
    pub topics: Vec<Vec<u8>>,
    pub data: Vec<u8>,
    pub block_number: Option<u64>,
    pub transaction_hash: Option<Vec<u8>>,
    pub log_index: Option<u64>,
}

impl RawLog {
    /// Every topic is a 32-byte word.
    pub open spec fn wf(&self) -> bool {
        forall|i: int| 0 <= i < self.topics@.len() ==> (#[trigger] self.topics@[i])@.len() == 32
    }
}

/// A decoded token transfer. Addresses are 20 bytes, the transaction hash
/// 32 bytes.
#[derive(Clone, Debug)]
pub struct Erc20Transfer {
    pub block_number: u64,
    pub tx_hash: Vec<u8>,
    pub log_index: u64,
    pub from: Vec<u8>,
    pub to: Vec<u8>,
    pub value: Amount,
}

/// Whether a log carries a transfer event: exactly three topics, the first
/// being the transfer signature.
pub open spec fn is_transfer_log(l: RawLog) -> bool {
    l.topics@.len() == 3 && l.topics@[0]@ == transfer_signature()
}

/// Whether a log decodes to a transfer: a transfer event with a payload of at
/// least 32 bytes and all of its provenance present.
pub open spec fn decodes(l: RawLog) -> bool {
    is_transfer_log(l) && l.data@.len() >= 32 && l.block_number.is_some()
        && l.transaction_hash.is_some() && l.log_index.is_some()
}

/// The low 20 bytes of a 32-byte topic word: the address it holds.
pub open spec fn topic_address(t: Seq<u8>) -> Seq<u8> {
    t.subrange(12, 32)
}

/// The transferred value: the big-endian number in the last 32 bytes of the
/// payload.
pub open spec fn payload_value(d: Seq<u8>) -> nat {
    be_value(d.subrange(d.len() - 32, d.len() as int))
}

/// Whether two byte strings are equal.
pub(crate) fn bytes_equal(a: &Vec<u8>, b: &Vec<u8>) -> (r: bool)
    ensures
        r == (a@ == b@),
{
    if a.len() != b.len() {
        return false;
    }
    let mut i: usize = 0;
    while i < a.len()
        invariant
            a@.len() == b@.len(),
            i <= a@.len(),
            forall|j: int| 0 <= j < i ==> a@[j] == b@[j],
        decreases a@.len() - i,
    {
        if a[i] != b[i] {
            return false;
        }
        i = i + 1;
    }
    assert(a@ =~= b@);
    true
}

/// Decodes a transfer log; `None` for any log that is not a transfer event,
/// whose payload is shorter than 32 bytes, or whose provenance is missing.
pub fn decode_transfer(lg: &RawLog) -> (r: Option<Erc20Transfer>)
    requires
        lg.wf(),
    ensures
        r.is_some() <==> decodes(*lg),
        r matches Some(t) ==> {
            &&& t.from@ == topic_address(lg.topics@[1]@)
            &&& t.to@ == topic_address(lg.topics@[2]@)
            &&& t.value.value() == payload_value(lg.data@)
            &&& Some(t.block_number) == lg.block_number
            &&& Some(t.log_index) == lg.log_index
            &&& lg.transaction_hash matches Some(h) && t.tx_hash@ == h@
        },
{
    if lg.topics.len() != 3 {
        return None;
    }
    let sig = transfer_signature_bytes();
    if !bytes_equal(&lg.topics[0], &sig) {
        return None;
    }
    let n = lg.data.len();
    if n < 32 {
        return None;
    }
    let block_number = match lg.block_number {
        Some(b) => b,
        None => return None,
    };
    let tx_hash = match &lg.transaction_hash {
        Some(h) => h.clone(),
        None => return None,
    };
    let log_index = match lg.log_index {
        Some(i) => i,
        None => return None,
    };
    assert(lg.topics@[1]@.len() == 32 && lg.topics@[2]@.len() == 32);
    let from = slice_to_vec(slice_subrange(lg.topics[1].as_slice(), 12, 32));
    let to = slice_to_vec(slice_subrange(lg.topics[2].as_slice(), 12, 32));
    let value = Amount::from_be_bytes(slice_subrange(lg.data.as_slice(), n - 32, n));
    Some(Erc20Transfer { block_number, tx_hash, log_index, from, to, value })
}

/// A log whose topic count is not three, or whose first topic is not the
/// transfer signature, never decodes to a transfer.
pub proof fn lemma_non_transfer_logs_rejected(l: RawLog)
    requires
        l.topics@.len() != 3 || l.topics@[0]@ != transfer_signature(),
    ensures
        !decodes(l),
{
}

} // verus!
