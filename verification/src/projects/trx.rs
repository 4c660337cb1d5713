use vstd::prelude::*;

use crate::dna_help::{fetch_links, wire_entries, ActionType, HashedWireEntry, OptionEntryAndHash, kept_entries};
use crate::hashes::{EntryHash, HeaderHash, WrappedAgentPubKey, WrappedEntryHash, WrappedHeaderHash};
use crate::projects::SignalType;

verus! {

/// A transaction between two agents. `created_at` and `amount` hold the bit
/// patterns of IEEE-754 doubles, carried unchanged.
pub struct Trx {
    pub from: WrappedAgentPubKey,
    pub to: WrappedAgentPubKey,
    pub created_at: u64,
    pub amount: u64,
}

impl View for Trx {
    type V = (Seq<u8>, Seq<u8>, u64, u64);

    open spec fn view(&self) -> Self::V {
        (self.from@, self.to@, self.created_at, self.amount)
    }
}

impl Clone for Trx {
    fn clone(&self) -> (r: Self)
        ensures
            r@ == self@,
    {
        Trx {
            from: self.from.clone(),
            to: self.to.clone(),
            created_at: self.created_at,
            amount: self.amount,
        }
    }
}

/// Wraps a transaction signal as a signal of this zome.
pub fn convert_to_receiver_signal(signal: TrxSignal) -> (r: SignalType)
    ensures
        r == SignalType::Trx(signal),
{
    SignalType::Trx(signal)
}

/// The path under which transactions are listed.
pub const TRX_PATH: &'static str = "TRX_PATH";

/// A transaction as the UI sees it.
pub type TrxWireEntry = HashedWireEntry<Trx>;

impl Clone for HashedWireEntry<Trx> {
    fn clone(&self) -> (r: Self)
        ensures
            r.entry@ == self.entry@,
            r.address@ == self.address@,
            r.entry_address@ == self.entry_address@,
    {
        HashedWireEntry {
            entry: self.entry.clone(),
            address: self.address.clone(),
            entry_address: self.entry_address.clone(),
        }
    }
}

/// What a transaction signal carries.
pub enum TrxSignalData {
    Create(TrxWireEntry),
}

/// A signal sent to peers about a transaction.
pub struct TrxSignal {
    pub entry_type: String,
    pub action: ActionType,
    pub data: TrxSignalData,
}

/// Every listed transaction.
pub struct VecTrxWireEntry(pub Vec<TrxWireEntry>);

/// What `create_trx` returns once the transaction has been committed under
/// `address` and hashed to `entry_hash`, and the signal it sends to its peers when
/// `send_signal` holds: a create signal of type `trx` that carries the same.
pub fn inner_create_trx(entry: Trx, address: HeaderHash, entry_hash: EntryHash, send_signal: bool) -> (r: (
    TrxWireEntry,
    Option<SignalType>,
))
    ensures
        r.0.entry == entry,
        r.0.address@ == address@,
        r.0.entry_address@ == entry_hash@,
        send_signal ==> (r.1 matches Some(SignalType::Trx(s)) && (s.entry_type@ == "trx"@
            && s.action is Create && (s.data matches TrxSignalData::Create(w) && (w.entry@ == entry@
            && w.address@ == address@ && w.entry_address@ == entry_hash@)))),
        !send_signal ==> r.1 is None,
{
    let wire_entry = HashedWireEntry {
        entry,
        address: WrappedHeaderHash(address),
        entry_address: WrappedEntryHash(entry_hash),
    };
    if send_signal {
        let signal = convert_to_receiver_signal(
            TrxSignal {
                entry_type: String::from_str("trx"),
                action: ActionType::Create,
                data: TrxSignalData::Create(wire_entry.clone()),
            },
        );
        (wire_entry, Some(signal))
    } else {
        (wire_entry, None)
    }
}

/// The listed transactions once the latest version of each link target has been
/// looked up, in link order: those found, as the UI sees them.
pub fn inner_fetch_trxs<E>(results: Vec<Result<OptionEntryAndHash<Trx>, E>>) -> (r: VecTrxWireEntry)
    ensures
        r.0.len() == kept_entries(results@).len(),
        forall|i: int|
            0 <= i < r.0.len() ==> {
                &&& (#[trigger] r.0@[i]).entry == kept_entries(results@)[i].0
                &&& r.0@[i].address@ == kept_entries(results@)[i].1@
                &&& r.0@[i].entry_address@ == kept_entries(results@)[i].2@
            },
{
    VecTrxWireEntry(wire_entries(fetch_links(results)))
}

} // verus!
