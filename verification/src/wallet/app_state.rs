//! The state that the wallet's user interface shows: the transactions, the
//! contacts and the base nodes, and a cached copy of them for drawing.

use crate::network::Network;
use crate::wallet::commands::TxId;
use qrcode::render::unicode::Dense1x2;
use qrcode::QrCode;
use std::collections::HashMap;
use vstd::prelude::*;
use vstd::string::StringExecFns;

verus! {

broadcast use vstd::std_specs::hash::group_hash_axioms;

/// How this wallet presents itself to its user.
#[derive(Debug, PartialEq, Eq)]
pub struct MyIdentity {
    pub public_key: String,
    pub public_address: String,
    pub emoji_id: String,
    pub qr_code: String,
}

impl Clone for MyIdentity {
    fn clone(&self) -> (copy: MyIdentity)
        ensures
            copy == *self,
    {
        MyIdentity {
            public_key: self.public_key.clone(),
            public_address: self.public_address.clone(),
            emoji_id: self.emoji_id.clone(),
            qr_code: self.qr_code.clone(),
        }
    }
}

/// The link that the wallet's QR code spells out:
/// `tari://<network>/pubkey/<public key in hex>`.
pub fn qr_link(network: Network, public_key_hex: &str) -> (link: String)
    ensures
        link@ == "tari://"@ + network.name_of() + "/pubkey/"@ + public_key_hex@,
{
    String::from_str("tari://").concat(network.as_str()).concat("/pubkey/").concat(public_key_hex)
}

/// The picture of the QR code of `data` in block characters, two rows of
/// the code to a line, dark on light; nothing where no QR code holds the data.
pub uninterp spec fn qr_picture(data: Seq<char>) -> Option<Seq<char>>;

/// The lines of a text, without their line endings, as `str::lines` tells
/// them apart.
pub uninterp spec fn lines_of(text: Seq<char>) -> Seq<Seq<char>>;

/// Calls `QrCode::new` on the data and renders the code with the crate's
/// unicode renderer, with `Dense1x2::Dark` for dark and `Dense1x2::Light`
/// for light modules. `QrCode::new` fails where the data is too long for a
/// QR code. The contract gives the picture its name.
#[verifier::external_body]
fn render_qr(data: &str) -> (picture: Option<String>)
    ensures
        match picture {
            Some(picture) => qr_picture(data@) == Some(picture@),
            None => qr_picture(data@) is None,
        },
{
    match QrCode::new(data) {
        Ok(code) => Some(
            code.render::<Dense1x2>().dark_color(Dense1x2::Dark).light_color(
                Dense1x2::Light,
            ).build(),
        ),
        Err(_) => None,
    }
}

/// Calls `str::lines`, which splits a text at its line endings, `\n` or
/// `\r\n`, and leaves the endings out. The contract gives the lines their name.
#[verifier::external_body]
fn split_lines(text: &str) -> (lines: Vec<String>)
    ensures
        lines@.len() == lines_of(text@).len(),
        forall|i: int| 0 <= i < lines@.len() ==> (#[trigger] lines@[i])@ == lines_of(text@)[i],
{
    text.lines().map(String::from).collect()
}

/// The lines from `from` on, each followed by a line feed.
pub open spec fn joined_lines(lines: Seq<Seq<char>>, from: int) -> Seq<char>
    decreases lines.len() - from,
{
    if from < 0 || from >= lines.len() {
        Seq::empty()
    } else {
        lines[from] + seq!['\n'] + joined_lines(lines, from + 1)
    }
}

/// The lines from `from` up to `to`, each followed by a line feed.
pub open spec fn joined_lines_until(lines: Seq<Seq<char>>, from: int, to: int) -> Seq<char>
    decreases to - from,
{
    if from < 0 || from >= to || to > lines.len() {
        Seq::empty()
    } else {
        joined_lines_until(lines, from, to - 1) + lines[to - 1] + seq!['\n']
    }
}

/// Joining lines up to the end is joining them from the start.
pub proof fn lemma_joined_lines(lines: Seq<Seq<char>>, from: int, to: int)
    requires
        0 <= from <= to <= lines.len(),
    ensures
        joined_lines_until(lines, from, to) + joined_lines(lines, to) == joined_lines(lines, from),
    decreases to - from,
{
    if from == to {
        assert(Seq::<char>::empty() + joined_lines(lines, to) =~= joined_lines(lines, to));
    } else {
        lemma_joined_lines(lines, from, to - 1);
        assert(joined_lines(lines, to - 1) == lines[to - 1] + seq!['\n'] + joined_lines(lines, to));
        assert(joined_lines_until(lines, from, to) + joined_lines(lines, to) =~= joined_lines_until(
            lines,
            from,
            to - 1,
        ) + (lines[to - 1] + seq!['\n'] + joined_lines(lines, to)));
    }
}

/// The picture that the wallet shows of a rendered QR code: the rendering
/// without its first line, every line ended by a line feed.
pub open spec fn shown_picture(rendered: Seq<char>) -> Seq<char> {
    joined_lines(lines_of(rendered), 1)
}

/// Drops the first line of a rendered QR code and ends every other line
/// with a line feed.
pub fn trim_picture(rendered: &str) -> (picture: String)
    ensures
        picture@ == shown_picture(rendered@),
{
    let lines = split_lines(rendered);
    let ghost all = lines_of(rendered@);
    let mut picture = String::new();
    let mut i: usize = 1;
    if lines.len() <= 1 {
        return picture;
    }
    proof {
        reveal_strlit("\n");
    }
    while i < lines.len()
        invariant
            1 <= i <= lines.len(),
            all == lines_of(rendered@),
            lines@.len() == all.len(),
            forall|k: int| 0 <= k < lines@.len() ==> (#[trigger] lines@[k])@ == all[k],
            picture@ == joined_lines_until(all, 1, i as int),
        decreases lines.len() - i,
    {
        proof {
            reveal_strlit("\n");
            assert("\n"@ =~= seq!['\n']);
        }
        picture.append(lines[i].as_str());
        picture.append("\n");
        i += 1;
    }
    proof {
        lemma_joined_lines(all, 1, i as int);
        assert(joined_lines_until(all, 1, i as int) + Seq::<char>::empty() =~= joined_lines_until(
            all,
            1,
            i as int,
        ));
    }
    picture
}

impl MyIdentity {
    /// The identity of a wallet on a network, with the picture of the QR
    /// code of its link; nothing where no QR code holds the link.
    pub fn new(
        network: Network,
        public_key_hex: &str,
        public_address: &str,
        emoji_id: &str,
    ) -> (identity: Option<MyIdentity>)
        ensures
            match qr_picture("tari://"@ + network.name_of() + "/pubkey/"@ + public_key_hex@) {
                Some(rendered) => identity matches Some(identity) && {
                    &&& identity.public_key@ == public_key_hex@
                    &&& identity.public_address@ == public_address@
                    &&& identity.emoji_id@ == emoji_id@
                    &&& identity.qr_code@ == shown_picture(rendered)
                },
                None => identity is None,
            },
    {
        let link = qr_link(network, public_key_hex);
        match render_qr(link.as_str()) {
            Some(rendered) => Some(
                MyIdentity {
                    public_key: public_key_hex.to_owned(),
                    public_address: public_address.to_owned(),
                    emoji_id: emoji_id.to_owned(),
                    qr_code: trim_picture(rendered.as_str()),
                },
            ),
            None => None,
        }
    }
}

/// How far the sending of a transaction has come.
#[derive(Clone, Debug, PartialEq, Eq)]
pub enum UiTransactionSendStatus {
    Initiated,
    SentDirect,
    TransactionComplete,
    DiscoveryInProgress,
    SentViaSaf,
    Error(String),
}

/// Why the user interface could not do what it was asked.
#[derive(Clone, Copy, Debug, PartialEq, Eq, Structural)]
pub enum UiError {
    /// The base node has no address.
    NoAddressError,
}

/// Which completed transactions are kept from the list.
#[derive(Clone, Copy, Debug, PartialEq, Eq, Structural)]
pub struct TransactionFilter {
    bits: u8,
}

impl TransactionFilter {
    pub closed spec fn bits(self) -> u8 {
        self.bits
    }

    /// Whether the filter keeps abandoned coinbases from the list.
    pub closed spec fn hides_abandoned_coinbases(self) -> bool {
        self.bits & 1u8 == 1u8
    }

    /// The filter that keeps nothing back.
    pub fn none() -> (filter: TransactionFilter)
        ensures
            filter.bits() == 0,
            !filter.hides_abandoned_coinbases(),
    {
        assert(0u8 & 1u8 != 1u8) by (bit_vector);
        TransactionFilter { bits: 0 }
    }

    /// The filter that keeps back coinbase transactions that were cancelled.
    pub fn abandoned_coinbases() -> (filter: TransactionFilter)
        ensures
            filter.bits() == 1,
            filter.hides_abandoned_coinbases(),
    {
        assert(1u8 & 1u8 == 1u8) by (bit_vector);
        TransactionFilter { bits: 1 }
    }

    /// Whether every flag of `other` is set in this filter.
    pub fn contains(&self, other: TransactionFilter) -> (contained: bool)
        ensures
            contained == (self.bits() & other.bits() == other.bits()),
            other.bits() == 1 ==> contained == self.hides_abandoned_coinbases(),
    {
        self.bits & other.bits == other.bits
    }

    /// Flips every flag of `other` in this filter.
    pub fn toggle(&mut self, other: TransactionFilter)
        ensures
            final(self).bits() == old(self).bits() ^ other.bits(),
            other.bits() == 1 ==> final(self).hides_abandoned_coinbases() != old(
                self,
            ).hides_abandoned_coinbases(),
    {
        let ghost before = self.bits;
        self.bits = self.bits ^ other.bits;
        assert(((before ^ 1u8) & 1u8 == 1u8) != (before & 1u8 == 1u8)) by (bit_vector);
    }
}

/// The state of a transaction in the wallet.
#[derive(Clone, Copy, Debug, PartialEq, Eq, Structural)]
pub enum TransactionStatus {
    Completed,
    Broadcast,
    MinedUnconfirmed,
    Imported,
    Pending,
    Coinbase,
    MinedConfirmed,
}

/// A transaction as the user interface lists it.
#[derive(Clone, Copy, Debug, PartialEq, Eq, Structural)]
pub struct CompletedTransaction {
    pub tx_id: TxId,
    pub status: TransactionStatus,
    pub cancelled: bool,
    /// In seconds since the epoch.
    pub timestamp: i64,
}

impl CompletedTransaction {
    /// Whether the transaction still waits to be completed.
    pub open spec fn is_pending_spec(self) -> bool {
        self.status == TransactionStatus::Pending && !self.cancelled
    }

    pub fn is_pending(&self) -> (pending: bool)
        ensures
            pending == self.is_pending_spec(),
    {
        self.status == TransactionStatus::Pending && !self.cancelled
    }

    /// Whether the transaction is a coinbase that was given up.
    pub open spec fn is_abandoned_coinbase_spec(self) -> bool {
        self.cancelled && self.status == TransactionStatus::Coinbase
    }

    pub fn is_abandoned_coinbase(&self) -> (abandoned: bool)
        ensures
            abandoned == self.is_abandoned_coinbase_spec(),
    {
        self.cancelled && self.status == TransactionStatus::Coinbase
    }
}

/// The list with one more transaction, put behind every transaction that
/// is as new as it or newer.
pub open spec fn inserted_by_time(
    txs: Seq<CompletedTransaction>,
    tx: CompletedTransaction,
) -> Seq<CompletedTransaction>
    decreases txs.len(),
{
    if txs.len() == 0 {
        seq![tx]
    } else if txs.last().timestamp >= tx.timestamp {
        txs.push(tx)
    } else {
        inserted_by_time(txs.drop_last(), tx).push(txs.last())
    }
}

/// The transactions with the newest first; transactions of the same time
/// keep the order they had.
pub open spec fn newest_first(txs: Seq<CompletedTransaction>) -> Seq<CompletedTransaction>
    decreases txs.len(),
{
    if txs.len() == 0 {
        txs
    } else {
        inserted_by_time(newest_first(txs.drop_last()), txs.last())
    }
}

/// Whether no transaction of the list is newer than one before it.
pub open spec fn is_newest_first(txs: Seq<CompletedTransaction>) -> bool {
    forall|i: int, j: int| 0 <= i < j < txs.len() ==> txs[i].timestamp >= txs[j].timestamp
}

/// Where a transaction goes into a list: `at` is behind every transaction
/// that is as new or newer, and before every one that is older.
pub open spec fn is_insertion_point(
    txs: Seq<CompletedTransaction>,
    tx: CompletedTransaction,
    at: int,
) -> bool {
    &&& 0 <= at <= txs.len()
    &&& at > 0 ==> txs[at - 1].timestamp >= tx.timestamp
    &&& forall|k: int| at <= k < txs.len() ==> txs[k].timestamp < tx.timestamp
}

/// Putting a transaction in at its insertion point is what
/// `inserted_by_time` describes.
pub proof fn lemma_insertion_point(
    txs: Seq<CompletedTransaction>,
    tx: CompletedTransaction,
    at: int,
)
    requires
        is_insertion_point(txs, tx, at),
    ensures
        inserted_by_time(txs, tx) == txs.insert(at, tx),
    decreases txs.len(),
{
    if txs.len() == 0 {
        assert(txs.insert(at, tx) =~= seq![tx]);
    } else if at == txs.len() {
        assert(txs.insert(at, tx) =~= txs.push(tx));
    } else {
        assert(txs.last().timestamp < tx.timestamp);
        let front = txs.drop_last();
        assert(is_insertion_point(front, tx, at));
        lemma_insertion_point(front, tx, at);
        assert(front.insert(at, tx).push(txs.last()) =~= txs.insert(at, tx));
    }
}

/// Inserting by time keeps a list in order and adds the transaction to it.
pub proof fn lemma_inserted_by_time(txs: Seq<CompletedTransaction>, tx: CompletedTransaction)
    requires
        is_newest_first(txs),
    ensures
        is_newest_first(inserted_by_time(txs, tx)),
        inserted_by_time(txs, tx).len() == txs.len() + 1,
        inserted_by_time(txs, tx).to_multiset() == txs.to_multiset().insert(tx),
    decreases txs.len(),
{
    broadcast use vstd::seq_lib::group_to_multiset_ensures;

    if txs.len() == 0 {
        assert(seq![tx] =~= Seq::<CompletedTransaction>::empty().push(tx));
        assert(txs =~= Seq::<CompletedTransaction>::empty());
    } else if txs.last().timestamp >= tx.timestamp {
        let result = txs.push(tx);
        assert forall|i: int, j: int| 0 <= i < j < result.len() implies result[i].timestamp
            >= result[j].timestamp by {
            if j == txs.len() && i < txs.len() - 1 {
                assert(txs[i].timestamp >= txs[txs.len() - 1].timestamp);
            }
        }
    } else {
        let front = txs.drop_last();
        assert(is_newest_first(front)) by {
            assert forall|i: int, j: int| 0 <= i < j < front.len() implies front[i].timestamp
                >= front[j].timestamp by {
                assert(txs[i].timestamp >= txs[j].timestamp);
            }
        }
        lemma_inserted_by_time(front, tx);
        let inner = inserted_by_time(front, tx);
        let result = inner.push(txs.last());
        assert(txs =~= front.push(txs.last()));
        assert(result.to_multiset() =~= txs.to_multiset().insert(tx));
        assert forall|i: int, j: int| 0 <= i < j < result.len() implies result[i].timestamp
            >= result[j].timestamp by {
            if j == inner.len() {
                // every element of `inner` is `tx` or an element of `front`
                assert(inner.to_multiset().count(inner[i]) > 0);
                if inner[i] != tx {
                    assert(front.to_multiset().count(inner[i]) > 0);
                    let k = choose|k: int| 0 <= k < front.len() && front[k] == inner[i];
                    assert(txs[k].timestamp >= txs[txs.len() - 1].timestamp);
                }
            }
        }
    }
}

/// The transactions with the newest first are in order, and are the
/// transactions that were given, each as often as it was given.
pub proof fn lemma_newest_first(txs: Seq<CompletedTransaction>)
    ensures
        is_newest_first(newest_first(txs)),
        newest_first(txs).len() == txs.len(),
        newest_first(txs).to_multiset() == txs.to_multiset(),
    decreases txs.len(),
{
    broadcast use vstd::seq_lib::group_to_multiset_ensures;

    if txs.len() > 0 {
        lemma_newest_first(txs.drop_last());
        lemma_inserted_by_time(newest_first(txs.drop_last()), txs.last());
        assert(txs =~= txs.drop_last().push(txs.last()));
    }
}

/// Puts a transaction into a list behind every transaction that is as new
/// as it or newer.
pub fn insert_by_time(txs: &mut Vec<CompletedTransaction>, tx: CompletedTransaction)
    ensures
        final(txs)@ == inserted_by_time(old(txs)@, tx),
{
    let mut at: usize = txs.len();
    while at > 0 && txs[at - 1].timestamp < tx.timestamp
        invariant
            at <= txs.len(),
            *txs == *old(txs),
            forall|k: int| at <= k < txs@.len() ==> txs@[k].timestamp < tx.timestamp,
        decreases at,
    {
        at -= 1;
    }
    proof {
        lemma_insertion_point(txs@, tx, at as int);
    }
    txs.insert(at, tx);
}

/// Orders transactions by their time, the newest first. Transactions of
/// the same time stay in the order in which they came.
pub fn sort_newest_first(txs: &Vec<CompletedTransaction>) -> (sorted: Vec<CompletedTransaction>)
    ensures
        sorted@ == newest_first(txs@),
        is_newest_first(sorted@),
        sorted@.to_multiset() == txs@.to_multiset(),
{
    let mut sorted: Vec<CompletedTransaction> = Vec::new();
    let mut i: usize = 0;
    while i < txs.len()
        invariant
            i <= txs.len(),
            sorted@ == newest_first(txs@.take(i as int)),
        decreases txs.len() - i,
    {
        proof {
            assert(txs@.take(i + 1).drop_last() =~= txs@.take(i as int));
            assert(txs@.take(i + 1).last() == txs@[i as int]);
        }
        insert_by_time(&mut sorted, txs[i]);
        i += 1;
    }
    proof {
        assert(txs@.take(i as int) =~= txs@);
        lemma_newest_first(txs@);
    }
    sorted
}

/// The place of the first transaction with the identifier, if there is one.
pub open spec fn position_of_tx(txs: Seq<CompletedTransaction>, tx_id: TxId) -> Option<int> {
    if exists|i: int| is_first_with_id(txs, tx_id, i) {
        Some(choose|i: int| is_first_with_id(txs, tx_id, i))
    } else {
        None
    }
}

pub open spec fn is_first_with_id(txs: Seq<CompletedTransaction>, tx_id: TxId, i: int) -> bool {
    &&& 0 <= i < txs.len()
    &&& txs[i].tx_id == tx_id
    &&& forall|j: int| 0 <= j < i ==> (#[trigger] txs[j]).tx_id != tx_id
}

/// Finds the first transaction with the identifier.
pub fn find_tx(txs: &Vec<CompletedTransaction>, tx_id: TxId) -> (found: Option<usize>)
    ensures
        match found {
            Some(i) => position_of_tx(txs@, tx_id) == Some(i as int) && i < txs@.len()
                && txs@[i as int].tx_id == tx_id,
            None => position_of_tx(txs@, tx_id) is None,
        },
{
    let mut i: usize = 0;
    while i < txs.len()
        invariant
            i <= txs.len(),
            forall|j: int| 0 <= j < i ==> (#[trigger] txs@[j]).tx_id != tx_id,
        decreases txs.len() - i,
    {
        if txs[i].tx_id == tx_id {
            proof {
                assert(is_first_with_id(txs@, tx_id, i as int));
                let k = choose|k: int| is_first_with_id(txs@, tx_id, k);
                assert(is_first_with_id(txs@, tx_id, k));
                if k < i {
                    assert(txs@[k].tx_id != tx_id);
                } else if i < k {
                    assert(txs@[i as int].tx_id != tx_id);
                }
            }
            return Some(i);
        }
        i += 1;
    }
    proof {
        assert forall|k: int| !is_first_with_id(txs@, tx_id, k) by {}
    }
    None
}

/// The transactions without those that the filter keeps back.
pub open spec fn shown(txs: Seq<CompletedTransaction>, filter: TransactionFilter) -> Seq<
    CompletedTransaction,
> {
    if filter.hides_abandoned_coinbases() {
        txs.filter(|tx: CompletedTransaction| !tx.is_abandoned_coinbase_spec())
    } else {
        txs
    }
}

/// A contact of the wallet's user.
#[derive(Debug, PartialEq, Eq)]
pub struct UiContact {
    pub alias: String,
    pub public_key: String,
    pub emoji_id: String,
}

impl Clone for UiContact {
    fn clone(&self) -> (copy: UiContact)
        ensures
            copy == *self,
    {
        UiContact {
            alias: self.alias.clone(),
            public_key: self.public_key.clone(),
            emoji_id: self.emoji_id.clone(),
        }
    }
}

/// What the wallet holds.
#[derive(Clone, Copy, Debug, PartialEq, Eq, Structural)]
pub struct Balance {
    pub available_balance: u64,
    pub pending_incoming_balance: u64,
    pub pending_outgoing_balance: u64,
}

impl Balance {
    /// The balance of an empty wallet.
    pub open spec fn nothing() -> Balance {
        Balance { available_balance: 0, pending_incoming_balance: 0, pending_outgoing_balance: 0 }
    }

    pub fn zero() -> (balance: Balance)
        ensures
            balance == Balance::nothing(),
    {
        Balance { available_balance: 0, pending_incoming_balance: 0, pending_outgoing_balance: 0 }
    }
}

/// Whether the first contact of the list with the public key is at `i`.
pub open spec fn is_first_contact_with_key(
    contacts: Seq<UiContact>,
    public_key: Seq<char>,
    i: int,
) -> bool {
    &&& 0 <= i < contacts.len()
    &&& contacts[i].public_key@ == public_key
    &&& forall|j: int| 0 <= j < i ==> (#[trigger] contacts[j]).public_key@ != public_key
}

/// The name to show for a public key: the alias of the first contact that
/// has the key, or the key itself where no contact has it.
pub open spec fn alias_of(contacts: Seq<UiContact>, public_key: Seq<char>) -> Seq<char> {
    if exists|i: int| is_first_contact_with_key(contacts, public_key, i) {
        contacts[choose|i: int| is_first_contact_with_key(contacts, public_key, i)].alias@
    } else {
        public_key
    }
}

/// The data that the user interface draws from.
#[derive(Debug)]
pub struct AppStateData {
    pub pending_txs: Vec<CompletedTransaction>,
    pub completed_txs: Vec<CompletedTransaction>,
    pub confirmations: HashMap<TxId, u64>,
    pub my_identity: MyIdentity,
    pub contacts: Vec<UiContact>,
    pub balance: Balance,
}

impl AppStateData {
    /// The data of a wallet that has seen nothing yet.
    pub fn new(my_identity: MyIdentity) -> (data: AppStateData)
        ensures
            data.pending_txs@.len() == 0,
            data.completed_txs@.len() == 0,
            data.confirmations@ == Map::<TxId, u64>::empty(),
            data.my_identity == my_identity,
            data.contacts@.len() == 0,
            data.balance == Balance::nothing(),
    {
        AppStateData {
            pending_txs: Vec::new(),
            completed_txs: Vec::new(),
            confirmations: HashMap::new(),
            my_identity,
            contacts: Vec::new(),
            balance: Balance::zero(),
        }
    }
}

impl AppStateData {
    /// Whether this data holds what `other` holds.
    pub open spec fn same_as(&self, other: &AppStateData) -> bool {
        &&& self.pending_txs@ == other.pending_txs@
        &&& self.completed_txs@ == other.completed_txs@
        &&& self.confirmations@ == other.confirmations@
        &&& self.my_identity == other.my_identity
        &&& self.contacts@ == other.contacts@
        &&& self.balance == other.balance
    }
}

impl Clone for AppStateData {
    fn clone(&self) -> (copy: AppStateData)
        ensures
            copy.same_as(self),
    {
        let mut contacts: Vec<UiContact> = Vec::new();
        let mut i: usize = 0;
        while i < self.contacts.len()
            invariant
                i <= self.contacts.len(),
                contacts@ == self.contacts@.take(i as int),
            decreases self.contacts.len() - i,
        {
            contacts.push(self.contacts[i].clone());
            assert(contacts@ =~= self.contacts@.take(i + 1));
            i += 1;
        }
        assert(self.contacts@.take(i as int) =~= self.contacts@);
        AppStateData {
            pending_txs: self.pending_txs.clone(),
            completed_txs: self.completed_txs.clone(),
            confirmations: self.confirmations.clone(),
            my_identity: self.my_identity.clone(),
            contacts,
            balance: self.balance,
        }
    }
}

/// The state of the wallet that the event monitor keeps up to date.
#[derive(Debug)]
pub struct AppStateInner {
    pub updated: bool,
    pub data: AppStateData,
}

/// What a change of one transaction asks of the caller.
#[derive(Clone, Copy, Debug, PartialEq, Eq, Structural)]
pub enum TransactionRefresh {
    /// The pending list changed and nothing more is to be done.
    Done,
    /// The lists changed and the balance is to be fetched again.
    RefreshBalance,
}

/// The list without its first transaction with the identifier.
pub open spec fn without_tx(txs: Seq<CompletedTransaction>, tx_id: TxId) -> Seq<
    CompletedTransaction,
> {
    match position_of_tx(txs, tx_id) {
        Some(i) => txs.remove(i),
        None => txs,
    }
}

/// The list with the transaction in place of the first one that has the
/// identifier, or at the end where none has; and then the newest first.
pub open spec fn with_completed_tx(
    txs: Seq<CompletedTransaction>,
    tx_id: TxId,
    tx: CompletedTransaction,
) -> Seq<CompletedTransaction> {
    match position_of_tx(txs, tx_id) {
        Some(i) => newest_first(txs.update(i, tx)),
        None => newest_first(txs.push(tx)),
    }
}

impl AppStateInner {
    pub fn new(my_identity: MyIdentity) -> (inner: AppStateInner)
        ensures
            !inner.updated,
            inner.data.pending_txs@.len() == 0,
            inner.data.completed_txs@.len() == 0,
            inner.data.confirmations@ == Map::<TxId, u64>::empty(),
            inner.data.my_identity == my_identity,
            inner.data.contacts@.len() == 0,
            inner.data.balance == Balance::nothing(),
    {
        AppStateInner { updated: false, data: AppStateData::new(my_identity) }
    }

    /// A copy of the data if it changed since this was last asked, and
    /// nothing if it did not. Asking marks the data as seen.
    pub fn get_updated_app_state(&mut self) -> (snapshot: Option<AppStateData>)
        ensures
            !final(self).updated,
            final(self).data == old(self).data,
            match snapshot {
                Some(copy) => old(self).updated && copy.same_as(&old(self).data),
                None => !old(self).updated,
            },
    {
        if self.updated {
            self.updated = false;
            Some(self.data.clone())
        } else {
            None
        }
    }

    /// Takes note of how often a transaction was confirmed.
    pub fn refresh_single_confirmation_state(&mut self, tx_id: TxId, confirmations: u64)
        ensures
            final(self).data.confirmations@ == old(self).data.confirmations@.insert(
                tx_id,
                confirmations,
            ),
            final(self).updated == old(self).updated,
            final(self).data.pending_txs == old(self).data.pending_txs,
            final(self).data.completed_txs == old(self).data.completed_txs,
    {
        self.data.confirmations.insert(tx_id, confirmations);
    }

    /// Forgets how often a transaction was confirmed.
    pub fn cleanup_single_confirmation_state(&mut self, tx_id: TxId)
        ensures
            final(self).data.confirmations@ == old(self).data.confirmations@.remove(tx_id),
            final(self).updated == old(self).updated,
            final(self).data.pending_txs == old(self).data.pending_txs,
            final(self).data.completed_txs == old(self).data.completed_txs,
    {
        self.data.confirmations.remove(&tx_id);
    }

    /// Brings the lists up to date with what the wallet knows of one
    /// transaction.
    ///
    /// A transaction that the wallet no longer knows leaves both lists. A
    /// transaction that is pending takes its place in the pending list, or
    /// joins it in the order of time, and nothing more is to be done. Any
    /// other transaction leaves the pending list and takes its place in the
    /// completed list, which is put in the order of time again. Unless
    /// nothing more is to be done, the balance is to be fetched again.
    pub fn refresh_single_transaction_state(
        &mut self,
        tx_id: TxId,
        found: Option<CompletedTransaction>,
    ) -> (refresh: TransactionRefresh)
        ensures
            final(self).updated,
            final(self).data.confirmations == old(self).data.confirmations,
            final(self).data.contacts == old(self).data.contacts,
            final(self).data.my_identity == old(self).data.my_identity,
            final(self).data.balance == old(self).data.balance,
            match found {
                None => {
                    &&& refresh == TransactionRefresh::RefreshBalance
                    &&& final(self).data.pending_txs@ == without_tx(
                        old(self).data.pending_txs@,
                        tx_id,
                    )
                    &&& final(self).data.completed_txs@ == without_tx(
                        old(self).data.completed_txs@,
                        tx_id,
                    )
                },
                Some(tx) => if tx.is_pending_spec() {
                    &&& refresh == TransactionRefresh::Done
                    &&& final(self).data.completed_txs@ == old(self).data.completed_txs@
                    &&& final(self).data.pending_txs@ == match position_of_tx(
                        old(self).data.pending_txs@,
                        tx_id,
                    ) {
                        Some(i) => old(self).data.pending_txs@.update(i, tx),
                        None => newest_first(old(self).data.pending_txs@.push(tx)),
                    }
                } else {
                    &&& refresh == TransactionRefresh::RefreshBalance
                    &&& final(self).data.pending_txs@ == without_tx(
                        old(self).data.pending_txs@,
                        tx_id,
                    )
                    &&& final(self).data.completed_txs@ == with_completed_tx(
                        old(self).data.completed_txs@,
                        tx_id,
                        tx,
                    )
                },
            },
    {
        match found {
            None => {
                // If it is not in the backend then make sure it is not left behind
                match find_tx(&self.data.pending_txs, tx_id) {
                    Some(index) => {
                        self.data.pending_txs.remove(index);
                    },
                    None => {},
                }
                match find_tx(&self.data.completed_txs, tx_id) {
                    Some(index) => {
                        self.data.completed_txs.remove(index);
                    },
                    None => {},
                }
            },
            Some(tx) => {
                match find_tx(&self.data.pending_txs, tx_id) {
                    Some(index) => {
                        if tx.is_pending() {
                            self.data.pending_txs.set(index, tx);
                            self.updated = true;
                            return TransactionRefresh::Done;
                        } else {
                            self.data.pending_txs.remove(index);
                        }
                    },
                    None => {
                        if tx.is_pending() {
                            self.data.pending_txs.push(tx);
                            let sorted = sort_newest_first(&self.data.pending_txs);
                            self.data.pending_txs = sorted;
                            self.updated = true;
                            return TransactionRefresh::Done;
                        }
                    },
                }
                match find_tx(&self.data.completed_txs, tx_id) {
                    Some(index) => {
                        self.data.completed_txs.set(index, tx);
                    },
                    None => {
                        self.data.completed_txs.push(tx);
                    },
                }
                let sorted = sort_newest_first(&self.data.completed_txs);
                self.data.completed_txs = sorted;
            },
        }
        self.updated = true;
        TransactionRefresh::RefreshBalance
    }

    /// Replaces both lists of transactions, each put in the order of time.
    pub fn refresh_full_transaction_state(
        &mut self,
        pending_transactions: &Vec<CompletedTransaction>,
        completed_transactions: &Vec<CompletedTransaction>,
    )
        ensures
            final(self).updated,
            final(self).data.pending_txs@ == newest_first(pending_transactions@),
            final(self).data.completed_txs@ == newest_first(completed_transactions@),
            final(self).data.confirmations == old(self).data.confirmations,
            final(self).data.contacts == old(self).data.contacts,
            final(self).data.my_identity == old(self).data.my_identity,
            final(self).data.balance == old(self).data.balance,
    {
        self.data.pending_txs = sort_newest_first(pending_transactions);
        self.data.completed_txs = sort_newest_first(completed_transactions);
        self.updated = true;
    }

    /// Replaces the balance.
    pub fn refresh_balance(&mut self, balance: Balance)
        ensures
            final(self).updated,
            final(self).data.balance == balance,
            final(self).data.pending_txs == old(self).data.pending_txs,
            final(self).data.completed_txs == old(self).data.completed_txs,
            final(self).data.confirmations == old(self).data.confirmations,
            final(self).data.contacts == old(self).data.contacts,
            final(self).data.my_identity == old(self).data.my_identity,
    {
        self.data.balance = balance;
        self.updated = true;
    }

    /// Replaces the contacts.
    pub fn refresh_contacts_state(&mut self, contacts: Vec<UiContact>)
        ensures
            final(self).updated,
            final(self).data.contacts == contacts,
            final(self).data.pending_txs == old(self).data.pending_txs,
            final(self).data.completed_txs == old(self).data.completed_txs,
            final(self).data.confirmations == old(self).data.confirmations,
            final(self).data.balance == old(self).data.balance,
            final(self).data.my_identity == old(self).data.my_identity,
    {
        self.data.contacts = contacts;
        self.updated = true;
    }
}

/// The state that the user interface draws from: a cached copy of the
/// wallet's data, and how the user wants it shown.
#[derive(Debug)]
pub struct AppState {
    cached_data: AppStateData,
    completed_tx_filter: TransactionFilter,
    required_confirmations: u64,
}

impl AppState {
    pub closed spec fn data(&self) -> AppStateData {
        self.cached_data
    }

    pub closed spec fn filter(&self) -> TransactionFilter {
        self.completed_tx_filter
    }

    pub closed spec fn required_confirmations(&self) -> u64 {
        self.required_confirmations
    }

    /// A state that draws from a copy of the data, and keeps abandoned
    /// coinbases from the list of completed transactions.
    pub fn new(inner: &AppStateInner, required_confirmations: u64) -> (state: AppState)
        ensures
            state.data().same_as(&inner.data),
            state.filter().hides_abandoned_coinbases(),
            state.required_confirmations() == required_confirmations,
    {
        AppState {
            cached_data: inner.data.clone(),
            completed_tx_filter: TransactionFilter::abandoned_coinbases(),
            required_confirmations,
        }
    }

    /// Takes over the data if it changed since the cache was last updated.
    pub fn update_cache(&mut self, inner: &mut AppStateInner)
        ensures
            !final(inner).updated,
            final(inner).data == old(inner).data,
            final(self).filter() == old(self).filter(),
            final(self).required_confirmations() == old(self).required_confirmations(),
            old(inner).updated ==> final(self).data().same_as(&old(inner).data),
            !old(inner).updated ==> final(self).data() == old(self).data(),
    {
        let updated_state = inner.get_updated_app_state();
        if let Some(data) = updated_state {
            self.cached_data = data;
        }
    }

    pub fn get_identity(&self) -> (identity: &MyIdentity)
        ensures
            *identity == self.data().my_identity,
    {
        &self.cached_data.my_identity
    }

    pub fn get_contacts(&self) -> (contacts: &Vec<UiContact>)
        ensures
            *contacts == self.data().contacts,
    {
        &self.cached_data.contacts
    }

    pub fn get_contact(&self, index: usize) -> (contact: Option<&UiContact>)
        ensures
            match contact {
                Some(contact) => index < self.data().contacts@.len() && *contact
                    == self.data().contacts@[index as int],
                None => index >= self.data().contacts@.len(),
            },
    {
        if index < self.cached_data.contacts.len() {
            Some(&self.cached_data.contacts[index])
        } else {
            None
        }
    }

    /// The contacts from `start` up to `end`, or none where that is no
    /// range of the list.
    pub fn get_contacts_slice(&self, start: usize, end: usize) -> (contacts: &[UiContact])
        ensures
            contacts@ == if start <= end && end <= self.data().contacts@.len() {
                self.data().contacts@.subrange(start as int, end as int)
            } else {
                Seq::<UiContact>::empty()
            },
    {
        if self.cached_data.contacts.is_empty() || start > end || end
            > self.cached_data.contacts.len() {
            let none = vstd::slice::slice_subrange(self.cached_data.contacts.as_slice(), 0, 0);
            assert(none@ =~= Seq::<UiContact>::empty());
            if start <= end && end <= self.cached_data.contacts.len() {
                assert(self.data().contacts@.subrange(start as int, end as int) =~= Seq::<
                    UiContact,
                >::empty());
            }
            return none;
        }
        vstd::slice::slice_subrange(self.cached_data.contacts.as_slice(), start, end)
    }

    pub fn get_pending_txs(&self) -> (txs: &Vec<CompletedTransaction>)
        ensures
            *txs == self.data().pending_txs,
    {
        &self.cached_data.pending_txs
    }

    /// The pending transactions from `start` up to `end`, or none where
    /// that is no range of the list.
    pub fn get_pending_txs_slice(&self, start: usize, end: usize) -> (txs: &[CompletedTransaction])
        ensures
            txs@ == if start <= end && end <= self.data().pending_txs@.len() {
                self.data().pending_txs@.subrange(start as int, end as int)
            } else {
                Seq::<CompletedTransaction>::empty()
            },
    {
        if self.cached_data.pending_txs.is_empty() || start > end || end
            > self.cached_data.pending_txs.len() {
            let none = vstd::slice::slice_subrange(self.cached_data.pending_txs.as_slice(), 0, 0);
            assert(none@ =~= Seq::<CompletedTransaction>::empty());
            if start <= end && end <= self.cached_data.pending_txs.len() {
                assert(self.data().pending_txs@.subrange(start as int, end as int) =~= Seq::<
                    CompletedTransaction,
                >::empty());
            }
            return none;
        }
        vstd::slice::slice_subrange(self.cached_data.pending_txs.as_slice(), start, end)
    }

    pub fn get_pending_tx(&self, index: usize) -> (tx: Option<&CompletedTransaction>)
        ensures
            match tx {
                Some(tx) => index < self.data().pending_txs@.len() && *tx
                    == self.data().pending_txs@[index as int],
                None => index >= self.data().pending_txs@.len(),
            },
    {
        if index < self.cached_data.pending_txs.len() {
            Some(&self.cached_data.pending_txs[index])
        } else {
            None
        }
    }

    /// The completed transactions that the filter lets through.
    pub fn get_completed_txs(&self) -> (txs: Vec<CompletedTransaction>)
        ensures
            txs@ == shown(self.data().completed_txs@, self.filter()),
    {
        let all = &self.cached_data.completed_txs;
        if self.completed_tx_filter.contains(TransactionFilter::abandoned_coinbases()) {
            let ghost keep = |tx: CompletedTransaction| !tx.is_abandoned_coinbase_spec();
            let mut txs: Vec<CompletedTransaction> = Vec::new();
            let mut i: usize = 0;
            proof {
                reveal(Seq::filter);
                assert(all@.take(0).filter(keep) =~= Seq::<CompletedTransaction>::empty());
            }
            while i < all.len()
                invariant
                    i <= all.len(),
                    keep == |tx: CompletedTransaction| !tx.is_abandoned_coinbase_spec(),
                    txs@ == all@.take(i as int).filter(keep),
                decreases all.len() - i,
            {
                proof {
                    reveal(Seq::filter);
                    assert(all@.take(i + 1).drop_last() =~= all@.take(i as int));
                    assert(all@.take(i + 1).last() == all@[i as int]);
                }
                if !all[i].is_abandoned_coinbase() {
                    txs.push(all[i]);
                }
                i += 1;
            }
            assert(all@.take(i as int) =~= all@);
            txs
        } else {
            all.clone()
        }
    }

    pub fn get_completed_tx(&self, index: usize) -> (tx: Option<CompletedTransaction>)
        ensures
            tx == if index < shown(self.data().completed_txs@, self.filter()).len() {
                Some(shown(self.data().completed_txs@, self.filter())[index as int])
            } else {
                None
            },
    {
        let filtered_completed_txs = self.get_completed_txs();
        if index < filtered_completed_txs.len() {
            Some(filtered_completed_txs[index])
        } else {
            None
        }
    }

    /// How often the transaction was confirmed, if that is known.
    pub fn get_confirmations(&self, tx_id: &TxId) -> (confirmations: Option<&u64>)
        ensures
            match confirmations {
                Some(count) => self.data().confirmations@.contains_key(*tx_id) && *count
                    == self.data().confirmations@[*tx_id],
                None => !self.data().confirmations@.contains_key(*tx_id),
            },
    {
        self.cached_data.confirmations.get(tx_id)
    }

    pub fn get_balance(&self) -> (balance: &Balance)
        ensures
            *balance == self.data().balance,
    {
        &self.cached_data.balance
    }

    pub fn get_required_confirmations(&self) -> (confirmations: u64)
        ensures
            confirmations == self.required_confirmations(),
    {
        self.required_confirmations
    }

    /// Shows abandoned coinbases if they are hidden, and hides them if they
    /// are shown.
    pub fn toggle_abandoned_coinbase_filter(&mut self)
        ensures
            final(self).filter().hides_abandoned_coinbases() != old(
                self,
            ).filter().hides_abandoned_coinbases(),
            final(self).data() == old(self).data(),
            final(self).required_confirmations() == old(self).required_confirmations(),
    {
        self.completed_tx_filter.toggle(TransactionFilter::abandoned_coinbases());
    }

    /// The alias of the contact with the public key, or the key itself
    /// where no contact has it.
    pub fn get_alias(&self, pub_key_hex: &str) -> (alias: String)
        ensures
            alias@ == alias_of(self.data().contacts@, pub_key_hex@),
    {
        let key = pub_key_hex.to_owned();
        let contacts = &self.cached_data.contacts;
        let mut i: usize = 0;
        while i < contacts.len()
            invariant
                i <= contacts.len(),
                contacts@ == self.data().contacts@,
                key@ == pub_key_hex@,
                forall|j: int| 0 <= j < i ==> (#[trigger] contacts@[j]).public_key@ != key@,
            decreases contacts.len() - i,
        {
            if contacts[i].public_key == key {
                proof {
                    assert(is_first_contact_with_key(contacts@, pub_key_hex@, i as int));
                    assert(exists|k: int| is_first_contact_with_key(contacts@, pub_key_hex@, k));
                    let found = choose|k: int|
                        is_first_contact_with_key(contacts@, pub_key_hex@, k);
                    assert(is_first_contact_with_key(contacts@, pub_key_hex@, found));
                    if found < i {
                        assert(contacts@[found].public_key@ != key@);
                    } else if i < found {
                        assert(contacts@[i as int].public_key@ != key@);
                    }
                }
                return contacts[i].alias.clone();
            }
            i += 1;
        }
        proof {
            assert forall|k: int| !is_first_contact_with_key(contacts@, pub_key_hex@, k) by {}
        }
        key
    }
}

} // verus!
