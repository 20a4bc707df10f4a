//! The commands that the wallet runs without a user at the console.

use crate::comms::peer::PublicKey;
use crate::network::str_equals;
use multiaddr::Multiaddr;
use vstd::prelude::*;

verus! {

/// A command of the wallet.
#[derive(Clone, Copy, Debug, PartialEq, Eq, Structural)]
pub enum WalletCommand {
    GetBalance,
    SendTari,
    SendOneSided,
    MakeItRain,
    CoinSplit,
    DiscoverPeer,
    Whois,
    ExportUtxos,
    ExportSpentUtxos,
    CountUtxos,
    SetBaseNode,
    SetCustomBaseNode,
    ClearCustomBaseNode,
}

impl WalletCommand {
    /// The name under which the command is written: its words in lowercase,
    /// joined by hyphens.
    pub open spec fn name_of(self) -> Seq<char> {
        match self {
            WalletCommand::GetBalance => "get-balance"@,
            WalletCommand::SendTari => "send-tari"@,
            WalletCommand::SendOneSided => "send-one-sided"@,
            WalletCommand::MakeItRain => "make-it-rain"@,
            WalletCommand::CoinSplit => "coin-split"@,
            WalletCommand::DiscoverPeer => "discover-peer"@,
            WalletCommand::Whois => "whois"@,
            WalletCommand::ExportUtxos => "export-utxos"@,
            WalletCommand::ExportSpentUtxos => "export-spent-utxos"@,
            WalletCommand::CountUtxos => "count-utxos"@,
            WalletCommand::SetBaseNode => "set-base-node"@,
            WalletCommand::SetCustomBaseNode => "set-custom-base-node"@,
            WalletCommand::ClearCustomBaseNode => "clear-custom-base-node"@,
        }
    }

    /// The commands in the order in which they are declared.
    pub open spec fn all_spec() -> Seq<WalletCommand> {
        seq![
            WalletCommand::GetBalance,
            WalletCommand::SendTari,
            WalletCommand::SendOneSided,
            WalletCommand::MakeItRain,
            WalletCommand::CoinSplit,
            WalletCommand::DiscoverPeer,
            WalletCommand::Whois,
            WalletCommand::ExportUtxos,
            WalletCommand::ExportSpentUtxos,
            WalletCommand::CountUtxos,
            WalletCommand::SetBaseNode,
            WalletCommand::SetCustomBaseNode,
            WalletCommand::ClearCustomBaseNode,
        ]
    }

    /// The first command in declaration order that is written `name`, if any.
    pub open spec fn named(name: Seq<char>) -> Option<WalletCommand> {
        Self::named_from(name, 0)
    }

    pub open spec fn named_from(name: Seq<char>, start: int) -> Option<WalletCommand>
        decreases Self::all_spec().len() - start,
    {
        if start < 0 || start >= Self::all_spec().len() {
            None
        } else if Self::all_spec()[start].name_of() == name {
            Some(Self::all_spec()[start])
        } else {
            Self::named_from(name, start + 1)
        }
    }

    pub fn as_str(self) -> (name: &'static str)
        ensures
            name@ == self.name_of(),
    {
        match self {
            WalletCommand::GetBalance => "get-balance",
            WalletCommand::SendTari => "send-tari",
            WalletCommand::SendOneSided => "send-one-sided",
            WalletCommand::MakeItRain => "make-it-rain",
            WalletCommand::CoinSplit => "coin-split",
            WalletCommand::DiscoverPeer => "discover-peer",
            WalletCommand::Whois => "whois",
            WalletCommand::ExportUtxos => "export-utxos",
            WalletCommand::ExportSpentUtxos => "export-spent-utxos",
            WalletCommand::CountUtxos => "count-utxos",
            WalletCommand::SetBaseNode => "set-base-node",
            WalletCommand::SetCustomBaseNode => "set-custom-base-node",
            WalletCommand::ClearCustomBaseNode => "clear-custom-base-node",
        }
    }

    pub fn to_string(&self) -> (name: String)
        ensures
            name@ == self.name_of(),
    {
        self.as_str().to_owned()
    }

    /// Every command, in declaration order.
    pub fn all() -> (commands: Vec<WalletCommand>)
        ensures
            commands@ == Self::all_spec(),
    {
        let mut commands: Vec<WalletCommand> = Vec::new();
        commands.push(WalletCommand::GetBalance);
        commands.push(WalletCommand::SendTari);
        commands.push(WalletCommand::SendOneSided);
        commands.push(WalletCommand::MakeItRain);
        commands.push(WalletCommand::CoinSplit);
        commands.push(WalletCommand::DiscoverPeer);
        commands.push(WalletCommand::Whois);
        commands.push(WalletCommand::ExportUtxos);
        commands.push(WalletCommand::ExportSpentUtxos);
        commands.push(WalletCommand::CountUtxos);
        commands.push(WalletCommand::SetBaseNode);
        commands.push(WalletCommand::SetCustomBaseNode);
        commands.push(WalletCommand::ClearCustomBaseNode);
        assert(commands@ =~= Self::all_spec());
        commands
    }

    /// Reads a command from its name.
    pub fn from_name(name: &str) -> (command: Option<WalletCommand>)
        ensures
            command == Self::named(name@),
    {
        let commands = Self::all();
        let mut i: usize = 0;
        while i < commands.len()
            invariant
                i <= commands.len(),
                commands@ == Self::all_spec(),
                Self::named(name@) == Self::named_from(name@, i as int),
            decreases commands.len() - i,
        {
            if str_equals(commands[i].as_str(), name) {
                return Some(commands[i]);
            }
            i += 1;
        }
        None
    }
}

/// How far a sent transaction has come.
#[derive(Clone, Copy, Debug, PartialEq, Eq, Structural)]
pub enum TransactionStage {
    Initiated,
    DirectSendOrSaf,
    Negotiated,
    Broadcast,
    MinedUnconfirmed,
    Mined,
    Timedout,
}

impl TransactionStage {
    /// The name of the stage, written as the variant is.
    pub open spec fn name_of(self) -> Seq<char> {
        match self {
            TransactionStage::Initiated => "Initiated"@,
            TransactionStage::DirectSendOrSaf => "DirectSendOrSaf"@,
            TransactionStage::Negotiated => "Negotiated"@,
            TransactionStage::Broadcast => "Broadcast"@,
            TransactionStage::MinedUnconfirmed => "MinedUnconfirmed"@,
            TransactionStage::Mined => "Mined"@,
            TransactionStage::Timedout => "Timedout"@,
        }
    }

    pub open spec fn all_spec() -> Seq<TransactionStage> {
        seq![
            TransactionStage::Initiated,
            TransactionStage::DirectSendOrSaf,
            TransactionStage::Negotiated,
            TransactionStage::Broadcast,
            TransactionStage::MinedUnconfirmed,
            TransactionStage::Mined,
            TransactionStage::Timedout,
        ]
    }

    /// The first stage in declaration order that is written `name`, if any.
    pub open spec fn named(name: Seq<char>) -> Option<TransactionStage> {
        Self::named_from(name, 0)
    }

    pub open spec fn named_from(name: Seq<char>, start: int) -> Option<TransactionStage>
        decreases Self::all_spec().len() - start,
    {
        if start < 0 || start >= Self::all_spec().len() {
            None
        } else if Self::all_spec()[start].name_of() == name {
            Some(Self::all_spec()[start])
        } else {
            Self::named_from(name, start + 1)
        }
    }

    pub fn as_str(self) -> (name: &'static str)
        ensures
            name@ == self.name_of(),
    {
        match self {
            TransactionStage::Initiated => "Initiated",
            TransactionStage::DirectSendOrSaf => "DirectSendOrSaf",
            TransactionStage::Negotiated => "Negotiated",
            TransactionStage::Broadcast => "Broadcast",
            TransactionStage::MinedUnconfirmed => "MinedUnconfirmed",
            TransactionStage::Mined => "Mined",
            TransactionStage::Timedout => "Timedout",
        }
    }

    pub fn all() -> (stages: Vec<TransactionStage>)
        ensures
            stages@ == Self::all_spec(),
    {
        let mut stages: Vec<TransactionStage> = Vec::new();
        stages.push(TransactionStage::Initiated);
        stages.push(TransactionStage::DirectSendOrSaf);
        stages.push(TransactionStage::Negotiated);
        stages.push(TransactionStage::Broadcast);
        stages.push(TransactionStage::MinedUnconfirmed);
        stages.push(TransactionStage::Mined);
        stages.push(TransactionStage::Timedout);
        assert(stages@ =~= Self::all_spec());
        stages
    }

    /// Reads a stage from its name.
    pub fn from_name(name: &str) -> (stage: Option<TransactionStage>)
        ensures
            stage == Self::named(name@),
    {
        let stages = Self::all();
        let mut i: usize = 0;
        while i < stages.len()
            invariant
                i <= stages.len(),
                stages@ == Self::all_spec(),
                Self::named(name@) == Self::named_from(name@, i as int),
            decreases stages.len() - i,
        {
            if str_equals(stages[i].as_str(), name) {
                return Some(stages[i]);
            }
            i += 1;
        }
        None
    }
}

/// The identifier of a transaction in the wallet.
pub type TxId = u64;

/// An amount in millionths of a coin.
#[derive(Clone, Copy, Debug, PartialEq, Eq, Structural)]
pub struct MicroTari(pub u64);

/// The fee for each gram of a transaction that the wallet's commands pay.
pub const COMMAND_FEE_PER_GRAM: u64 = 25;

/// The fee for each gram that a coin split pays.
pub const COIN_SPLIT_FEE_PER_GRAM: u64 = 100;

/// The longest that the wallet waits between two transactions of a rain,
/// in milliseconds.
pub const MAX_RAIN_DELAY_MILLIS: u64 = 120_000;

/// Why a command could not be run.
#[derive(Clone, Copy, Debug, PartialEq, Eq, Structural)]
pub enum CommandError {
    /// An argument is not of the kind that the command takes at its place.
    Argument,
}

/// An argument of a command, as the parser read it.
#[derive(Debug, PartialEq, Eq)]
pub enum ParsedArgument {
    Amount(MicroTari),
    PublicKey(PublicKey),
    Text(String),
    Int(u64),
    CSVFileName(String),
    Address(Multiaddr),
    Negotiated(bool),
}

/// What it takes to send a transaction.
#[derive(Debug, PartialEq, Eq)]
pub struct TransactionParameters {
    pub fee_per_gram: MicroTari,
    pub amount: MicroTari,
    pub dest_pubkey: PublicKey,
    pub message: String,
}

/// Reads what it takes to send a transaction from the first three
/// arguments: an amount, a public key and a text, in that order. The fee is
/// fixed. An argument of another kind at one of these places is an error.
pub fn get_transaction_parameters(args: Vec<ParsedArgument>) -> (parameters: Result<
    TransactionParameters,
    CommandError,
>)
    requires
        args@.len() >= 3,
    ensures
        match (args@[0], args@[1], args@[2]) {
            (
                ParsedArgument::Amount(amount),
                ParsedArgument::PublicKey(key),
                ParsedArgument::Text(message),
            ) => parameters == Ok::<TransactionParameters, CommandError>(
                TransactionParameters {
                    fee_per_gram: MicroTari(COMMAND_FEE_PER_GRAM),
                    amount,
                    dest_pubkey: key,
                    message,
                },
            ),
            _ => parameters == Err::<TransactionParameters, CommandError>(CommandError::Argument),
        },
{
    let mut args = args;
    let fee_per_gram = MicroTari(COMMAND_FEE_PER_GRAM);
    let third = args.remove(2);
    let second = args.remove(1);
    let first = args.remove(0);
    let amount = match first {
        ParsedArgument::Amount(mtari) => mtari,
        _ => {
            return Err(CommandError::Argument);
        },
    };
    let dest_pubkey = match second {
        ParsedArgument::PublicKey(key) => key,
        _ => {
            return Err(CommandError::Argument);
        },
    };
    let message = match third {
        ParsedArgument::Text(msg) => msg,
        _ => {
            return Err(CommandError::Argument);
        },
    };
    Ok(TransactionParameters { fee_per_gram, amount, dest_pubkey, message })
}

/// What it takes to split coins.
#[derive(Clone, Copy, Debug, PartialEq, Eq, Structural)]
pub struct CoinSplitParameters {
    pub amount_per_split: MicroTari,
    pub num_splits: u64,
    pub fee_per_gram: MicroTari,
}

/// Reads what it takes to split coins from the first two arguments: an
/// amount and a number, in that order. The fee is fixed.
pub fn coin_split_parameters(args: &Vec<ParsedArgument>) -> (parameters: Result<
    CoinSplitParameters,
    CommandError,
>)
    requires
        args@.len() >= 2,
    ensures
        parameters == match (args@[0], args@[1]) {
            (ParsedArgument::Amount(amount), ParsedArgument::Int(splits)) => Ok::<
                CoinSplitParameters,
                CommandError,
            >(
                CoinSplitParameters {
                    amount_per_split: amount,
                    num_splits: splits,
                    fee_per_gram: MicroTari(COIN_SPLIT_FEE_PER_GRAM),
                },
            ),
            _ => Err::<CoinSplitParameters, CommandError>(CommandError::Argument),
        },
{
    let amount_per_split = match &args[0] {
        ParsedArgument::Amount(s) => *s,
        _ => {
            return Err(CommandError::Argument);
        },
    };
    let num_splits = match &args[1] {
        ParsedArgument::Int(s) => *s,
        _ => {
            return Err(CommandError::Argument);
        },
    };
    Ok(
        CoinSplitParameters {
            amount_per_split,
            num_splits,
            fee_per_gram: MicroTari(COIN_SPLIT_FEE_PER_GRAM),
        },
    )
}

/// Reads the base node to follow from the first two arguments: a public
/// key and an address, in that order.
pub fn base_node_parameters(args: Vec<ParsedArgument>) -> (parameters: Result<
    (PublicKey, Multiaddr),
    CommandError,
>)
    requires
        args@.len() >= 2,
    ensures
        match (args@[0], args@[1]) {
            (ParsedArgument::PublicKey(key), ParsedArgument::Address(address)) => parameters
                == Ok::<(PublicKey, Multiaddr), CommandError>((key, address)),
            _ => parameters == Err::<(PublicKey, Multiaddr), CommandError>(CommandError::Argument),
        },
{
    let mut args = args;
    let second = args.remove(1);
    let first = args.remove(0);
    let public_key = match first {
        ParsedArgument::PublicKey(key) => key,
        _ => {
            return Err(CommandError::Argument);
        },
    };
    let net_address = match second {
        ParsedArgument::Address(address) => address,
        _ => {
            return Err(CommandError::Argument);
        },
    };
    Ok((public_key, net_address))
}

/// The amount of transaction number `i` of a rain, counted from zero: the
/// starting amount and `i` times the increase.
pub fn rain_amount(start_amount: MicroTari, inc_amount: MicroTari, i: u64) -> (amount: MicroTari)
    requires
        start_amount.0 + inc_amount.0 * i <= u64::MAX,
    ensures
        amount.0 == start_amount.0 + inc_amount.0 * i,
{
    assert(inc_amount.0 * i <= u64::MAX) by (nonlinear_arith)
        requires
            start_amount.0 + inc_amount.0 * i <= u64::MAX,
    ;
    MicroTari(start_amount.0 + inc_amount.0 * i)
}

/// How long the wallet waits before a transaction of a rain, in
/// milliseconds: the time by which it is ahead of its schedule, but never
/// more than two minutes; nothing where it is on time or late.
pub open spec fn rain_delay_spec(target_ms: i64, actual_ms: i64) -> Option<u64> {
    if target_ms - actual_ms > 0 {
        if target_ms - actual_ms > MAX_RAIN_DELAY_MILLIS {
            Some(MAX_RAIN_DELAY_MILLIS)
        } else {
            Some((target_ms - actual_ms) as u64)
        }
    } else {
        None
    }
}

pub fn rain_delay(target_ms: i64, actual_ms: i64) -> (delay: Option<u64>)
    ensures
        delay == rain_delay_spec(target_ms, actual_ms),
{
    if target_ms > actual_ms {
        if actual_ms >= 0 || target_ms < 0 || target_ms <= i64::MAX + actual_ms {
            let ahead = target_ms - actual_ms;
            if ahead > 120_000 {
                Some(MAX_RAIN_DELAY_MILLIS)
            } else {
                Some(ahead as u64)
            }
        } else {
            Some(MAX_RAIN_DELAY_MILLIS)
        }
    } else {
        None
    }
}

/// What the transaction service tells of a transaction.
#[derive(Clone, Copy, Debug, PartialEq, Eq, Structural)]
pub enum TransactionEvent {
    TransactionDirectSendResult(TxId, bool),
    TransactionStoreForwardSendResult(TxId, bool),
    ReceivedTransactionReply(TxId),
    TransactionBroadcast(TxId),
    TransactionMinedUnconfirmed(TxId, u64),
    TransactionMined(TxId),
    /// An event that tells of no stage of a sent transaction.
    Other,
}

impl TransactionEvent {
    /// The transaction and the stage that the event tells of, if any.
    pub open spec fn stage_reached(self) -> Option<(TxId, TransactionStage)> {
        match self {
            TransactionEvent::TransactionDirectSendResult(id, _) => Some(
                (id, TransactionStage::DirectSendOrSaf),
            ),
            TransactionEvent::TransactionStoreForwardSendResult(id, _) => Some(
                (id, TransactionStage::DirectSendOrSaf),
            ),
            TransactionEvent::ReceivedTransactionReply(id) => Some(
                (id, TransactionStage::Negotiated),
            ),
            TransactionEvent::TransactionBroadcast(id) => Some((id, TransactionStage::Broadcast)),
            TransactionEvent::TransactionMinedUnconfirmed(id, _) => Some(
                (id, TransactionStage::MinedUnconfirmed),
            ),
            TransactionEvent::TransactionMined(id) => Some((id, TransactionStage::Mined)),
            TransactionEvent::Other => None,
        }
    }

    pub fn stage(self) -> (reached: Option<(TxId, TransactionStage)>)
        ensures
            reached == self.stage_reached(),
    {
        match self {
            TransactionEvent::TransactionDirectSendResult(id, _) => Some(
                (id, TransactionStage::DirectSendOrSaf),
            ),
            TransactionEvent::TransactionStoreForwardSendResult(id, _) => Some(
                (id, TransactionStage::DirectSendOrSaf),
            ),
            TransactionEvent::ReceivedTransactionReply(id) => Some(
                (id, TransactionStage::Negotiated),
            ),
            TransactionEvent::TransactionBroadcast(id) => Some((id, TransactionStage::Broadcast)),
            TransactionEvent::TransactionMinedUnconfirmed(id, _) => Some(
                (id, TransactionStage::MinedUnconfirmed),
            ),
            TransactionEvent::TransactionMined(id) => Some((id, TransactionStage::Mined)),
            TransactionEvent::Other => None,
        }
    }
}

/// A transaction that was seen to reach a stage.
#[derive(Clone, Copy, Debug, PartialEq, Eq, Structural)]
pub struct SentTransaction {
    pub id: TxId,
    pub stage: TransactionStage,
}

/// Watches sent transactions until each was seen at the stage to wait for.
#[derive(Debug)]
pub struct TransactionMonitor {
    tx_ids: Vec<TxId>,
    wait_stage: TransactionStage,
    results: Vec<SentTransaction>,
}

/// The monitor, as the contracts speak of it.
pub struct MonitorView {
    pub tx_ids: Seq<TxId>,
    pub wait_stage: TransactionStage,
    pub results: Seq<SentTransaction>,
}

impl MonitorView {
    /// Whether the event is one that the monitor counts: it tells that one
    /// of the watched transactions reached the stage to wait for.
    pub open spec fn counts(self, event: TransactionEvent) -> bool {
        event.stage_reached() matches Some((id, stage)) && self.tx_ids.contains(id) && stage
            == self.wait_stage
    }

    /// The monitor after the event: an event that counts is noted.
    pub open spec fn noted(self, event: TransactionEvent) -> MonitorView {
        if self.counts(event) {
            MonitorView {
                results: self.results.push(
                    SentTransaction { id: event.stage_reached().unwrap().0, stage: self.wait_stage },
                ),
                ..self
            }
        } else {
            self
        }
    }

    /// Whether the monitor is done after the event: the event counts, and
    /// with it as many were noted as transactions are watched.
    pub open spec fn done_after(self, event: TransactionEvent) -> bool {
        self.counts(event) && self.results.len() + 1 == self.tx_ids.len()
    }
}

impl View for TransactionMonitor {
    type V = MonitorView;

    closed spec fn view(&self) -> MonitorView {
        MonitorView { tx_ids: self.tx_ids@, wait_stage: self.wait_stage, results: self.results@ }
    }
}

impl TransactionMonitor {
    pub fn new(tx_ids: Vec<TxId>, wait_stage: TransactionStage) -> (monitor: TransactionMonitor)
        ensures
            monitor@ == (MonitorView { tx_ids: tx_ids@, wait_stage, results: Seq::empty() }),
    {
        TransactionMonitor { tx_ids, wait_stage, results: Vec::new() }
    }

    fn is_watched(&self, id: TxId) -> (watched: bool)
        ensures
            watched == self@.tx_ids.contains(id),
    {
        let mut i: usize = 0;
        while i < self.tx_ids.len()
            invariant
                i <= self.tx_ids.len(),
                forall|j: int| 0 <= j < i ==> self.tx_ids@[j] != id,
            decreases self.tx_ids.len() - i,
        {
            if self.tx_ids[i] == id {
                return true;
            }
            i += 1;
        }
        false
    }

    /// Takes note of an event and says whether the monitor is done.
    pub fn on_event(&mut self, event: TransactionEvent) -> (done: bool)
        ensures
            final(self)@ == old(self)@.noted(event),
            done == old(self)@.done_after(event),
    {
        match event.stage() {
            Some((id, stage)) => {
                if self.is_watched(id) && stage == self.wait_stage {
                    self.results.push(SentTransaction { id, stage: self.wait_stage });
                    self.results.len() == self.tx_ids.len()
                } else {
                    false
                }
            },
            None => false,
        }
    }

    /// The transactions that were seen at the stage to wait for, in the
    /// order in which they were seen.
    pub fn results(&self) -> (results: &Vec<SentTransaction>)
        ensures
            results@ == self@.results,
    {
        &self.results
    }

    pub fn into_results(self) -> (results: Vec<SentTransaction>)
        ensures
            results@ == self@.results,
    {
        self.results
    }
}

/// The sum of the values.
pub open spec fn total_value(values: Seq<u64>) -> nat
    decreases values.len(),
{
    if values.len() == 0 {
        0
    } else {
        total_value(values.drop_last()) + values.last() as nat
    }
}

/// What the wallet reports of its unspent outputs.
#[derive(Clone, Copy, Debug, PartialEq, Eq, Structural)]
pub struct UtxoSummary {
    pub count: usize,
    pub sum: MicroTari,
    pub min: Option<MicroTari>,
    pub max: Option<MicroTari>,
}

/// Counts and sums up the values of outputs and finds the smallest and the
/// largest of them.
pub fn count_utxos(values: &Vec<u64>) -> (summary: UtxoSummary)
    requires
        total_value(values@) <= u64::MAX,
    ensures
        summary.count == values@.len(),
        summary.sum.0 == total_value(values@),
        values@.len() == 0 ==> summary.min is None && summary.max is None,
        values@.len() > 0 ==> {
            &&& summary.min matches Some(min) && values@.contains(min.0) && forall|i: int|
                0 <= i < values@.len() ==> min.0 <= values@[i]
            &&& summary.max matches Some(max) && values@.contains(max.0) && forall|i: int|
                0 <= i < values@.len() ==> values@[i] <= max.0
        },
{
    let mut sum: u64 = 0;
    let mut min: Option<MicroTari> = None;
    let mut max: Option<MicroTari> = None;
    let mut i: usize = 0;
    while i < values.len()
        invariant
            i <= values.len(),
            total_value(values@) <= u64::MAX,
            sum == total_value(values@.take(i as int)),
            i == 0 ==> min is None && max is None,
            i > 0 ==> {
                &&& min matches Some(low) && values@.take(i as int).contains(low.0) && forall|
                    j: int,
                | 0 <= j < i ==> low.0 <= values@[j]
                &&& max matches Some(high) && values@.take(i as int).contains(high.0) && forall|
                    j: int,
                | 0 <= j < i ==> values@[j] <= high.0
            },
        decreases values.len() - i,
    {
        let value = values[i];
        proof {
            assert(values@.take(i + 1).drop_last() =~= values@.take(i as int));
            lemma_total_value_grows(values@, i + 1);
            assert(values@.take(i + 1)[i as int] == value);
            assert forall|x: u64| values@.take(i as int).contains(x) implies values@.take(
                i + 1,
            ).contains(x) by {
                let j = choose|j: int| 0 <= j < i && values@.take(i as int)[j] == x;
                assert(values@.take(i + 1)[j] == x);
            }
        }
        sum = sum + value;
        min = match min {
            Some(low) => if value < low.0 {
                Some(MicroTari(value))
            } else {
                Some(low)
            },
            None => Some(MicroTari(value)),
        };
        max = match max {
            Some(high) => if value > high.0 {
                Some(MicroTari(value))
            } else {
                Some(high)
            },
            None => Some(MicroTari(value)),
        };
        i += 1;
    }
    proof {
        assert(values@.take(i as int) =~= values@);
    }
    UtxoSummary { count: values.len(), sum: MicroTari(sum), min, max }
}

/// The sum of the first values of a list is at most the sum of them all.
pub proof fn lemma_total_value_grows(values: Seq<u64>, n: int)
    requires
        0 <= n <= values.len(),
    ensures
        total_value(values.take(n)) <= total_value(values),
    decreases values.len() - n,
{
    if n < values.len() {
        lemma_total_value_grows(values, n + 1);
        assert(values.take(n + 1).drop_last() =~= values.take(n));
    } else {
        assert(values.take(n) =~= values);
    }
}

impl WalletCommand {
    /// Whether the command sends a transaction that the runner watches
    /// afterwards.
    pub fn yields_transaction(self) -> (yields: bool)
        ensures
            yields == (self is SendTari || self is SendOneSided || self is CoinSplit),
    {
        match self {
            WalletCommand::SendTari => true,
            WalletCommand::SendOneSided => true,
            WalletCommand::CoinSplit => true,
            _ => false,
        }
    }

    /// Whether the runner waits for a connection before it runs the command.
    pub fn needs_connectivity(self) -> (needs: bool)
        ensures
            needs == (self is DiscoverPeer),
    {
        match self {
            WalletCommand::DiscoverPeer => true,
            _ => false,
        }
    }
}

} // verus!
