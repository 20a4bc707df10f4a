use std::str::FromStr;
use tari_node_stack::base_node::comms_interface::Broadcast;
use tari_node_stack::comms::pipeline::SinkService;
use tari_node_stack::network::{ConfigurationError, Network};
use tari_node_stack::wallet::commands::{TransactionStage, WalletCommand};

const NETWORKS: [Network; 5] =
    [Network::MainNet, Network::LocalNet, Network::Ridcully, Network::Stibbons, Network::Weatherwax];

#[test]
fn networks_have_their_wire_bytes() {
    assert_eq!(Network::MainNet.as_byte(), 0x00);
    assert_eq!(Network::LocalNet.as_byte(), 0x10);
    assert_eq!(Network::Ridcully.as_byte(), 0x21);
    assert_eq!(Network::Stibbons.as_byte(), 0x22);
    assert_eq!(Network::Weatherwax.as_byte(), 0x23);
}

#[test]
fn networks_have_their_names() {
    assert_eq!(Network::MainNet.as_str(), "mainnet");
    assert_eq!(Network::LocalNet.as_str(), "localnet");
    assert_eq!(Network::Ridcully.as_str(), "ridcully");
    assert_eq!(Network::Stibbons.as_str(), "stibbons");
    assert_eq!(Network::Weatherwax.as_str(), "weatherwax");
    assert_eq!(Network::Stibbons.to_string(), "stibbons");
}

#[test]
fn networks_are_read_from_their_names_in_any_case() {
    for network in NETWORKS {
        assert_eq!(Network::from_str(network.as_str()), Ok(network));
        assert_eq!(Network::from_str(&network.as_str().to_uppercase()), Ok(network));
        assert_eq!(Network::parse(network.as_str()), Ok(network));
        assert_eq!(Network::from_lowercase_name(network.as_str()), Ok(network));
    }
    assert_eq!(Network::from_str("RidCully"), Ok(Network::Ridcully));
    assert!(Network::from_lowercase_name("RidCully").is_err());
}

#[test]
fn an_unknown_network_is_refused_with_its_name() {
    let expected = ConfigurationError::new("network", "Invalid network option: rincewind");
    assert_eq!(Network::from_str("Rincewind"), Err(expected));
    assert_eq!(
        Network::from_str(""),
        Err(ConfigurationError { field: "network".to_string(), message: "Invalid network option: ".to_string() })
    );
    assert_eq!(
        Network::from_lowercase_name("mainnet "),
        Err(ConfigurationError::new("network", "Invalid network option: mainnet "))
    );
}

#[test]
fn the_default_network_is_mainnet() {
    assert_eq!(Network::default(), Network::MainNet);
}

#[test]
fn broadcast_carries_its_flag() {
    assert!(Broadcast::from(true).is_true());
    assert!(!Broadcast::from(false).is_true());
    assert!(Broadcast::new(true).is_true());
    assert_eq!(Broadcast::from(true).to_string(), "Broadcast[true]");
    assert_eq!(Broadcast::from(false).to_string(), "Broadcast[false]");
    assert!(bool::from(Broadcast::from(true)));
    assert!(!bool::from(Broadcast::from(false)));
}

#[test]
fn sink_service_holds_its_sink() {
    let service = SinkService::new(vec![1u8, 2, 3]);
    assert_eq!(service.get_ref(), &vec![1u8, 2, 3]);
    assert_eq!(service.clone().into_inner(), vec![1u8, 2, 3]);
}

#[test]
fn wallet_commands_are_written_in_kebab_case() {
    let names = [
        "get-balance",
        "send-tari",
        "send-one-sided",
        "make-it-rain",
        "coin-split",
        "discover-peer",
        "whois",
        "export-utxos",
        "export-spent-utxos",
        "count-utxos",
        "set-base-node",
        "set-custom-base-node",
        "clear-custom-base-node",
    ];
    let all = WalletCommand::all();
    assert_eq!(all.len(), names.len());
    for (command, name) in all.iter().zip(names) {
        assert_eq!(command.as_str(), name);
        assert_eq!(command.to_string(), name);
        assert_eq!(WalletCommand::from_name(name), Some(*command));
    }
    assert_eq!(WalletCommand::from_name("GetBalance"), None);
    assert_eq!(WalletCommand::from_name("get_balance"), None);
    assert_eq!(WalletCommand::from_name(""), None);
}

#[test]
fn transaction_stages_are_read_from_their_names() {
    let names = ["Initiated", "DirectSendOrSaf", "Negotiated", "Broadcast", "MinedUnconfirmed", "Mined", "Timedout"];
    let all = TransactionStage::all();
    assert_eq!(all.len(), names.len());
    for (stage, name) in all.iter().zip(names) {
        assert_eq!(stage.as_str(), name);
        assert_eq!(TransactionStage::from_name(name), Some(*stage));
    }
    assert_eq!(TransactionStage::from_name("mined"), None);
    assert_eq!(TransactionStage::from_name("Mined "), None);
}
