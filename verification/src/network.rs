//! The networks a node can join.

use vstd::prelude::*;
use vstd::string::StringExecFns;

verus! {

/// Whether two string slices hold the same characters.
pub fn str_equals(a: &str, b: &str) -> (same: bool)
    ensures
        same == (a@ == b@),
{
    a.to_owned() == b.to_owned()
}

/// A setting that could not be read, with the name of the setting and the reason.
#[derive(Debug, PartialEq, Eq)]
pub struct ConfigurationError {
    pub field: String,
    pub message: String,
}

impl ConfigurationError {
    pub fn new(field: &str, message: &str) -> (error: ConfigurationError)
        ensures
            error.field@ == field@,
            error.message@ == message@,
    {
        ConfigurationError { field: field.to_owned(), message: message.to_owned() }
    }
}

/// The lowercase form of a string, as `str::to_lowercase` defines it.
pub uninterp spec fn lowercase_of(text: Seq<char>) -> Seq<char>;

/// Calls `str::to_lowercase`, which maps the string to its lowercase
/// equivalent by the rules of Unicode. The contract gives the result its name.
#[verifier::external_body]
fn to_lowercase(text: &str) -> (lower: String)
    ensures
        lower@ == lowercase_of(text@),
{
    text.to_lowercase()
}

/// The network a node participates in.
#[derive(Clone, Copy, Debug, PartialEq, Eq, Structural)]
pub enum Network {
    MainNet,
    LocalNet,
    Ridcully,
    Stibbons,
    Weatherwax,
}

impl Network {
    /// The byte that identifies the network on the wire.
    pub open spec fn byte_of(self) -> u8 {
        match self {
            Network::MainNet => 0x00,
            Network::LocalNet => 0x10,
            Network::Ridcully => 0x21,
            Network::Stibbons => 0x22,
            Network::Weatherwax => 0x23,
        }
    }

    /// The name of the network, in lowercase.
    pub open spec fn name_of(self) -> Seq<char> {
        match self {
            Network::MainNet => "mainnet"@,
            Network::LocalNet => "localnet"@,
            Network::Ridcully => "ridcully"@,
            Network::Stibbons => "stibbons"@,
            Network::Weatherwax => "weatherwax"@,
        }
    }

    /// The network that a lowercase name stands for, if any.
    pub open spec fn named(name: Seq<char>) -> Option<Network> {
        if name == "ridcully"@ {
            Some(Network::Ridcully)
        } else if name == "stibbons"@ {
            Some(Network::Stibbons)
        } else if name == "weatherwax"@ {
            Some(Network::Weatherwax)
        } else if name == "mainnet"@ {
            Some(Network::MainNet)
        } else if name == "localnet"@ {
            Some(Network::LocalNet)
        } else {
            None
        }
    }

    pub fn as_byte(self) -> (byte: u8)
        ensures
            byte == self.byte_of(),
    {
        match self {
            Network::MainNet => 0x00,
            Network::LocalNet => 0x10,
            Network::Ridcully => 0x21,
            Network::Stibbons => 0x22,
            Network::Weatherwax => 0x23,
        }
    }

    pub fn as_str(self) -> (name: &'static str)
        ensures
            name@ == self.name_of(),
    {
        match self {
            Network::MainNet => "mainnet",
            Network::Ridcully => "ridcully",
            Network::Stibbons => "stibbons",
            Network::Weatherwax => "weatherwax",
            Network::LocalNet => "localnet",
        }
    }

    /// The name of the network as an owned string.
    pub fn to_string(&self) -> (name: String)
        ensures
            name@ == self.name_of(),
    {
        self.as_str().to_owned()
    }

    /// Reads a network from its lowercase name. Any other text is refused
    /// with an error on the setting `network` that quotes the text.
    pub fn from_lowercase_name(name: &str) -> (result: Result<Network, ConfigurationError>)
        ensures
            match result {
                Ok(network) => Network::named(name@) == Some(network),
                Err(error) => {
                    &&& Network::named(name@) is None
                    &&& error.field@ == "network"@
                    &&& error.message@ == "Invalid network option: "@ + name@
                },
            },
    {
        if str_equals(name, "ridcully") {
            Ok(Network::Ridcully)
        } else if str_equals(name, "stibbons") {
            Ok(Network::Stibbons)
        } else if str_equals(name, "weatherwax") {
            Ok(Network::Weatherwax)
        } else if str_equals(name, "mainnet") {
            Ok(Network::MainNet)
        } else if str_equals(name, "localnet") {
            Ok(Network::LocalNet)
        } else {
            let message = String::from_str("Invalid network option: ").concat(name);
            Err(ConfigurationError::new("network", message.as_str()))
        }
    }

    /// Reads a network from its name in any letter case.
    pub fn parse(value: &str) -> (result: Result<Network, ConfigurationError>)
        ensures
            match result {
                Ok(network) => Network::named(lowercase_of(value@)) == Some(network),
                Err(error) => {
                    &&& Network::named(lowercase_of(value@)) is None
                    &&& error.field@ == "network"@
                    &&& error.message@ == "Invalid network option: "@ + lowercase_of(value@)
                },
            },
    {
        let lower = to_lowercase(value);
        Network::from_lowercase_name(lower.as_str())
    }
}

impl Default for Network {
    fn default() -> (network: Network)
        ensures
            network == Network::MainNet,
    {
        Network::MainNet
    }
}

impl core::str::FromStr for Network {
    type Err = ConfigurationError;

    fn from_str(value: &str) -> (result: Result<Network, ConfigurationError>)
        ensures
            match result {
                Ok(network) => Network::named(lowercase_of(value@)) == Some(network),
                Err(error) => {
                    &&& Network::named(lowercase_of(value@)) is None
                    &&& error.field@ == "network"@
                    &&& error.message@ == "Invalid network option: "@ + lowercase_of(value@)
                },
            },
    {
        Network::parse(value)
    }
}

/// Every network is found again under its own name.
pub proof fn law_name_round_trip(network: Network)
    ensures
        Network::named(network.name_of()) == Some(network),
{
    reveal_strlit("mainnet");
    reveal_strlit("localnet");
    reveal_strlit("ridcully");
    reveal_strlit("stibbons");
    reveal_strlit("weatherwax");
    match network {
        Network::MainNet => {
            assert("mainnet"@[0] == 'm');
            assert("ridcully"@[0] == 'r');
            assert("stibbons"@[0] == 's');
            assert("weatherwax"@[0] == 'w');
        },
        Network::LocalNet => {
            assert("localnet"@[0] == 'l');
            assert("mainnet"@[0] == 'm');
            assert("ridcully"@[0] == 'r');
            assert("stibbons"@[0] == 's');
            assert("weatherwax"@[0] == 'w');
        },
        Network::Ridcully => {},
        Network::Stibbons => {
            assert("stibbons"@[0] == 's');
            assert("ridcully"@[0] == 'r');
        },
        Network::Weatherwax => {
            assert("ridcully"@[0] == 'r');
            assert("stibbons"@[0] == 's');
            assert("weatherwax"@[0] == 'w');
        },
    }
}

/// No two networks share a wire byte.
pub proof fn law_bytes_are_distinct(a: Network, b: Network)
    ensures
        (a.byte_of() == b.byte_of()) == (a == b),
{
}

} // verus!
