//! The networks the dashboard knows: three built-in chains and whatever custom
//! networks the user added.

use vstd::prelude::*;

use crate::text::dec;
use crate::text::decimal;
use crate::text::laws::decimals_differ;

verus! {

/// A built-in chain.
#[derive(Debug, Clone, Copy, PartialEq, Eq, Structural)]
pub enum Chain {
    Mainnet,
    Base,
    Optimism,
}

impl View for Chain {
    type V = Chain;

    open spec fn view(&self) -> Chain {
        *self
    }
}

impl Chain {
    /// The short name.
    pub open spec fn label_text(self) -> Seq<char> {
        match self {
            Chain::Mainnet => "Mainnet"@,
            Chain::Base => "Base"@,
            Chain::Optimism => "Optimism"@,
        }
    }

    /// The full name.
    pub open spec fn name_text(self) -> Seq<char> {
        match self {
            Chain::Mainnet => "Ethereum Mainnet"@,
            Chain::Base => "Base"@,
            Chain::Optimism => "Optimism"@,
        }
    }

    /// The chain id.
    pub open spec fn id(self) -> u64 {
        match self {
            Chain::Mainnet => 1,
            Chain::Base => 8453,
            Chain::Optimism => 10,
        }
    }

    /// The built-in chains, in the order every list shows them.
    pub open spec fn all_chains() -> Seq<Chain> {
        seq![Chain::Mainnet, Chain::Base, Chain::Optimism]
    }

    /// The short name.
    pub fn label(self) -> (r: &'static str)
        ensures
            r@ == self.label_text(),
    {
        match self {
            Chain::Mainnet => "Mainnet",
            Chain::Base => "Base",
            Chain::Optimism => "Optimism",
        }
    }

    /// The full name.
    pub fn display_name(self) -> (r: &'static str)
        ensures
            r@ == self.name_text(),
    {
        match self {
            Chain::Mainnet => "Ethereum Mainnet",
            Chain::Base => "Base",
            Chain::Optimism => "Optimism",
        }
    }

    /// The chain id.
    pub fn chain_id(self) -> (r: u64)
        ensures
            r == self.id(),
    {
        match self {
            Chain::Mainnet => 1,
            Chain::Base => 8453,
            Chain::Optimism => 10,
        }
    }

    /// The built-in chains, in the order every list shows them.
    pub fn all() -> (r: Vec<Chain>)
        ensures
            r@ == Chain::all_chains(),
    {
        let mut out: Vec<Chain> = Vec::new();
        out.push(Chain::Mainnet);
        out.push(Chain::Base);
        out.push(Chain::Optimism);
        out
    }
}

/// A network a call can be composed for.
#[derive(Debug, Clone, Copy, PartialEq, Eq, Structural)]
pub enum NetworkId {
    Builtin(Chain),
    Custom(u64),
}

impl View for NetworkId {
    type V = NetworkId;

    open spec fn view(&self) -> NetworkId {
        *self
    }
}

impl NetworkId {
    /// The built-in chain, if it is one.
    pub open spec fn chain(self) -> Option<Chain> {
        match self {
            NetworkId::Builtin(c) => Some(c),
            NetworkId::Custom(_) => None,
        }
    }

    /// The chain id.
    pub open spec fn id(self) -> u64 {
        match self {
            NetworkId::Builtin(c) => c.id(),
            NetworkId::Custom(id) => id,
        }
    }

    /// The name used where no configured name is at hand.
    pub open spec fn name_text(self) -> Seq<char> {
        match self {
            NetworkId::Builtin(c) => c.name_text(),
            NetworkId::Custom(id) => "Chain "@ + dec(id as nat),
        }
    }

    /// The built-in chain, if it is one.
    pub fn builtin(self) -> (r: Option<Chain>)
        ensures
            r == self.chain(),
    {
        match self {
            NetworkId::Builtin(c) => Some(c),
            NetworkId::Custom(_) => None,
        }
    }

    /// The chain id.
    pub fn chain_id(self) -> (r: u64)
        ensures
            r == self.id(),
    {
        match self {
            NetworkId::Builtin(c) => c.chain_id(),
            NetworkId::Custom(id) => id,
        }
    }

    /// Whether the network was added by the user.
    pub fn is_custom(self) -> (r: bool)
        ensures
            r == (self is Custom),
    {
        match self {
            NetworkId::Builtin(_) => false,
            NetworkId::Custom(_) => true,
        }
    }

    /// The name used where no configured name is at hand.
    pub fn display_name(self) -> (r: String)
        ensures
            r@ == self.name_text(),
    {
        match self {
            NetworkId::Builtin(c) => c.display_name().to_owned(),
            NetworkId::Custom(id) => {
                let mut s: String = "Chain ".to_owned();
                s.append(decimal(id).as_str());
                s
            },
        }
    }
}

/// The built-in chains are the three the wallet verifies, each once, and each
/// has the id that the rest of the world knows it by.
pub proof fn the_builtin_chains(c: Chain)
    ensures
        Chain::all_chains().len() == 3,
        Chain::all_chains().contains(c),
        Chain::all_chains().no_duplicates(),
        Chain::Mainnet.id() == 1,
        Chain::Optimism.id() == 10,
        Chain::Base.id() == 8453,
{
    assert(Chain::all_chains()[0] == Chain::Mainnet);
    assert(Chain::all_chains()[1] == Chain::Base);
    assert(Chain::all_chains()[2] == Chain::Optimism);
}

/// A built-in network is its chain, and a custom one is none of them, whatever
/// its id.
pub proof fn a_custom_network_is_no_builtin_chain(c: Chain, id: u64)
    ensures
        NetworkId::Builtin(c).chain() == Some(c),
        NetworkId::Builtin(c).id() == c.id(),
        NetworkId::Builtin(c).name_text() == c.name_text(),
        NetworkId::Custom(id).chain() is None,
        NetworkId::Custom(id).id() == id,
        NetworkId::Custom(id).name_text() == "Chain "@ + dec(id as nat),
{
}

/// Two networks never go by one name, unless they are the same network.
pub proof fn networks_have_names_of_their_own(a: NetworkId, b: NetworkId)
    requires
        a != b,
    ensures
        a.name_text() != b.name_text(),
{
    reveal_strlit("Ethereum Mainnet");
    reveal_strlit("Base");
    reveal_strlit("Optimism");
    reveal_strlit("Chain ");
    assert("Ethereum Mainnet"@[0] == 'E');
    assert("Base"@[0] == 'B');
    assert("Optimism"@[0] == 'O');
    assert("Chain "@[0] == 'C');
    match (a, b) {
        (NetworkId::Custom(x), NetworkId::Custom(y)) => {
            decimals_differ(x as nat, y as nat);
            if a.name_text() == b.name_text() {
                assert(a.name_text().skip(6) =~= dec(x as nat));
                assert(b.name_text().skip(6) =~= dec(y as nat));
            }
        },
        (NetworkId::Custom(x), _) => {
            assert(a.name_text()[0] == 'C');
        },
        (_, NetworkId::Custom(y)) => {
            assert(b.name_text()[0] == 'C');
        },
        _ => {},
    }
}

} // verus!
