//! The configuration that the agent starts from.

use std::collections::HashMap;
use vstd::prelude::*;

verus! {

/// One blockchain network: its numeric identifier and the name that
/// diagnostics show.
#[derive(Debug, PartialEq, Eq)]
pub struct Domain {
    pub id: u32,
    pub name: String,
}

impl Clone for Domain {
    fn clone(&self) -> (copy: Self)
        ensures
            copy == *self,
    {
        Domain { id: self.id, name: self.name.clone() }
    }
}

/// How the streams of one chain are paced. The agent hands it on unread.
#[derive(Clone, Copy, Debug, PartialEq, Eq, Structural)]
pub struct IndexSettings {
    /// The block that indexing starts from where nothing is on record.
    pub from: u32,
    /// How many blocks one catch-up query covers.
    pub chunk_size: u32,
}

/// What is configured for one chain.
#[derive(Debug, PartialEq, Eq)]
pub struct ChainConf {
    pub domain: Domain,
    /// The address of the chain's mailbox contract.
    pub mailbox: [u8; 32],
    pub index: IndexSettings,
}

/// The agent's settings: the chains to scrape, and the configuration of the
/// chains that have one, by domain identifier.
#[derive(Debug)]
pub struct ScraperSettings {
    pub chains_to_scrape: Vec<Domain>,
    pub chains: HashMap<u32, ChainConf>,
}

impl ScraperSettings {
    /// The configuration of the chain `id`, if it has one.
    pub open spec fn setup_of(self, id: u32) -> Option<ChainConf> {
        if self.chains@.contains_key(id) {
            Some(self.chains@[id])
        } else {
            None
        }
    }

    /// Looks up the configuration of a chain.
    pub fn chain_setup(&self, id: u32) -> (found: Option<&ChainConf>)
        ensures
            found.is_some() == self.chains@.contains_key(id),
            match found {
                Some(conf) => Some(*conf) == self.setup_of(id),
                None => self.setup_of(id).is_none(),
            },
    {
        self.chains.get(&id)
    }
}

} // verus!
