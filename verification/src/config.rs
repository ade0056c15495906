//! The client-side configuration: endpoints, key location, address labels
//! and commitment level.
//!
//! Loading the configuration from disk is the surrounding application's
//! job; this module holds the values and answers queries about them.

use vstd::prelude::*;

verus! {

/// Configuration for the command-line client.
#[derive(Debug)]
pub struct Config {
    /// URL of the ledger's JSON RPC endpoint.
    pub json_rpc_url: String,
    /// URL of the ledger's websocket endpoint.
    pub websocket_url: String,
    /// Path of the keypair file.
    pub keypair_path: String,
    /// Labels for known addresses.
    pub address_labels: Vec<(String, String)>,
    /// Commitment level, e.g. "processed", "confirmed" or "finalized".
    pub commitment: String,
}

/// The label of the first pair whose address matches, if any.
pub open spec fn spec_lookup_label(labels: Seq<(String, String)>, address: Seq<char>) -> Option<
    Seq<char>,
>
    decreases labels.len(),
{
    if labels.len() == 0 {
        None
    } else if labels[0].0@ == address {
        Some(labels[0].1@)
    } else {
        spec_lookup_label(labels.skip(1), address)
    }
}

impl Config {
    /// Get the JSON RPC URL.
    pub fn json_rpc_url(&self) -> (r: &str)
        ensures
            r@ == self.json_rpc_url@,
    {
        self.json_rpc_url.as_str()
    }

    /// Get the websocket URL.
    pub fn websocket_url(&self) -> (r: &str)
        ensures
            r@ == self.websocket_url@,
    {
        self.websocket_url.as_str()
    }

    /// Get the keypair path.
    pub fn keypair_path(&self) -> (r: &str)
        ensures
            r@ == self.keypair_path@,
    {
        self.keypair_path.as_str()
    }

    /// Get the commitment level.
    pub fn commitment(&self) -> (r: &str)
        ensures
            r@ == self.commitment@,
    {
        self.commitment.as_str()
    }

    /// Get the label of an address: the first entry that matches it.
    pub fn label(&self, address: &str) -> (r: Option<&str>)
        ensures
            r matches Some(s) ==> spec_lookup_label(self.address_labels@, address@) == Some(s@),
            r is None ==> spec_lookup_label(self.address_labels@, address@) is None,
    {
        let address_string = address.to_owned();
        let n = self.address_labels.len();
        let mut i: usize = 0;
        proof {
            assert(self.address_labels@.skip(0) =~= self.address_labels@);
        }
        while i < n
            invariant
                i <= n == self.address_labels@.len(),
                address_string@ == address@,
                spec_lookup_label(self.address_labels@.skip(i as int), address@)
                    == spec_lookup_label(self.address_labels@, address@),
            decreases n - i,
        {
            proof {
                assert(self.address_labels@.skip(i as int)[0] == self.address_labels@[i as int]);
            }
            if self.address_labels[i].0 == address_string {
                return Some(self.address_labels[i].1.as_str());
            }
            proof {
                assert(self.address_labels@.skip(i as int).skip(1) =~= self.address_labels@.skip(
                    i as int + 1,
                ));
            }
            i = i + 1;
        }
        proof {
            assert(self.address_labels@.skip(n as int) =~= Seq::<(String, String)>::empty());
        }
        None
    }
}

} // verus!
