//! The gateway's static configuration: an ordered list of commands, each
//! binding one endpoint path to the actions it may perform, plus the listen
//! address and the shared secret. The configuration is built once at startup
//! and never mutated; every string-like field is held as bytes.

use vstd::prelude::*;

verus! {

/// One configured endpoint. Several action fields may be set at once; the
/// dispatcher's fixed precedence decides which one runs for a given method.
pub struct Command {
    /// Exact request path this command is bound to.
    pub endpoint: Vec<u8>,
    /// Shell command template.
    pub shell: Option<Vec<u8>>,
    /// Path template of a text file to read.
    pub read_file: Option<Vec<u8>>,
    /// Path template of a binary file to read.
    pub read_bin_file: Option<Vec<u8>>,
    /// Path template of a file to write.
    pub write_file: Option<Vec<u8>>,
    /// Owner name to apply after a write.
    pub user: Option<Vec<u8>>,
    /// Group name to apply after a write.
    pub group: Option<Vec<u8>>,
    /// Permission bits to apply after a write.
    pub mode: Option<u32>,
}

/// The whole configuration.
pub struct Config {
    /// Listen address.
    pub listen: Vec<u8>,
    /// Listen port.
    pub listen_port: u16,
    /// Shared secret expected in the Authorization header.
    pub apikey: Vec<u8>,
    /// Ordered command list; on duplicate endpoints the first wins.
    pub commands: Vec<Command>,
}

/// An optional byte vector, seen as an optional sequence.
pub open spec fn opt_bytes_view(o: Option<Vec<u8>>) -> Option<Seq<u8>> {
    match o {
        Some(v) => Some(v@),
        None => None,
    }
}

/// Copy of an optional byte vector.
pub fn clone_opt_bytes(o: &Option<Vec<u8>>) -> (r: Option<Vec<u8>>)
    ensures
        opt_bytes_view(r) == opt_bytes_view(*o),
{
    match o {
        Some(v) => {
            let c = v.clone();
            proof {
                assert(c@ =~= v@);
            }
            Some(c)
        },
        None => None,
    }
}

} // verus!
