//! The module loader's decisions: how a challenge descriptor is assembled
//! from what local storage yielded, and which failure each missing piece
//! produces.
//!
//! The file reads and the structural deserialization themselves are outside
//! work; this module fixes what descriptor results from each combination of
//! their outcomes.

use vstd::prelude::*;
use crate::config::SessionConfig;

verus! {

/// Why materializing the challenge descriptor failed.  Either failure is
/// fatal to the session before any byte is written to the peer.
#[derive(Clone, Copy, PartialEq, Eq, Structural, Debug)]
pub enum LoadFailure {
    /// The bytecode file was missing, unreadable, or not a structurally
    /// valid module.
    Bytecode,
    /// The source-map file was missing or malformed.
    Metadata,
}

/// An in-memory bundle ready for publication: raw bytecode, the named
/// address binding it is published under, and whether debug metadata
/// accompanies it.
#[derive(Debug)]
pub struct ModuleDescriptor {
    pub bytecode: Vec<u8>,
    pub named_address: Option<String>,
    pub has_source_map: bool,
}

/// Assembles the challenge's descriptor from what local storage yielded:
/// `bytecode` is the bytecode file's contents if it could be read,
/// `decode_ok` whether those bytes deserialized into a structurally valid
/// module, `source_map_ok` whether the source-map file was present and
/// parsed.  A missing, unreadable or invalid bytecode file fails before the
/// source map is even considered.
pub fn build_challenge_descriptor(
    cfg: &SessionConfig,
    bytecode: Option<Vec<u8>>,
    decode_ok: bool,
    source_map_ok: bool,
) -> (r: Result<ModuleDescriptor, LoadFailure>)
    ensures
        bytecode is None ==> r == Err::<ModuleDescriptor, LoadFailure>(LoadFailure::Bytecode),
        bytecode is Some && !decode_ok ==> r == Err::<ModuleDescriptor, LoadFailure>(
            LoadFailure::Bytecode,
        ),
        bytecode is Some && decode_ok && !source_map_ok ==> r == Err::<
            ModuleDescriptor,
            LoadFailure,
        >(LoadFailure::Metadata),
        bytecode is Some && decode_ok && source_map_ok ==> {
            &&& r is Ok
            &&& r->Ok_0.bytecode@ == bytecode->0@
            &&& r->Ok_0.named_address.deep_view() == Some(cfg@.challenge_name)
            &&& r->Ok_0.has_source_map
        },
{
    match bytecode {
        None => Err(LoadFailure::Bytecode),
        Some(bytes) => {
            if !decode_ok {
                Err(LoadFailure::Bytecode)
            } else if !source_map_ok {
                Err(LoadFailure::Metadata)
            } else {
                Ok(ModuleDescriptor {
                    bytecode: bytes,
                    named_address: Some(cfg.challenge_name.clone()),
                    has_source_map: true,
                })
            }
        },
    }
}

/// Wraps the solution bytes the peer sent into a descriptor: published under
/// the solution's named address binding, never with a source map.
pub fn build_solution_descriptor(cfg: &SessionConfig, bytecode: Vec<u8>) -> (d: ModuleDescriptor)
    ensures
        d.bytecode@ == bytecode@,
        d.named_address.deep_view() == Some(cfg@.solution_name),
        !d.has_source_map,
{
    ModuleDescriptor {
        bytecode: bytecode,
        named_address: Some(cfg.solution_name.clone()),
        has_source_map: false,
    }
}

} // verus!
