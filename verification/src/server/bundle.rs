//! Bundles: the configuration and WebAssembly module that a room runs.

use vstd::prelude::*;
use crate::maf_schemas::project_config::ProjectConfigFile;

verus! {

/// A bundle is a full package of the resources and configuration needed to run a MAF room.
#[derive(Debug, Clone)]
pub struct Bundle {
    /// Loaded from `maf-project.toml`.
    config: ProjectConfigFile,
    /// The bytes of the WASM module that will be loaded into the room's container.
    wasm: Vec<u8>,
}

impl Bundle {
    /// The configuration of the bundle.
    pub closed spec fn spec_config(&self) -> ProjectConfigFile {
        self.config
    }

    /// The module bytes of the bundle.
    pub closed spec fn spec_wasm(&self) -> Seq<u8> {
        self.wasm@
    }

    /// A bundle of `config` and the module `bytes`; this always succeeds.
    pub fn from_wasm_bytes(config: ProjectConfigFile, bytes: Vec<u8>) -> (bundle: Result<
        Self,
        core::convert::Infallible,
    >)
        ensures
            bundle matches Ok(b) && b.spec_config() == config && b.spec_wasm() == bytes@,
    {
        Ok(Bundle { config, wasm: bytes })
    }

    /// The bytes of the WASM module.
    pub fn wasm_module_bytes(&self) -> (bytes: &[u8])
        ensures
            bytes@ == self.spec_wasm(),
    {
        self.wasm.as_slice()
    }

    /// The bundle's configuration.
    pub fn config(&self) -> (config: &ProjectConfigFile)
        ensures
            *config == self.spec_config(),
    {
        &self.config
    }
}

} // verus!
