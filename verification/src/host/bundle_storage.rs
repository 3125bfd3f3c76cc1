//! Storage of app bundles: the errors of loading and uploading them, the size limit of uploads,
//! and which entry of a bundle archive holds the module.

use vstd::prelude::*;
use crate::maf_schemas::error::{ErrorResponse, ErrorStatus};
use crate::maf_schemas::project_config::ProjectConfigFile;
use crate::server::bundle::Bundle;
use crate::text::str_eq;

verus! {

/// Where bundles are stored: one archive per app, named by the app's identifier, in
/// `storage_dir`.
#[derive(Debug, Clone)]
pub struct BundleStorage {
    pub storage_dir: String,
}

/// Why a bundle could not be stored or loaded.
#[derive(Debug)]
pub enum BundleError {
    FileNotFound,
    FileTooLarge,
    InvalidZip,
    /// An entry of the archive could not be read; the reader's message.
    EntryReader(String),
    /// Reading or writing the file failed; the error's message.
    Io(String),
    Unknown(String),
}

/// The largest upload and the largest module, in bytes.
pub const MAX_BUNDLE_SIZE: usize = 20 * 1024 * 1024;

/// The name of the archive entry that holds the WebAssembly module.
pub open spec fn module_entry_name() -> Seq<char> {
    "module.wasm"@
}

impl BundleError {
    /// The response for the error: a bad request for an archive that is too large or invalid, an
    /// internal server error otherwise.
    pub fn error_response(self) -> (response: ErrorResponse)
        ensures
            self matches BundleError::FileTooLarge ==> response.is(
                ErrorStatus::BadRequest,
                "File too large"@,
            ),
            self matches BundleError::InvalidZip ==> response.is(
                ErrorStatus::BadRequest,
                "Invalid zip file"@,
            ),
            !(self matches BundleError::FileTooLarge) && !(self matches BundleError::InvalidZip)
                ==> response.is(ErrorStatus::InternalServerError, "Internal Server Error"@),
    {
        match self {
            BundleError::FileTooLarge => ErrorResponse::bad_request(Some("File too large")),
            BundleError::InvalidZip => ErrorResponse::bad_request(Some("Invalid zip file")),
            _ => ErrorResponse::internal_server_error(None),
        }
    }
}

/// Counts the bytes of an upload as they arrive.
#[derive(Debug)]
pub struct UploadSize {
    size: usize,
}

impl UploadSize {
    /// The number of bytes received so far.
    pub closed spec fn received(&self) -> nat {
        self.size as nat
    }

    /// Nothing received yet.
    pub fn new() -> (upload: Self)
        ensures
            upload.received() == 0,
    {
        UploadSize { size: 0 }
    }

    /// Counts a chunk of `len` bytes and tells whether the upload is now larger than
    /// [`MAX_BUNDLE_SIZE`], in which case it is aborted.
    pub fn add_chunk(&mut self, len: usize) -> (too_large: bool)
        requires
            old(self).received() + len <= usize::MAX,
        ensures
            final(self).received() == old(self).received() + len,
            too_large == (final(self).received() > MAX_BUNDLE_SIZE),
    {
        self.size = self.size + len;
        self.size > MAX_BUNDLE_SIZE
    }
}

/// What loading a bundle does with an entry of the archive.
#[derive(Debug, PartialEq, Eq)]
pub enum EntryDecision {
    /// Not the module; go on to the next entry.
    Skip,
    /// The module is larger than [`MAX_BUNDLE_SIZE`]: fail with [`BundleError::FileTooLarge`].
    TooLarge,
    /// The module is there; the caller only validates the archive and stops here.
    Present,
    /// Read the module's `size` bytes and make the bundle of them.
    Read { size: usize },
}

/// Decides what to do with the archive entry named `name` of `uncompressed_size` bytes.
pub fn decide_entry(name: &str, uncompressed_size: u64, should_return_wasm: bool) -> (decision:
    EntryDecision)
    ensures
        name@ != module_entry_name() ==> decision == EntryDecision::Skip,
        name@ == module_entry_name() ==> decision == if uncompressed_size > MAX_BUNDLE_SIZE {
            EntryDecision::TooLarge
        } else if !should_return_wasm {
            EntryDecision::Present
        } else {
            EntryDecision::Read { size: uncompressed_size as usize }
        },
{
    if !str_eq(name, "module.wasm") {
        return EntryDecision::Skip;
    }
    if uncompressed_size > MAX_BUNDLE_SIZE as u64 {
        return EntryDecision::TooLarge;
    }
    if !should_return_wasm {
        return EntryDecision::Present;
    }
    EntryDecision::Read { size: uncompressed_size as usize }
}

/// Where an archive's module is, once its entries have been scanned.
#[derive(Debug, PartialEq, Eq)]
pub enum ModuleEntry {
    /// The module is there; it is not read.
    Present,
    /// Read the `size` bytes of the entry at position `index`.
    Read { index: usize, size: usize },
}

/// What scanning an archive whose first module entry is at `index` gives, for an entry of
/// `uncompressed_size` bytes.
pub open spec fn module_outcome(index: int, uncompressed_size: u64, should_return_wasm: bool) -> Result<
    ModuleEntry,
    BundleError,
> {
    if uncompressed_size > MAX_BUNDLE_SIZE {
        Err(BundleError::FileTooLarge)
    } else if !should_return_wasm {
        Ok(ModuleEntry::Present)
    } else {
        Ok(ModuleEntry::Read { index: index as usize, size: uncompressed_size as usize })
    }
}

/// Whether entry `i` of `entries` (name and uncompressed size) is the first entry named
/// "module.wasm".
pub open spec fn first_module_entry(entries: Seq<(String, u64)>, i: int) -> bool {
    &&& 0 <= i < entries.len()
    &&& entries[i].0@ == module_entry_name()
    &&& forall|j: int| 0 <= j < i ==> (#[trigger] entries[j]).0@ != module_entry_name()
}

/// Scans the entries of a bundle archive (name and uncompressed size, in order) for the module:
/// the first entry named "module.wasm" decides (see [`decide_entry`]); an archive without one
/// fails with [`BundleError::InvalidZip`].
pub fn scan_entries(entries: &Vec<(String, u64)>, should_return_wasm: bool) -> (found: Result<
    ModuleEntry,
    BundleError,
>)
    ensures
        (forall|i: int| 0 <= i < entries@.len() ==> (#[trigger] entries@[i]).0@ != module_entry_name())
            ==> (found matches Err(BundleError::InvalidZip)),
        forall|i: int|
            first_module_entry(entries@, i) ==> found == module_outcome(
                i,
                #[trigger] entries@[i].1,
                should_return_wasm,
            ),
{
    let mut i: usize = 0;
    while i < entries.len()
        invariant
            0 <= i <= entries@.len(),
            forall|j: int| 0 <= j < i ==> (#[trigger] entries@[j]).0@ != module_entry_name(),
        decreases entries@.len() - i,
    {
        let decision = decide_entry(entries[i].0.as_str(), entries[i].1, should_return_wasm);
        proof {
            assert(first_module_entry(entries@, i as int) || entries@[i as int].0@
                != module_entry_name());
        }
        match decision {
            EntryDecision::Skip => {},
            EntryDecision::TooLarge => {
                return Err(BundleError::FileTooLarge);
            },
            EntryDecision::Present => {
                return Ok(ModuleEntry::Present);
            },
            EntryDecision::Read { size } => {
                return Ok(ModuleEntry::Read { index: i, size });
            },
        }
        i = i + 1;
    }
    Err(BundleError::InvalidZip)
}

/// The end of loading a bundle from an archive whose module entry was found as `found`: nothing
/// where the module was only looked for, otherwise the bundle of `config` and the `module` bytes
/// read from the entry.
pub fn bundle_from_archive(config: ProjectConfigFile, found: ModuleEntry, module: Vec<u8>) -> (loaded:
    Result<Option<Bundle>, BundleError>)
    ensures
        found == ModuleEntry::Present ==> loaded matches Ok(None),
        found is Read ==> (loaded matches Ok(Some(b)) && b.spec_config() == config && b.spec_wasm()
            == module@),
{
    match found {
        ModuleEntry::Present => Ok(None),
        ModuleEntry::Read { .. } => match Bundle::from_wasm_bytes(config, module) {
            Ok(bundle) => Ok(Some(bundle)),
            Err(_) => Err(BundleError::InvalidZip),
        },
    }
}

/// The result of loading the bundle of an app: a missing file means the app has no bundle, other
/// errors are passed on.
pub fn load_result(loaded: Result<Bundle, BundleError>) -> (result: Result<Option<Bundle>, BundleError>)
    ensures
        match loaded {
            Ok(b) => result == Ok::<Option<Bundle>, BundleError>(Some(b)),
            Err(BundleError::FileNotFound) => result == Ok::<Option<Bundle>, BundleError>(None),
            Err(e) => result == Err::<Option<Bundle>, BundleError>(e),
        },
{
    match loaded {
        Ok(bundle) => Ok(Some(bundle)),
        Err(BundleError::FileNotFound) => Ok(None),
        Err(e) => Err(e),
    }
}

} // verus!
