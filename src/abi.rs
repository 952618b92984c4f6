//! The guest ABI: export names, version cells and construction errors.

use vstd::prelude::*;
use crate::room_id::same_text;

verus! {

/// Namespace of the host's imports.
pub const ENV: &'static str = "env";
/// The guest's linear memory.
pub const EXT_MEMORY: &'static str = "memory";
pub const EXT_FN_CONNECT: &'static str = "connect";
pub const EXT_FN_DISCONNECT: &'static str = "disconnect";
pub const EXT_FN_BINARY: &'static str = "binary";
pub const EXT_FN_MESSAGE: &'static str = "message";
pub const EXT_FN_SEND_MESSAGE: &'static str = "send_message";
pub const EXT_FN_SEND_BINARY: &'static str = "send_binary";
pub const EXT_FN_SET_TIMER: &'static str = "set_timer";
pub const EXT_FN_TIMER: &'static str = "timer";
pub const EXT_FN_INITIALIZE: &'static str = "initialize";
pub const EXT_FN_MALLOC: &'static str = "jam_malloc";
pub const EXT_FN_FREE: &'static str = "jam_free";
/// Global holding the address of the ABI version cell.
pub const EXT_JAMSOCKET_VERSION: &'static str = "JAMSOCKET_API_VERSION";
/// Global holding the address of the protocol version cell.
pub const EXT_JAMSOCKET_PROTOCOL: &'static str = "JAMSOCKET_API_PROTOCOL";

/// Namespace of the standard I/O shim.
pub const WASI: &'static str = "wasi_snapshot_preview1";
pub const WASI_FD_WRITE: &'static str = "fd_write";
pub const WASI_FD_READ: &'static str = "fd_read";
pub const WASI_FD_SEEK: &'static str = "fd_seek";
pub const WASI_FD_CLOSE: &'static str = "fd_close";
pub const WASI_FD_FDSTAT_GET: &'static str = "fd_fdstat_get";
pub const WASI_PROC_EXIT: &'static str = "proc_exit";

/// Whether a guest may import `module`.`name`: the host's three functions
/// under `env`, or a standard I/O function of the shim.
pub open spec fn import_allowed(module: Seq<char>, name: Seq<char>) -> bool {
    (module == ENV@ && (name == EXT_FN_SEND_MESSAGE@ || name == EXT_FN_SEND_BINARY@
        || name == EXT_FN_SET_TIMER@)) || (module == WASI@ && (name == WASI_FD_WRITE@
        || name == WASI_FD_READ@ || name == WASI_FD_SEEK@ || name == WASI_FD_CLOSE@
        || name == WASI_FD_FDSTAT_GET@ || name == WASI_PROC_EXIT@))
}

/// Checks one import of a guest module against the host's capability set;
/// any other import makes the module `InvalidModule`.
pub fn check_import(module: &str, name: &str) -> (r: Result<(), SpawnError>)
    ensures
        r is Ok <==> import_allowed(module@, name@),
        r is Err ==> r->Err_0 == SpawnError::InvalidModule,
{
    proof {
        reveal_strlit("env");
        reveal_strlit("wasi_snapshot_preview1");
        assert(ENV@.len() != WASI@.len());
    }
    let allowed = if same_text(module, ENV) {
        same_text(name, EXT_FN_SEND_MESSAGE) || same_text(name, EXT_FN_SEND_BINARY)
            || same_text(name, EXT_FN_SET_TIMER)
    } else if same_text(module, WASI) {
        same_text(name, WASI_FD_WRITE) || same_text(name, WASI_FD_READ) || same_text(name, WASI_FD_SEEK)
            || same_text(name, WASI_FD_CLOSE) || same_text(name, WASI_FD_FDSTAT_GET)
            || same_text(name, WASI_PROC_EXIT)
    } else {
        false
    };
    if allowed {
        Ok(())
    } else {
        Err(SpawnError::InvalidModule)
    }
}

/// The ABI version this host speaks.
pub const EXPECTED_API_VERSION: i32 = 1;
/// The protocol version this host speaks.
pub const EXPECTED_PROTOCOL_VERSION: i32 = 0;

/// Which version cell disagreed with the host.
#[derive(Clone, Copy, Debug, PartialEq, Eq, Structural)]
pub enum VersionField {
    Api,
    Protocol,
}

/// Why a guest instance could not be built.
#[derive(Clone, Debug, PartialEq, Eq)]
pub enum SpawnError {
    InvalidModule,
    MissingImport { name: String },
    MissingExport { name: String },
    VersionMismatch { field: VersionField, expected: i32, found: i32 },
    InitializeTrapped,
    CouldNotImportMemory,
    CouldNotImportGlobal,
}

/// The unsigned value of four bytes, least significant first.
pub open spec fn le_u32_value(b0: u8, b1: u8, b2: u8, b3: u8) -> int {
    b0 as int + 256 * (b1 as int) + 65536 * (b2 as int) + 16777216 * (b3 as int)
}

/// The two's-complement value of four bytes, least significant first.
pub open spec fn le_i32_value(b: Seq<u8>) -> int
    recommends
        b.len() == 4,
{
    let u = le_u32_value(b[0], b[1], b[2], b[3]);
    if u < 0x8000_0000 {
        u
    } else {
        u - 0x1_0000_0000
    }
}

/// The little-endian `i32` stored at `addr` in `memory`, when the four bytes
/// lie inside it.
pub open spec fn cell_at(memory: Seq<u8>, addr: int) -> Option<int> {
    if 0 <= addr && addr + 4 <= memory.len() {
        Some(le_i32_value(memory.subrange(addr, addr + 4)))
    } else {
        None
    }
}

/// Reads the little-endian `i32` at `addr`; `None` when it would run past the
/// end of `memory`.
pub fn read_i32_le(memory: &[u8], addr: usize) -> (r: Option<i32>)
    ensures
        r is Some <==> cell_at(memory@, addr as int) is Some,
        r is Some ==> r->Some_0 as int == cell_at(memory@, addr as int)->Some_0,
{
    if addr > memory.len() || memory.len() - addr < 4 {
        return None;
    }
    let b0 = memory[addr];
    let b1 = memory[addr + 1];
    let b2 = memory[addr + 2];
    let b3 = memory[addr + 3];
    let u: u32 = b0 as u32 + 256 * (b1 as u32) + 65536 * (b2 as u32) + 16777216 * (b3 as u32);
    let v: i32 = if u < 0x8000_0000 {
        u as i32
    } else {
        (u - 0x8000_0000) as i32 + i32::MIN
    };
    proof {
        let s = memory@.subrange(addr as int, addr as int + 4);
        assert(s[0] == b0 && s[1] == b1 && s[2] == b2 && s[3] == b3);
    }
    Some(v)
}

/// What looking up a version global in the guest's exports found.
#[derive(Clone, Copy, Debug, PartialEq, Eq, Structural)]
pub enum GlobalLookup {
    /// The guest exports no global of that name.
    Missing,
    /// The export exists but is not an `i32` global.
    NotI32,
    /// The global's `i32` value: the address of the version cell.
    I32(i32),
}

/// Reads a version cell through the global named `name`. The global holds
/// the address (an `i32`, read as unsigned) of a little-endian `i32` cell in
/// guest memory. A missing global is `MissingExport { name }`; a global that
/// is not an `i32`, or a cell past the end of memory, is `CouldNotImportGlobal`.
pub fn get_global(memory: &[u8], name: &str, global: GlobalLookup) -> (r: Result<i32, SpawnError>)
    ensures
        global is Missing ==> r is Err && (r->Err_0 matches SpawnError::MissingExport { name: n } && n@ == name@),
        global is NotI32 ==> r == Err::<i32, SpawnError>(SpawnError::CouldNotImportGlobal),
        global is I32 ==> match cell_at(memory@, global->I32_0 as u32 as int) {
            Some(v) => r is Ok && r->Ok_0 as int == v,
            None => r == Err::<i32, SpawnError>(SpawnError::CouldNotImportGlobal),
        },
{
    match global {
        GlobalLookup::Missing => Err(SpawnError::MissingExport { name: name.to_owned() }),
        GlobalLookup::NotI32 => Err(SpawnError::CouldNotImportGlobal),
        GlobalLookup::I32(p) => match read_i32_le(memory, p as u32 as usize) {
            Some(v) => Ok(v),
            None => Err(SpawnError::CouldNotImportGlobal),
        },
    }
}

/// Evidence that a guest's version cells matched this host's.
pub struct VersionsChecked {
    api: i32,
    protocol: i32,
}

impl VersionsChecked {
    pub closed spec fn wf(self) -> bool {
        self.api == EXPECTED_API_VERSION && self.protocol == EXPECTED_PROTOCOL_VERSION
    }
}

/// The outcome of comparing the two version cells with the host's, the ABI
/// version first.
pub open spec fn version_verdict(api: i32, protocol: i32) -> Option<SpawnError> {
    if api != EXPECTED_API_VERSION {
        Some(
            SpawnError::VersionMismatch {
                field: VersionField::Api,
                expected: EXPECTED_API_VERSION,
                found: api,
            },
        )
    } else if protocol != EXPECTED_PROTOCOL_VERSION {
        Some(
            SpawnError::VersionMismatch {
                field: VersionField::Protocol,
                expected: EXPECTED_PROTOCOL_VERSION,
                found: protocol,
            },
        )
    } else {
        None
    }
}

/// Compares the version cells with the host's. Only a match yields the
/// evidence that building an instance needs.
pub fn check_versions(api: i32, protocol: i32) -> (r: Result<VersionsChecked, SpawnError>)
    ensures
        r is Ok <==> version_verdict(api, protocol) is None,
        r is Ok ==> r->Ok_0.wf(),
        r is Err ==> version_verdict(api, protocol) == Some(r->Err_0),
{
    if api != EXPECTED_API_VERSION {
        Err(
            SpawnError::VersionMismatch {
                field: VersionField::Api,
                expected: EXPECTED_API_VERSION,
                found: api,
            },
        )
    } else if protocol != EXPECTED_PROTOCOL_VERSION {
        Err(
            SpawnError::VersionMismatch {
                field: VersionField::Protocol,
                expected: EXPECTED_PROTOCOL_VERSION,
                found: protocol,
            },
        )
    } else {
        Ok(VersionsChecked { api, protocol })
    }
}

/// A guest whose ABI version cell holds anything but the host's version is
/// refused with a `VersionMismatch` on the ABI field, whatever its protocol
/// version; no instance record, and so no event call, can follow.
pub proof fn lemma_version_gate(api: i32, protocol: i32)
    requires
        api != EXPECTED_API_VERSION,
    ensures
        version_verdict(api, protocol) == Some(
            SpawnError::VersionMismatch {
                field: VersionField::Api,
                expected: EXPECTED_API_VERSION,
                found: api,
            },
        ),
{
}

impl VersionField {
    /// The field's name in diagnostics: `"api"` or `"protocol"`.
    pub fn name(&self) -> (r: &'static str)
        ensures
            *self == VersionField::Api ==> r@ == "api"@,
            *self == VersionField::Protocol ==> r@ == "protocol"@,
    {
        match self {
            VersionField::Api => "api",
            VersionField::Protocol => "protocol",
        }
    }
}

} // verus!
