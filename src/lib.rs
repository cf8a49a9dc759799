//! Client-side access layer for the corosync cluster services: the cmap
//! configuration and statistics store, cpg process groups and quorum.
//!
//! The library holds everything that decides: key and group name validation,
//! the tagged value codec, the probe-and-retry read, the enumeration cursors,
//! the process-wide session and tracker registries and the bridges that turn
//! native event payloads into owned events. Each operation that talks to the
//! daemon is split into a request (built here, from plain values) and a
//! completion (taking the daemon's status code and outputs as plain values).
use vstd::prelude::*;

pub mod cmap;
pub mod codec;
pub mod cpg;
pub mod cursor;
pub mod quorum;
pub mod registry;

verus! {

use vstd::utf8::valid_utf8;
use vstd::utf8::decode_utf8;

/// Status code the daemon returns on success.
pub const CS_OK: u32 = 1;

/// Status code that ends an enumeration.
pub const CS_ERR_NO_SECTIONS: u32 = 27;

/// Error codes returned from the corosync libraries.
#[derive(Debug, Copy, Clone, PartialEq, Eq, Structural)]
pub enum CsError {
    CsOk,
    CsErrLibrary,
    CsErrVersion,
    CsErrInit,
    CsErrTimeout,
    CsErrTryAgain,
    CsErrInvalidParam,
    CsErrNoMemory,
    CsErrBadHandle,
    CsErrBusy,
    CsErrAccess,
    CsErrNotExist,
    CsErrNameTooLong,
    CsErrExist,
    CsErrNoSpace,
    CsErrInterrupt,
    CsErrNameNotFound,
    CsErrNoResources,
    CsErrNotSupported,
    CsErrBadOperation,
    CsErrFailedOperation,
    CsErrMessageError,
    CsErrQueueFull,
    CsErrQueueNotAvailable,
    CsErrBadFlags,
    CsErrTooBig,
    CsErrNoSection,
    CsErrContextNotFound,
    CsErrTooManyGroups,
    CsErrSecurity,
    /// The daemon returned a code this client does not know.
    CsErrRustCompat,
    /// A string failed UTF-8 validation.
    CsErrRustString,
}

/// Result type returned from most calls: a value or a [CsError].
pub type Result<T> = core::result::Result<T, CsError>;

impl CsError {
    /// The numeric code of each error, as the C library numbers them.
    pub open spec fn spec_code(self) -> u32 {
        match self {
            CsError::CsOk => 1,
            CsError::CsErrLibrary => 2,
            CsError::CsErrVersion => 3,
            CsError::CsErrInit => 4,
            CsError::CsErrTimeout => 5,
            CsError::CsErrTryAgain => 6,
            CsError::CsErrInvalidParam => 7,
            CsError::CsErrNoMemory => 8,
            CsError::CsErrBadHandle => 9,
            CsError::CsErrBusy => 10,
            CsError::CsErrAccess => 11,
            CsError::CsErrNotExist => 12,
            CsError::CsErrNameTooLong => 13,
            CsError::CsErrExist => 14,
            CsError::CsErrNoSpace => 15,
            CsError::CsErrInterrupt => 16,
            CsError::CsErrNameNotFound => 17,
            CsError::CsErrNoResources => 18,
            CsError::CsErrNotSupported => 19,
            CsError::CsErrBadOperation => 20,
            CsError::CsErrFailedOperation => 21,
            CsError::CsErrMessageError => 22,
            CsError::CsErrQueueFull => 23,
            CsError::CsErrQueueNotAvailable => 24,
            CsError::CsErrBadFlags => 25,
            CsError::CsErrTooBig => 26,
            CsError::CsErrNoSection => 27,
            CsError::CsErrContextNotFound => 28,
            CsError::CsErrTooManyGroups => 30,
            CsError::CsErrSecurity => 100,
            CsError::CsErrRustCompat => 998,
            CsError::CsErrRustString => 999,
        }
    }

    /// The numeric code of this error.
    pub fn code(&self) -> (r: u32)
        ensures
            r == self.spec_code(),
    {
        match self {
            CsError::CsOk => 1,
            CsError::CsErrLibrary => 2,
            CsError::CsErrVersion => 3,
            CsError::CsErrInit => 4,
            CsError::CsErrTimeout => 5,
            CsError::CsErrTryAgain => 6,
            CsError::CsErrInvalidParam => 7,
            CsError::CsErrNoMemory => 8,
            CsError::CsErrBadHandle => 9,
            CsError::CsErrBusy => 10,
            CsError::CsErrAccess => 11,
            CsError::CsErrNotExist => 12,
            CsError::CsErrNameTooLong => 13,
            CsError::CsErrExist => 14,
            CsError::CsErrNoSpace => 15,
            CsError::CsErrInterrupt => 16,
            CsError::CsErrNameNotFound => 17,
            CsError::CsErrNoResources => 18,
            CsError::CsErrNotSupported => 19,
            CsError::CsErrBadOperation => 20,
            CsError::CsErrFailedOperation => 21,
            CsError::CsErrMessageError => 22,
            CsError::CsErrQueueFull => 23,
            CsError::CsErrQueueNotAvailable => 24,
            CsError::CsErrBadFlags => 25,
            CsError::CsErrTooBig => 26,
            CsError::CsErrNoSection => 27,
            CsError::CsErrContextNotFound => 28,
            CsError::CsErrTooManyGroups => 30,
            CsError::CsErrSecurity => 100,
            CsError::CsErrRustCompat => 998,
            CsError::CsErrRustString => 999,
        }
    }

    /// The printable name of the error.
    pub open spec fn spec_name(self) -> &'static str {
        match self {
            CsError::CsOk => "OK",
            CsError::CsErrLibrary => "ErrLibrary",
            CsError::CsErrVersion => "ErrVersion",
            CsError::CsErrInit => "ErrInit",
            CsError::CsErrTimeout => "ErrTimeout",
            CsError::CsErrTryAgain => "ErrTryAgain",
            CsError::CsErrInvalidParam => "ErrInvalidParam",
            CsError::CsErrNoMemory => "ErrNoMemory",
            CsError::CsErrBadHandle => "ErrbadHandle",
            CsError::CsErrBusy => "ErrBusy",
            CsError::CsErrAccess => "ErrAccess",
            CsError::CsErrNotExist => "ErrNotExist",
            CsError::CsErrNameTooLong => "ErrNameTooLong",
            CsError::CsErrExist => "ErrExist",
            CsError::CsErrNoSpace => "ErrNoSpace",
            CsError::CsErrInterrupt => "ErrInterrupt",
            CsError::CsErrNameNotFound => "ErrNameNotFound",
            CsError::CsErrNoResources => "ErrNoResources",
            CsError::CsErrNotSupported => "ErrNotSupported",
            CsError::CsErrBadOperation => "ErrBadOperation",
            CsError::CsErrFailedOperation => "ErrFailedOperation",
            CsError::CsErrMessageError => "ErrMEssageError",
            CsError::CsErrQueueFull => "ErrQueueFull",
            CsError::CsErrQueueNotAvailable => "ErrQueueNotAvailable",
            CsError::CsErrBadFlags => "ErrBadFlags",
            CsError::CsErrTooBig => "ErrTooBig",
            CsError::CsErrNoSection => "ErrNoSection",
            CsError::CsErrContextNotFound => "ErrContextNotFound",
            CsError::CsErrTooManyGroups => "ErrTooManyGroups",
            CsError::CsErrSecurity => "ErrSecurity",
            CsError::CsErrRustCompat => "ErrRustCompat",
            CsError::CsErrRustString => "ErrRustString",
        }
    }

    /// The printable name of the error.
    pub fn name(&self) -> (r: &'static str)
        ensures
            r == self.spec_name(),
    {
        match self {
            CsError::CsOk => "OK",
            CsError::CsErrLibrary => "ErrLibrary",
            CsError::CsErrVersion => "ErrVersion",
            CsError::CsErrInit => "ErrInit",
            CsError::CsErrTimeout => "ErrTimeout",
            CsError::CsErrTryAgain => "ErrTryAgain",
            CsError::CsErrInvalidParam => "ErrInvalidParam",
            CsError::CsErrNoMemory => "ErrNoMemory",
            CsError::CsErrBadHandle => "ErrbadHandle",
            CsError::CsErrBusy => "ErrBusy",
            CsError::CsErrAccess => "ErrAccess",
            CsError::CsErrNotExist => "ErrNotExist",
            CsError::CsErrNameTooLong => "ErrNameTooLong",
            CsError::CsErrExist => "ErrExist",
            CsError::CsErrNoSpace => "ErrNoSpace",
            CsError::CsErrInterrupt => "ErrInterrupt",
            CsError::CsErrNameNotFound => "ErrNameNotFound",
            CsError::CsErrNoResources => "ErrNoResources",
            CsError::CsErrNotSupported => "ErrNotSupported",
            CsError::CsErrBadOperation => "ErrBadOperation",
            CsError::CsErrFailedOperation => "ErrFailedOperation",
            CsError::CsErrMessageError => "ErrMEssageError",
            CsError::CsErrQueueFull => "ErrQueueFull",
            CsError::CsErrQueueNotAvailable => "ErrQueueNotAvailable",
            CsError::CsErrBadFlags => "ErrBadFlags",
            CsError::CsErrTooBig => "ErrTooBig",
            CsError::CsErrNoSection => "ErrNoSection",
            CsError::CsErrContextNotFound => "ErrContextNotFound",
            CsError::CsErrTooManyGroups => "ErrTooManyGroups",
            CsError::CsErrSecurity => "ErrSecurity",
            CsError::CsErrRustCompat => "ErrRustCompat",
            CsError::CsErrRustString => "ErrRustString",
        }
    }

    /// Converts a C status code into the error it names; a code that no error
    /// carries becomes [CsError::CsErrRustCompat].
    pub fn from_c(cserr: u32) -> (r: CsError)
        ensures
            r == error_of(cserr),
    {
        match cserr {
            1 => CsError::CsOk,
            2 => CsError::CsErrLibrary,
            3 => CsError::CsErrVersion,
            4 => CsError::CsErrInit,
            5 => CsError::CsErrTimeout,
            6 => CsError::CsErrTryAgain,
            7 => CsError::CsErrInvalidParam,
            8 => CsError::CsErrNoMemory,
            9 => CsError::CsErrBadHandle,
            10 => CsError::CsErrBusy,
            11 => CsError::CsErrAccess,
            12 => CsError::CsErrNotExist,
            13 => CsError::CsErrNameTooLong,
            14 => CsError::CsErrExist,
            15 => CsError::CsErrNoSpace,
            16 => CsError::CsErrInterrupt,
            17 => CsError::CsErrNameNotFound,
            18 => CsError::CsErrNoResources,
            19 => CsError::CsErrNotSupported,
            20 => CsError::CsErrBadOperation,
            21 => CsError::CsErrFailedOperation,
            22 => CsError::CsErrMessageError,
            23 => CsError::CsErrQueueFull,
            24 => CsError::CsErrQueueNotAvailable,
            25 => CsError::CsErrBadFlags,
            26 => CsError::CsErrTooBig,
            27 => CsError::CsErrNoSection,
            28 => CsError::CsErrContextNotFound,
            30 => CsError::CsErrTooManyGroups,
            100 => CsError::CsErrSecurity,
            999 => CsError::CsErrRustString,
            _ => CsError::CsErrRustCompat,
        }
    }
}

/// Whether some error carries the code `c`.
pub open spec fn is_known_code(c: u32) -> bool {
    (1 <= c <= 28) || c == 30 || c == 100 || c == 998 || c == 999
}

/// The error that a status code names: the one whose code it is, or
/// [CsError::CsErrRustCompat] for an unknown code.
pub open spec fn error_of(c: u32) -> CsError {
    match c {
        1 => CsError::CsOk,
        2 => CsError::CsErrLibrary,
        3 => CsError::CsErrVersion,
        4 => CsError::CsErrInit,
        5 => CsError::CsErrTimeout,
        6 => CsError::CsErrTryAgain,
        7 => CsError::CsErrInvalidParam,
        8 => CsError::CsErrNoMemory,
        9 => CsError::CsErrBadHandle,
        10 => CsError::CsErrBusy,
        11 => CsError::CsErrAccess,
        12 => CsError::CsErrNotExist,
        13 => CsError::CsErrNameTooLong,
        14 => CsError::CsErrExist,
        15 => CsError::CsErrNoSpace,
        16 => CsError::CsErrInterrupt,
        17 => CsError::CsErrNameNotFound,
        18 => CsError::CsErrNoResources,
        19 => CsError::CsErrNotSupported,
        20 => CsError::CsErrBadOperation,
        21 => CsError::CsErrFailedOperation,
        22 => CsError::CsErrMessageError,
        23 => CsError::CsErrQueueFull,
        24 => CsError::CsErrQueueNotAvailable,
        25 => CsError::CsErrBadFlags,
        26 => CsError::CsErrTooBig,
        27 => CsError::CsErrNoSection,
        28 => CsError::CsErrContextNotFound,
        30 => CsError::CsErrTooManyGroups,
        100 => CsError::CsErrSecurity,
        999 => CsError::CsErrRustString,
        _ => CsError::CsErrRustCompat,
    }
}

/// The outcome of a daemon call that returns only a status code.
pub open spec fn status_result(res: u32) -> Result<()> {
    if res == CS_OK {
        Ok(())
    } else {
        Err(error_of(res))
    }
}

/// Turns a daemon status code into `Ok(())` on success and the error it
/// names otherwise.
pub fn check_status(res: u32) -> (r: Result<()>)
    ensures
        r == status_result(res),
{
    if res == CS_OK {
        Ok(())
    } else {
        Err(CsError::from_c(res))
    }
}

/// The outcome of a daemon call that also fills in a value: the value on
/// success, else the error that `res` names.
pub fn with_status<T>(res: u32, value: T) -> (r: Result<T>)
    ensures
        res == CS_OK ==> r == Ok::<T, CsError>(value),
        res != CS_OK ==> r == Err::<T, CsError>(error_of(res)),
{
    if res == CS_OK {
        Ok(value)
    } else {
        Err(CsError::from_c(res))
    }
}

/// Flags for the dispatch calls: how many callbacks to deliver before
/// returning.
#[derive(Debug, Copy, Clone, PartialEq, Eq, Structural)]
pub enum DispatchFlags {
    /// Deliver one callback, blocking until one is available.
    One,
    /// Deliver every callback that is available.
    All,
    /// Like `All`, but block between callbacks.
    Blocking,
    /// Deliver one callback if one is available, else return at once.
    OneNonblocking,
}

impl DispatchFlags {
    /// The value the C library expects.
    pub fn to_c(&self) -> (r: u32)
        ensures
            r == match self {
                DispatchFlags::One => 1u32,
                DispatchFlags::All => 2u32,
                DispatchFlags::Blocking => 3u32,
                DispatchFlags::OneNonblocking => 4u32,
            },
    {
        match self {
            DispatchFlags::One => 1,
            DispatchFlags::All => 2,
            DispatchFlags::Blocking => 3,
            DispatchFlags::OneNonblocking => 4,
        }
    }
}

/// Flags for the tracking calls.
#[derive(Debug, Copy, Clone, PartialEq, Eq, Structural)]
pub enum TrackFlags {
    Current,
    Changes,
    ChangesOnly,
}

impl TrackFlags {
    /// The value the C library expects.
    pub fn to_c(&self) -> (r: u32)
        ensures
            r == match self {
                TrackFlags::Current => 1u32,
                TrackFlags::Changes => 2u32,
                TrackFlags::ChangesOnly => 4u32,
            },
    {
        match self {
            TrackFlags::Current => 1,
            TrackFlags::Changes => 2,
            TrackFlags::ChangesOnly => 4,
        }
    }
}

/// A corosync node id.
#[derive(Debug, Copy, Clone, PartialEq, Eq, Structural)]
pub struct NodeId {
    id: u32,
}

impl NodeId {
    pub closed spec fn spec_id(self) -> u32 {
        self.id
    }
}

impl From<u32> for NodeId {
    fn from(id: u32) -> (r: NodeId) {
        NodeId { id }
    }
}

impl vstd::std_specs::convert::FromSpecImpl<u32> for NodeId {
    open spec fn obeys_from_spec() -> bool {
        true
    }

    closed spec fn from_spec(id: u32) -> NodeId {
        NodeId { id }
    }
}

impl From<NodeId> for u32 {
    fn from(nodeid: NodeId) -> (r: u32) {
        nodeid.id
    }
}

impl vstd::std_specs::convert::FromSpecImpl<NodeId> for u32 {
    open spec fn obeys_from_spec() -> bool {
        true
    }

    closed spec fn from_spec(nodeid: NodeId) -> u32 {
        nodeid.id
    }
}

/// Builds the [NodeId] for a raw id.
pub fn node_id(id: u32) -> (r: NodeId)
    ensures
        r.spec_id() == id,
{
    NodeId { id }
}

/// `k` is the length of the C string at the start of `b` when at most
/// `limit` bytes may be read: the bytes before `k` are not NUL, and `k` is
/// either the limit or the place of a NUL.
pub open spec fn is_c_str_len(b: Seq<u8>, limit: int, k: int) -> bool {
    &&& 0 <= k <= limit
    &&& forall|j: int| 0 <= j < k ==> b[j] != 0
    &&& k < limit ==> b[k] == 0
}

/// The length of the C string at the start of `b`, reading at most `max`
/// bytes (and never past the end of `b`).
pub open spec fn c_str_len(b: Seq<u8>, max: nat) -> int {
    let limit = if max < b.len() { max as int } else { b.len() as int };
    choose|k: int| is_c_str_len(b, limit, k)
}

/// The text of a bounded C string: its bytes up to the first NUL, decoded
/// as UTF-8, or [CsError::CsErrRustString] where they are not UTF-8.
pub open spec fn c_str_text(b: Seq<u8>, max: nat) -> Result<Seq<char>> {
    let t = b.take(c_str_len(b, max));
    if valid_utf8(t) {
        Ok(decode_utf8(t))
    } else {
        Err(CsError::CsErrRustString)
    }
}

/// There is exactly one C string length.
pub proof fn lemma_c_str_len_unique(b: Seq<u8>, limit: int, k: int)
    requires
        0 <= limit <= b.len(),
        is_c_str_len(b, limit, k),
    ensures
        (choose|k2: int| is_c_str_len(b, limit, k2)) == k,
{
    let k2 = choose|k2: int| is_c_str_len(b, limit, k2);
    assert(is_c_str_len(b, limit, k2));
    if k2 < k {
        assert(b[k2] != 0);
    } else if k < k2 {
        assert(b[k] != 0);
    }
}

/// Copies a NUL-terminated string of at most `max_length` bytes out of a
/// native buffer.
pub fn string_from_bytes(bytes: &[u8], max_length: usize) -> (r: Result<String>)
    ensures
        match (r, c_str_text(bytes@, max_length as nat)) {
            (Ok(s), Ok(t)) => s@ == t,
            (Err(e), Err(f)) => e == f,
            _ => false,
        },
{
    let limit: usize = if max_length < bytes.len() { max_length } else { bytes.len() };
    let mut k: usize = 0;
    while k < limit && bytes[k] != 0
        invariant
            limit <= bytes@.len(),
            k <= limit,
            forall|j: int| 0 <= j < k ==> bytes@[j] != 0,
        decreases limit - k,
    {
        k = k + 1;
    }
    proof {
        lemma_c_str_len_unique(bytes@, limit as int, k as int);
    }
    let mut text: Vec<u8> = Vec::new();
    let mut i: usize = 0;
    while i < k
        invariant
            k <= bytes@.len(),
            i <= k,
            text@ == bytes@.take(i as int),
        decreases k - i,
    {
        text.push(bytes[i]);
        i = i + 1;
        proof {
            assert(text@ =~= bytes@.take(i as int));
        }
    }
    proof {
        assert(text@ =~= bytes@.take(k as int));
    }
    match utf8_string(text) {
        Some(s) => Ok(s),
        None => Err(CsError::CsErrRustString),
    }
}

/// Relies on `String::from_utf8`: it succeeds exactly when the bytes are
/// valid UTF-8, and the string then holds the characters they encode.
#[verifier::external_body]
pub(crate) fn utf8_string(bytes: Vec<u8>) -> (r: Option<String>)
    ensures
        r.is_some() == valid_utf8(bytes@),
        r.is_some() ==> r->Some_0@ == decode_utf8(bytes@),
{
    String::from_utf8(bytes).ok()
}

} // verus!
