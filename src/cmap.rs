//! The cmap store: a non-replicated key/value database of configuration and
//! statistics, with change tracking.
//!
//! Each call that reaches the daemon is split in two here: a function that
//! validates and builds what is sent, and one that takes the daemon's
//! status code and outputs and decides what the caller gets.
use vstd::prelude::*;

verus! {

use vstd::utf8::encode_utf8;
use crate::codec::{ByteOrder, Data, DataType, DataView, Encoded, c_string_bytes, decode, decoded, encode, encodable, is_encoding_of, type_of};
use crate::cursor::{CursorPhase, end_phase, is_open_phase, phase_open};
use crate::registry::Registry;
use crate::{CsError, Result, CS_OK, CS_ERR_NO_SECTIONS, error_of, status_result};

/// Names must be shorter than this many bytes.
pub const CMAP_KEYNAME_MAXLENGTH: usize = 255;

/// The size of the buffer that a read offers first.
pub const INITIAL_SIZE: usize = 256;

/// The "maps" that a session can open.
#[derive(Debug, Copy, Clone, PartialEq, Eq, Structural)]
pub enum MapKind {
    /// The configuration and runtime map.
    Icmap,
    /// The statistics map.
    Stats,
}

impl MapKind {
    /// The value the C library expects.
    pub fn to_c(&self) -> (r: u32)
        ensures
            r == match self {
                MapKind::Icmap => 0u32,
                MapKind::Stats => 1u32,
            },
    {
        match self {
            MapKind::Icmap => 0,
            MapKind::Stats => 1,
        }
    }
}

/// Bit of [TrackType]: a key was deleted.
pub const TRACK_DELETE: i32 = 1;
/// Bit of [TrackType]: a key was modified.
pub const TRACK_MODIFY: i32 = 2;
/// Bit of [TrackType]: a key was added.
pub const TRACK_ADD: i32 = 4;
/// Bit of [TrackType]: track every key under a prefix.
pub const TRACK_PREFIX: i32 = 8;

/// The kinds of change a tracker follows, and the kind a notification
/// reports: a set of the `TRACK_` bits.
#[derive(Debug, Copy, Clone, PartialEq, Eq, Structural)]
pub struct TrackType {
    pub bits: i32,
}

impl TrackType {
    /// The set with exactly these bits.
    pub fn from_bits(bits: i32) -> (r: TrackType)
        ensures
            r.bits == bits,
    {
        TrackType { bits }
    }

    /// The bits of the set.
    pub fn bits(&self) -> (r: i32)
        ensures
            r == self.bits,
    {
        self.bits
    }

    /// Whether every bit of `other` is in this set.
    pub fn contains(&self, other: TrackType) -> (r: bool)
        ensures
            r == (self.bits & other.bits == other.bits),
    {
        self.bits & other.bits == other.bits
    }

    /// The union of two sets.
    pub fn union(&self, other: TrackType) -> (r: TrackType)
        ensures
            r.bits == self.bits | other.bits,
    {
        TrackType { bits: self.bits | other.bits }
    }
}

/// A session with the cmap service. Only the handle made by
/// [initialize] owns the session; its clones share the native id and
/// compare equal to it.
#[derive(Debug)]
pub struct Handle {
    cmap_handle: u64,
    clone: bool,
}

impl Handle {
    /// The native session id.
    pub closed spec fn spec_id(&self) -> u64 {
        self.cmap_handle
    }

    /// Whether this instance owns the session.
    pub closed spec fn spec_owns(&self) -> bool {
        !self.clone
    }

    /// The native session id.
    pub fn id(&self) -> (r: u64)
        ensures
            r == self.spec_id(),
    {
        self.cmap_handle
    }

    /// Whether this instance owns the session (and closes it when it goes).
    pub fn owns(&self) -> (r: bool)
        ensures
            r == self.spec_owns(),
    {
        !self.clone
    }
}

impl Clone for Handle {
    /// A clone shares the session but does not own it.
    fn clone(&self) -> (r: Handle)
        ensures
            r.spec_id() == self.spec_id(),
            !r.spec_owns(),
    {
        Handle { cmap_handle: self.cmap_handle, clone: true }
    }
}

impl PartialEq for Handle {
    fn eq(&self, other: &Handle) -> (r: bool) {
        self.cmap_handle == other.cmap_handle
    }
}

impl vstd::std_specs::cmp::PartialEqSpecImpl for Handle {
    open spec fn obeys_eq_spec() -> bool {
        true
    }

    open spec fn eq_spec(&self, other: &Handle) -> bool {
        self.spec_id() == other.spec_id()
    }
}

/// The table of open sessions, by native id.
pub type Sessions = Registry<Handle>;

/// Completes opening a session: on success the owning handle for
/// `native_handle` is returned and a clone of it is recorded in `sessions`;
/// otherwise the error that `res` names, and `sessions` is left alone.
pub fn initialize(sessions: &mut Sessions, res: u32, native_handle: u64) -> (r: Result<Handle>)
    ensures
        res == CS_OK ==> r is Ok && r->Ok_0.spec_id() == native_handle && r->Ok_0.spec_owns()
            && final(sessions)@.contains_key(native_handle)
            && final(sessions)@[native_handle].spec_id() == native_handle
            && !final(sessions)@[native_handle].spec_owns()
            && final(sessions)@.remove(native_handle) == old(sessions)@.remove(native_handle),
        res != CS_OK ==> r == Err::<Handle, CsError>(error_of(res)) && final(sessions)@ == old(
            sessions,
        )@,
{
    if res == CS_OK {
        let rhandle = Handle { cmap_handle: native_handle, clone: false };
        sessions.insert(native_handle, rhandle.clone());
        proof {
            assert(final(sessions)@.remove(native_handle) =~= old(sessions)@.remove(
                native_handle,
            ));
        }
        Ok(rhandle)
    } else {
        Err(CsError::from_c(res))
    }
}

/// Completes closing a session: on success its entry leaves `sessions`.
pub fn finalize(sessions: &mut Sessions, handle: &Handle, res: u32) -> (r: Result<()>)
    ensures
        r == status_result(res),
        res == CS_OK ==> final(sessions)@ == old(sessions)@.remove(handle.spec_id()),
        res != CS_OK ==> final(sessions)@ == old(sessions)@,
{
    let r = crate::check_status(res);
    if res == CS_OK {
        sessions.remove(handle.id());
    }
    r
}

/// Whether dropping `handle` must close its session: it owns the session
/// and the session is still open. Clones never close it, and a session that
/// was finalized is not closed twice.
pub fn closes_on_drop(sessions: &Sessions, handle: &Handle) -> (r: bool)
    ensures
        r == (handle.spec_owns() && sessions@.contains_key(handle.spec_id())),
{
    handle.owns() && sessions.contains(handle.id())
}

/// Whether `s` may be sent as a name whose limit is `maxlen` (no limit when
/// it is zero): shorter than the limit, in bytes, and without a NUL.
pub open spec fn name_ok(s: Seq<char>, maxlen: nat) -> bool {
    &&& !(maxlen > 0 && encode_utf8(s).len() >= maxlen)
    &&& !encode_utf8(s).contains(0u8)
}

/// Validates a name and gives its NUL-terminated bytes, or fails with
/// [CsError::CsErrInvalidParam] before anything is sent.
pub fn validated_name(key: &str, maxlen: usize) -> (r: Result<Vec<u8>>)
    ensures
        r is Ok <==> name_ok(key@, maxlen as nat),
        r is Ok ==> r->Ok_0@ == encode_utf8(key@).push(0u8),
        r is Err ==> r->Err_0 == CsError::CsErrInvalidParam,
{
    if maxlen > 0 && key.as_bytes().len() >= maxlen {
        return Err(CsError::CsErrInvalidParam);
    }
    match c_string_bytes(key) {
        Some(b) => Ok(b),
        None => Err(CsError::CsErrInvalidParam),
    }
}

/// What is sent to store a value under a key.
#[derive(Debug)]
pub struct SetRequest {
    /// The key, NUL-terminated.
    pub key: Vec<u8>,
    /// The value with its tag and declared length.
    pub value: Encoded,
}

/// Builds the request that stores `data` under `key_name`. An invalid name
/// fails first, then a value that cannot be written; both with
/// [CsError::CsErrInvalidParam].
pub fn set(key_name: &str, data: &Data, order: ByteOrder) -> (r: Result<SetRequest>)
    ensures
        r is Ok <==> name_ok(key_name@, CMAP_KEYNAME_MAXLENGTH as nat) && encodable(data@),
        r is Ok ==> r->Ok_0.key@ == encode_utf8(key_name@).push(0u8) && is_encoding_of(
            r->Ok_0.value,
            data@,
            order,
        ),
        r is Err ==> r->Err_0 == CsError::CsErrInvalidParam,
{
    let key = validated_name(key_name, CMAP_KEYNAME_MAXLENGTH)?;
    let value = encode(data, order)?;
    Ok(SetRequest { key, value })
}

/// A fixed-width integer that can be stored as a number.
pub trait Number: Copy {
    /// The value this number is stored as.
    spec fn spec_data(self) -> DataView;

    /// This number as a value.
    fn to_data(self) -> (d: Data)
        ensures
            d@ == self.spec_data(),
            type_of(d@).spec_is_numeric(),
    ;
}

impl Number for u8 {
    open spec fn spec_data(self) -> DataView {
        DataView::UInt8(self)
    }

    fn to_data(self) -> (d: Data) {
        Data::UInt8(self)
    }
}

impl Number for i8 {
    open spec fn spec_data(self) -> DataView {
        DataView::Int8(self)
    }

    fn to_data(self) -> (d: Data) {
        Data::Int8(self)
    }
}

impl Number for u16 {
    open spec fn spec_data(self) -> DataView {
        DataView::UInt16(self)
    }

    fn to_data(self) -> (d: Data) {
        Data::UInt16(self)
    }
}

impl Number for i16 {
    open spec fn spec_data(self) -> DataView {
        DataView::Int16(self)
    }

    fn to_data(self) -> (d: Data) {
        Data::Int16(self)
    }
}

impl Number for u32 {
    open spec fn spec_data(self) -> DataView {
        DataView::UInt32(self)
    }

    fn to_data(self) -> (d: Data) {
        Data::UInt32(self)
    }
}

impl Number for i32 {
    open spec fn spec_data(self) -> DataView {
        DataView::Int32(self)
    }

    fn to_data(self) -> (d: Data) {
        Data::Int32(self)
    }
}

impl Number for u64 {
    open spec fn spec_data(self) -> DataView {
        DataView::UInt64(self)
    }

    fn to_data(self) -> (d: Data) {
        Data::UInt64(self)
    }
}

impl Number for i64 {
    open spec fn spec_data(self) -> DataView {
        DataView::Int64(self)
    }

    fn to_data(self) -> (d: Data) {
        Data::Int64(self)
    }
}

/// The tag and byte width under which a number is stored.
pub fn generic_to_cmap<T: Number>(value: T) -> (r: (DataType, usize))
    ensures
        r.0 == type_of(value.spec_data()),
        r.1 as nat == type_of(value.spec_data()).spec_width(),
{
    let d = value.to_data();
    match d {
        Data::Int8(_) => (DataType::Int8, 1),
        Data::UInt8(_) => (DataType::UInt8, 1),
        Data::Int16(_) => (DataType::Int16, 2),
        Data::UInt16(_) => (DataType::UInt16, 2),
        Data::Int32(_) => (DataType::Int32, 4),
        Data::UInt32(_) => (DataType::UInt32, 4),
        Data::Int64(_) => (DataType::Int64, 8),
        Data::UInt64(_) => (DataType::UInt64, 8),
        Data::Float(_) => (DataType::Float, 4),
        Data::Double(_) => (DataType::Double, 8),
        Data::String(_) => (DataType::String, 0),
        Data::Binary(_) => (DataType::Binary, 0),
        Data::Unknown => (DataType::Unknown, 0),
    }
}

/// Builds the request that stores a number under `key_name`.
pub fn set_number<T: Number>(key_name: &str, value: T, order: ByteOrder) -> (r: Result<
    SetRequest,
>)
    ensures
        r is Ok <==> name_ok(key_name@, CMAP_KEYNAME_MAXLENGTH as nat),
        r is Ok ==> r->Ok_0.key@ == encode_utf8(key_name@).push(0u8) && is_encoding_of(
            r->Ok_0.value,
            value.spec_data(),
            order,
        ),
        r is Err ==> r->Err_0 == CsError::CsErrInvalidParam,
{
    let d = value.to_data();
    set(key_name, &d, order)
}

/// The key of a call that names one key (a read, an increment, a
/// decrement, a tracker), NUL-terminated, once the name is validated.
pub fn key_request(key_name: &str) -> (r: Result<Vec<u8>>)
    ensures
        r is Ok <==> name_ok(key_name@, CMAP_KEYNAME_MAXLENGTH as nat),
        r is Ok ==> r->Ok_0@ == encode_utf8(key_name@).push(0u8),
        r is Err ==> r->Err_0 == CsError::CsErrInvalidParam,
{
    validated_name(key_name, CMAP_KEYNAME_MAXLENGTH)
}

/// A key name of 255 bytes or more is refused before anything is sent; one
/// of 254 bytes without a NUL is accepted.
pub proof fn lemma_name_length_limit(s: Seq<char>)
    ensures
        encode_utf8(s).len() >= CMAP_KEYNAME_MAXLENGTH ==> !name_ok(
            s,
            CMAP_KEYNAME_MAXLENGTH as nat,
        ),
        encode_utf8(s).len() == CMAP_KEYNAME_MAXLENGTH - 1 && !encode_utf8(s).contains(0u8)
            ==> name_ok(s, CMAP_KEYNAME_MAXLENGTH as nat),
{
}

/// The state of a probe-and-retry read.
pub ghost struct ReadView {
    /// The key read, NUL-terminated.
    pub key: Seq<u8>,
    /// The size of the buffer offered to the next fetch.
    pub offered: nat,
    /// Whether the buffer was already enlarged once.
    pub retried: bool,
    /// Whether the read has its outcome.
    pub finished: bool,
}

/// A read of one value. The first fetch offers a buffer of
/// [INITIAL_SIZE] bytes; when the daemon reports a larger value, the buffer
/// is enlarged to the reported size and the same fetch is made once more. A
/// second oversized report is an error.
#[derive(Debug)]
pub struct ValueRead {
    key: Vec<u8>,
    offered: usize,
    retried: bool,
    finished: bool,
}

impl View for ValueRead {
    type V = ReadView;

    closed spec fn view(&self) -> ReadView {
        ReadView {
            key: self.key@,
            offered: self.offered as nat,
            retried: self.retried,
            finished: self.finished,
        }
    }
}

/// The outcome of a read, seen through the values' views.
pub open spec fn outcome_view(r: Option<Result<Data>>) -> Option<Result<DataView>> {
    match r {
        None => None,
        Some(Ok(d)) => Some(Ok(d@)),
        Some(Err(e)) => Some(Err(e)),
    }
}

/// One step of a read: the daemon answered a fetch with status `res`, the
/// value's true size and tag, and the buffer it filled. The result is the
/// next state and, once the read is over, its outcome.
pub open spec fn read_step(
    s: ReadView,
    res: u32,
    size: nat,
    tag: u32,
    buffer: Seq<u8>,
    order: ByteOrder,
) -> (ReadView, Option<Result<DataView>>) {
    if res != CS_OK {
        (ReadView { finished: true, ..s }, Some(Err(error_of(res))))
    } else if size > s.offered {
        if !s.retried {
            (ReadView { offered: size, retried: true, ..s }, None)
        } else {
            (ReadView { finished: true, ..s }, Some(Err(CsError::CsErrLibrary)))
        }
    } else {
        (ReadView { finished: true, ..s }, Some(decoded(size, tag, buffer, order)))
    }
}

impl ValueRead {
    /// Starts a read of `key_name`; an invalid name fails with
    /// [CsError::CsErrInvalidParam] before anything is sent.
    pub fn new(key_name: &str) -> (r: Result<ValueRead>)
        ensures
            r is Ok <==> name_ok(key_name@, CMAP_KEYNAME_MAXLENGTH as nat),
            r is Ok ==> r->Ok_0@ == (ReadView {
                key: encode_utf8(key_name@).push(0u8),
                offered: INITIAL_SIZE as nat,
                retried: false,
                finished: false,
            }),
            r is Err ==> r->Err_0 == CsError::CsErrInvalidParam,
    {
        let key = key_request(key_name)?;
        Ok(ValueRead { key, offered: INITIAL_SIZE, retried: false, finished: false })
    }

    /// The key to fetch, NUL-terminated.
    pub fn key(&self) -> (r: &Vec<u8>)
        ensures
            r@ == self@.key,
    {
        &self.key
    }

    /// The size of the buffer to offer to the next fetch.
    pub fn buffer_size(&self) -> (r: usize)
        ensures
            r as nat == self@.offered,
    {
        self.offered
    }

    /// Whether the read has its outcome.
    pub fn is_finished(&self) -> (r: bool)
        ensures
            r == self@.finished,
    {
        self.finished
    }

    /// Takes the daemon's answer to a fetch: its status, the value's true
    /// size and tag, and the buffer it filled. Gives the outcome, or `None`
    /// when the fetch must be made again with [ValueRead::buffer_size] bytes.
    pub fn on_reply(
        &mut self,
        res: u32,
        value_size: usize,
        value_type: u32,
        buffer: &[u8],
        order: ByteOrder,
    ) -> (r: Option<Result<Data>>)
        requires
            !old(self)@.finished,
        ensures
            (final(self)@, outcome_view(r)) == read_step(
                old(self)@,
                res,
                value_size as nat,
                value_type,
                buffer@,
                order,
            ),
    {
        if res != CS_OK {
            self.finished = true;
            return Some(Err(CsError::from_c(res)));
        }
        if value_size > self.offered {
            if !self.retried {
                self.offered = value_size;
                self.retried = true;
                return None;
            }
            self.finished = true;
            return Some(Err(CsError::CsErrLibrary));
        }
        self.finished = true;
        let d = decode(value_size, value_type, buffer, order);
        Some(d)
    }
}

/// A read is resized at most once: a fresh read whose first answer reports a
/// value larger than the initial buffer asks for exactly one more fetch,
/// with a buffer of the reported size, and that second fetch always ends the
/// read. When the second answer fills the buffer with the bytes sent for a
/// value, the read gives that value back.
pub proof fn lemma_single_retry(
    key: Seq<u8>,
    size: nat,
    tag: u32,
    first: Seq<u8>,
    res2: u32,
    size2: nat,
    tag2: u32,
    second: Seq<u8>,
    order: ByteOrder,
)
    requires
        size > INITIAL_SIZE,
    ensures
        ({
            let s0 = ReadView { key, offered: INITIAL_SIZE as nat, retried: false, finished: false };
            let (s1, o1) = read_step(s0, CS_OK, size, tag, first, order);
            let (s2, o2) = read_step(s1, res2, size2, tag2, second, order);
            &&& o1 is None
            &&& s1.key == key
            &&& s1.offered == size
            &&& !s1.finished
            &&& o2 is Some
            &&& s2.finished
            &&& res2 == CS_OK && size2 <= size ==> o2 == Some(decoded(size2, tag2, second, order))
        }),
{
}

/// A value that was stored reads back equal. A fresh read of its key, whose
/// fetches are answered with the bytes stored for `v` (their number as the
/// size, `v`'s tag), gives `v`: in one fetch when the bytes fit the initial
/// buffer, and otherwise in exactly two, the second for the same key with a
/// buffer of exactly their size.
pub proof fn lemma_read_returns_stored_value(
    key: Seq<u8>,
    v: DataView,
    first: Seq<u8>,
    order: ByteOrder,
)
    requires
        encodable(v),
    ensures
        ({
            let w = crate::codec::wire_bytes(v, order);
            let tag = type_of(v).spec_code();
            let s0 = ReadView { key, offered: INITIAL_SIZE as nat, retried: false, finished: false };
            if w.len() <= INITIAL_SIZE {
                read_step(s0, CS_OK, w.len(), tag, w, order) == (
                ReadView { finished: true, ..s0 }, Some(Ok::<DataView, CsError>(v)))
            } else {
                let (s1, o1) = read_step(s0, CS_OK, w.len(), tag, first, order);
                let (s2, o2) = read_step(s1, CS_OK, w.len(), tag, w, order);
                &&& o1 is None
                &&& s1.key == key
                &&& s1.offered == w.len()
                &&& o2 == Some(Ok::<DataView, CsError>(v))
                &&& s2.finished
            }
        }),
{
    crate::codec::lemma_round_trip(v, order);
}

/// The prefix of an enumeration, NUL-terminated, once validated.
pub fn iter_prefix(prefix: &str) -> (r: Result<Vec<u8>>)
    ensures
        r is Ok <==> name_ok(prefix@, CMAP_KEYNAME_MAXLENGTH as nat),
        r is Ok ==> r->Ok_0@ == encode_utf8(prefix@).push(0u8),
        r is Err ==> r->Err_0 == CsError::CsErrInvalidParam,
{
    validated_name(prefix, CMAP_KEYNAME_MAXLENGTH)
}

/// A server-side cursor over the keys under a prefix, not yet iterated.
#[derive(Debug)]
pub struct CmapIterStart {
    iter_handle: u64,
    cmap_handle: u64,
}

/// The state of a key cursor.
pub ghost struct CursorView {
    pub session: u64,
    pub cursor: u64,
    pub phase: CursorPhase,
}

/// An enumeration in progress over the keys under a prefix.
#[derive(Debug)]
pub struct CmapIntoIter {
    cmap_handle: u64,
    iter_handle: u64,
    phase: CursorPhase,
}

impl View for CmapIntoIter {
    type V = CursorView;

    closed spec fn view(&self) -> CursorView {
        CursorView { session: self.cmap_handle, cursor: self.iter_handle, phase: self.phase }
    }
}

/// One element of a key enumeration: a key and its value.
#[derive(Debug)]
pub struct CmapIter {
    key_name: String,
    data: Data,
}

impl CmapIter {
    pub closed spec fn spec_key_name(&self) -> Seq<char> {
        self.key_name@
    }

    pub closed spec fn spec_data(&self) -> DataView {
        self.data@
    }

    /// The key.
    pub fn key_name(&self) -> (r: &str)
        ensures
            r@ == self.spec_key_name(),
    {
        self.key_name.as_str()
    }

    /// The value.
    pub fn data(&self) -> (r: &Data)
        ensures
            r@ == self.spec_data(),
    {
        &self.data
    }
}

impl CmapIterStart {
    /// Completes starting an enumeration on `cmap_handle`'s session: the
    /// cursor `iter_handle` on success, else the error that `res` names.
    pub fn new(cmap_handle: &Handle, res: u32, iter_handle: u64) -> (r: Result<CmapIterStart>)
        ensures
            res == CS_OK ==> r is Ok && r->Ok_0.spec_cursor() == iter_handle
                && r->Ok_0.spec_session() == cmap_handle.spec_id(),
            res != CS_OK ==> r == Err::<CmapIterStart, CsError>(error_of(res)),
    {
        if res == CS_OK {
            Ok(CmapIterStart { cmap_handle: cmap_handle.id(), iter_handle })
        } else {
            Err(CsError::from_c(res))
        }
    }

    pub closed spec fn spec_cursor(&self) -> u64 {
        self.iter_handle
    }

    pub closed spec fn spec_session(&self) -> u64 {
        self.cmap_handle
    }

    /// Starts iterating.
    pub fn into_iter(self) -> (r: CmapIntoIter)
        ensures
            r@ == (CursorView {
                session: self.spec_session(),
                cursor: self.spec_cursor(),
                phase: CursorPhase::Created,
            }),
    {
        CmapIntoIter {
            cmap_handle: self.cmap_handle,
            iter_handle: self.iter_handle,
            phase: CursorPhase::Created,
        }
    }
}

/// What an enumeration does after the daemon answered an advance.
#[derive(Debug)]
pub enum IterStep {
    /// Read the value of this key, then hand it to
    /// [CmapIntoIter::on_value].
    Fetch(String, ValueRead),
    /// The enumeration is over: release the server-side cursor.
    Release,
}

impl CmapIntoIter {
    /// The native session id.
    pub fn cmap_handle(&self) -> (r: u64)
        ensures
            r == self@.session,
    {
        self.cmap_handle
    }

    /// The native cursor id.
    pub fn iter_handle(&self) -> (r: u64)
        ensures
            r == self@.cursor,
    {
        self.iter_handle
    }

    /// The current phase.
    pub fn phase(&self) -> (r: CursorPhase)
        ensures
            r == self@.phase,
    {
        self.phase
    }

    /// Whether the cursor may still fetch.
    pub fn is_open(&self) -> (r: bool)
        ensures
            r == phase_open(self@.phase),
    {
        is_open_phase(self.phase)
    }

    /// Takes the daemon's answer to an advance: its status and the buffer
    /// that holds the next key. On success the key's value is to be read; on
    /// the end of the sequence, or on any error, the cursor ends and is to be
    /// released.
    pub fn on_next(&mut self, res: u32, key_buf: &[u8]) -> (r: IterStep)
        requires
            phase_open(old(self)@.phase),
        ensures
            final(self)@.session == old(self)@.session,
            final(self)@.cursor == old(self)@.cursor,
            match r {
                IterStep::Fetch(name, read) => {
                    &&& res == CS_OK
                    &&& crate::c_str_text(key_buf@, CMAP_KEYNAME_MAXLENGTH as nat) == Ok::<
                        Seq<char>,
                        CsError,
                    >(name@)
                    &&& name_ok(name@, CMAP_KEYNAME_MAXLENGTH as nat)
                    &&& read@ == (ReadView {
                        key: encode_utf8(name@).push(0u8),
                        offered: INITIAL_SIZE as nat,
                        retried: false,
                        finished: false,
                    })
                    &&& final(self)@.phase == CursorPhase::Active
                },
                IterStep::Release => {
                    &&& !(res == CS_OK && crate::c_str_text(
                        key_buf@,
                        CMAP_KEYNAME_MAXLENGTH as nat,
                    ) is Ok && name_ok(
                        crate::c_str_text(key_buf@, CMAP_KEYNAME_MAXLENGTH as nat)->Ok_0,
                        CMAP_KEYNAME_MAXLENGTH as nat,
                    ))
                    &&& final(self)@.phase == end_phase(res)
                },
            },
    {
        if res == CS_OK {
            if let Ok(name) = crate::string_from_bytes(key_buf, CMAP_KEYNAME_MAXLENGTH) {
                if let Ok(read) = ValueRead::new(name.as_str()) {
                    self.phase = CursorPhase::Active;
                    return IterStep::Fetch(name, read);
                }
            }
        }
        if res == CS_ERR_NO_SECTIONS {
            self.phase = CursorPhase::Exhausted;
        } else {
            self.phase = CursorPhase::Failed;
        }
        IterStep::Release
    }

    /// Takes the outcome of reading the value of `key_name`: the element on
    /// success; on failure the cursor ends and is to be released.
    pub fn on_value(&mut self, key_name: String, value: Result<Data>) -> (r: Option<CmapIter>)
        requires
            phase_open(old(self)@.phase),
        ensures
            final(self)@.session == old(self)@.session,
            final(self)@.cursor == old(self)@.cursor,
            match value {
                Ok(d) => r is Some && r->Some_0.spec_key_name() == key_name@
                    && r->Some_0.spec_data() == d@ && final(self)@.phase == old(self)@.phase,
                Err(_) => r is None && final(self)@.phase == CursorPhase::Failed,
            },
    {
        match value {
            Ok(d) => Some(CmapIter { key_name, data: d }),
            Err(_) => {
                self.phase = CursorPhase::Failed;
                None
            },
        }
    }
}

/// An enumeration that meets the end of the sequence, even on its first
/// advance, ends at once: its cursor is released and can fetch no more.
pub proof fn lemma_end_of_sequence_releases(p: CursorPhase)
    requires
        phase_open(p),
    ensures
        end_phase(CS_ERR_NO_SECTIONS) == CursorPhase::Exhausted,
        !phase_open(end_phase(CS_ERR_NO_SECTIONS)),
{
}

/// A tracker of changes to a key or a prefix.
#[derive(Debug, Copy, Clone, PartialEq, Eq, Structural)]
pub struct TrackHandle {
    track_handle: u64,
}

impl TrackHandle {
    pub closed spec fn spec_id(&self) -> u64 {
        self.track_handle
    }

    /// The native tracker id.
    pub fn id(&self) -> (r: u64)
        ensures
            r == self.spec_id(),
    {
        self.track_handle
    }
}

/// The callback a tracker calls on each change; `F` is the callback's type.
#[derive(Debug, Copy, Clone)]
pub struct NotifyCallback<F> {
    pub notify_fn: Option<F>,
}

/// The table of live trackers, by native tracker id.
pub type Trackers<F> = Registry<NotifyCallback<F>>;

/// Completes adding a tracker on `key_name`. A name that may not be sent
/// fails with [CsError::CsErrInvalidParam] whatever the status, and the
/// table is left alone (the caller sends no request then: it builds the key
/// with [key_request]). Otherwise, on success, the tracker `c_trackhandle`
/// is recorded with its callback before it is handed out.
pub fn track_add<F: Copy>(
    trackers: &mut Trackers<F>,
    key_name: &str,
    notify_callback: &NotifyCallback<F>,
    res: u32,
    c_trackhandle: u64,
) -> (r: Result<TrackHandle>)
    ensures
        !name_ok(key_name@, CMAP_KEYNAME_MAXLENGTH as nat) ==> r == Err::<TrackHandle, CsError>(
            CsError::CsErrInvalidParam,
        ) && final(trackers)@ == old(trackers)@,
        name_ok(key_name@, CMAP_KEYNAME_MAXLENGTH as nat) && res == CS_OK ==> r is Ok
            && r->Ok_0.spec_id() == c_trackhandle && final(trackers)@ == old(trackers)@.insert(
            c_trackhandle,
            *notify_callback,
        ),
        name_ok(key_name@, CMAP_KEYNAME_MAXLENGTH as nat) && res != CS_OK ==> r == Err::<
            TrackHandle,
            CsError,
        >(error_of(res)) && final(trackers)@ == old(trackers)@,
{
    key_request(key_name)?;
    if res == CS_OK {
        trackers.insert(c_trackhandle, *notify_callback);
        Ok(TrackHandle { track_handle: c_trackhandle })
    } else {
        Err(CsError::from_c(res))
    }
}

/// Completes removing a tracker: on success its entry leaves `trackers`.
pub fn track_delete<F>(trackers: &mut Trackers<F>, track_handle: TrackHandle, res: u32) -> (r:
    Result<()>)
    ensures
        r == status_result(res),
        res == CS_OK ==> final(trackers)@ == old(trackers)@.remove(track_handle.spec_id()),
        res != CS_OK ==> final(trackers)@ == old(trackers)@,
{
    let r = crate::check_status(res);
    if res == CS_OK {
        trackers.remove(track_handle.id());
    }
    r
}

/// A value as a change notification carries it: its size, its tag and its
/// bytes.
#[derive(Debug, Clone)]
pub struct NotifyValue {
    pub len: usize,
    pub value_type: u32,
    pub data: Vec<u8>,
}

/// What a notification decodes to.
pub open spec fn notify_value(v: NotifyValue, order: ByteOrder) -> Result<DataView> {
    decoded(v.len as nat, v.value_type, v.data@, order)
}

/// A change notification, resolved and decoded, ready for the tracker's
/// callback.
#[derive(Debug)]
pub struct Notification<F> {
    pub handle: Handle,
    pub track_handle: TrackHandle,
    pub callback: F,
    pub event: TrackType,
    pub key_name: String,
    pub old_value: Data,
    pub new_value: Data,
    pub user_data: u64,
}

/// Whether a native change notification reaches a callback: its session and
/// its tracker are known, its key and both values decode, and the tracker
/// has a callback.
pub open spec fn notify_delivered<F>(
    sessions: Map<u64, Handle>,
    trackers: Map<u64, NotifyCallback<F>>,
    cmap_handle: u64,
    cmap_track_handle: u64,
    key_name: Seq<u8>,
    new_value: NotifyValue,
    old_value: NotifyValue,
    order: ByteOrder,
) -> bool {
    &&& sessions.contains_key(cmap_handle)
    &&& trackers.contains_key(cmap_track_handle)
    &&& crate::c_str_text(key_name, CMAP_KEYNAME_MAXLENGTH as nat) is Ok
    &&& notify_value(old_value, order) is Ok
    &&& notify_value(new_value, order) is Ok
    &&& trackers[cmap_track_handle].notify_fn is Some
}

/// Turns a native change notification into owned values for the tracker's
/// callback. A notification for an unknown session or tracker, one whose key
/// or values do not decode, and one whose tracker has no callback, is
/// dropped.
pub fn notify_event<F: Copy>(
    sessions: &Sessions,
    trackers: &Trackers<F>,
    cmap_handle: u64,
    cmap_track_handle: u64,
    event: i32,
    key_name: &[u8],
    new_value: &NotifyValue,
    old_value: &NotifyValue,
    user_data: u64,
    order: ByteOrder,
) -> (r: Option<Notification<F>>)
    ensures
        r is Some <==> notify_delivered(
            sessions@,
            trackers@,
            cmap_handle,
            cmap_track_handle,
            key_name@,
            *new_value,
            *old_value,
            order,
        ),
        r is Some ==> {
            let n = r->Some_0;
            &&& n.handle.spec_id() == cmap_handle
            &&& !n.handle.spec_owns()
            &&& n.track_handle.spec_id() == cmap_track_handle
            &&& Some(n.callback) == trackers@[cmap_track_handle].notify_fn
            &&& n.event.bits == event
            &&& crate::c_str_text(key_name@, CMAP_KEYNAME_MAXLENGTH as nat) == Ok::<
                Seq<char>,
                CsError,
            >(n.key_name@)
            &&& notify_value(*old_value, order) == Ok::<DataView, CsError>(n.old_value@)
            &&& notify_value(*new_value, order) == Ok::<DataView, CsError>(n.new_value@)
            &&& n.user_data == user_data
        },
{
    if !sessions.contains(cmap_handle) {
        return None;
    }
    let handle = Handle { cmap_handle, clone: true };
    let callback = match trackers.lookup(cmap_track_handle) {
        Some(cb) => *cb,
        None => return None,
    };
    let r_keyname = match crate::string_from_bytes(key_name, CMAP_KEYNAME_MAXLENGTH) {
        Ok(s) => s,
        Err(_) => return None,
    };
    let r_old = match decode(old_value.len, old_value.value_type, old_value.data.as_slice(), order) {
        Ok(v) => v,
        Err(_) => return None,
    };
    let r_new = match decode(new_value.len, new_value.value_type, new_value.data.as_slice(), order) {
        Ok(v) => v,
        Err(_) => return None,
    };
    match callback.notify_fn {
        Some(f) => Some(
            Notification {
                handle,
                track_handle: TrackHandle { track_handle: cmap_track_handle },
                callback: f,
                event: TrackType { bits: event },
                key_name: r_keyname,
                old_value: r_old,
                new_value: r_new,
                user_data,
            },
        ),
        None => None,
    }
}

/// Once a session is closed, a native notification that still carries its
/// id is dropped: it reaches no callback.
pub proof fn lemma_closed_session_drops_notifications<F>(
    sessions: Map<u64, Handle>,
    trackers: Map<u64, NotifyCallback<F>>,
    cmap_handle: u64,
    cmap_track_handle: u64,
    key_name: Seq<u8>,
    new_value: NotifyValue,
    old_value: NotifyValue,
    order: ByteOrder,
)
    ensures
        !notify_delivered(
            sessions.remove(cmap_handle),
            trackers,
            cmap_handle,
            cmap_track_handle,
            key_name,
            new_value,
            old_value,
            order,
        ),
{
}

} // verus!
