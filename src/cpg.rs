//! cpg, the closed process groups service: reliable, ordered multicast to
//! named groups, with membership-change notification.
use vstd::prelude::*;

verus! {

use vstd::utf8::encode_utf8;
use crate::cursor::{CursorPhase, end_phase, is_open_phase, phase_open};
use crate::registry::Registry;
use crate::{CsError, NodeId, Result, CS_OK, CS_ERR_NO_SECTIONS, c_str_text, error_of};

/// The room for a group name, its terminator included.
pub const CPG_NAMELEN_MAX: usize = 128;

/// The most members a membership query returns.
pub const CPG_MEMBERS_MAX: usize = 128;

/// A ring id, as the totem membership change callback reports it.
#[derive(Debug, Copy, Clone, PartialEq, Eq)]
pub struct RingId {
    pub nodeid: NodeId,
    pub seq: u64,
}

/// Delivery guarantee for [Guarantee::to_c] and multicasts.
#[derive(Debug, Copy, Clone, PartialEq, Eq, Structural)]
pub enum Guarantee {
    TypeUnordered,
    TypeFifo,
    TypeAgreed,
    TypeSafe,
}

impl Guarantee {
    /// The value the C library expects.
    pub fn to_c(&self) -> (r: u32)
        ensures
            r == match self {
                Guarantee::TypeUnordered => 0u32,
                Guarantee::TypeFifo => 1u32,
                Guarantee::TypeAgreed => 2u32,
                Guarantee::TypeSafe => 3u32,
            },
    {
        match self {
            Guarantee::TypeUnordered => 0,
            Guarantee::TypeFifo => 1,
            Guarantee::TypeAgreed => 2,
            Guarantee::TypeSafe => 3,
        }
    }
}

/// Flow control state.
#[derive(Debug, Copy, Clone, PartialEq, Eq, Structural)]
pub enum FlowControlState {
    Disabled,
    Enabled,
}

/// Flags for a model 1 session; none are defined yet.
#[derive(Debug, Copy, Clone, PartialEq, Eq, Structural)]
pub enum Model1Flags {
    NoFlags,
}

/// Why a member appears in a membership change.
#[derive(Debug, Copy, Clone, PartialEq, Eq, Structural)]
pub enum Reason {
    Undefined,
    Join,
    Leave,
    NodeDown,
    NodeUp,
    ProcDown,
}

/// The reason that a native reason code names; an unknown code is
/// `Undefined`.
pub open spec fn reason_of(r: u32) -> Reason {
    match r {
        1 => Reason::Join,
        2 => Reason::Leave,
        3 => Reason::NodeDown,
        4 => Reason::NodeUp,
        5 => Reason::ProcDown,
        _ => Reason::Undefined,
    }
}

impl Reason {
    /// The printable name of the reason.
    pub open spec fn spec_name(self) -> &'static str {
        match self {
            Reason::Undefined => "Undefined",
            Reason::Join => "Join",
            Reason::Leave => "Leave",
            Reason::NodeDown => "NodeDown",
            Reason::NodeUp => "NodeUp",
            Reason::ProcDown => "ProcDown",
        }
    }

    /// The printable name of the reason.
    pub fn name(&self) -> (r: &'static str)
        ensures
            r == self.spec_name(),
    {
        match self {
            Reason::Undefined => "Undefined",
            Reason::Join => "Join",
            Reason::Leave => "Leave",
            Reason::NodeDown => "NodeDown",
            Reason::NodeUp => "NodeUp",
            Reason::ProcDown => "ProcDown",
        }
    }

    /// Converts a native reason code.
    pub fn new(r: u32) -> (res: Reason)
        ensures
            res == reason_of(r),
    {
        match r {
            0 => Reason::Undefined,
            1 => Reason::Join,
            2 => Reason::Leave,
            3 => Reason::NodeDown,
            4 => Reason::NodeUp,
            5 => Reason::ProcDown,
            _ => Reason::Undefined,
        }
    }
}

/// A member entry of a membership change or query.
#[derive(Debug, Copy, Clone, PartialEq, Eq)]
pub struct Address {
    pub nodeid: NodeId,
    pub pid: u32,
    pub reason: Reason,
}

/// A member entry as the C library lays it out.
#[derive(Debug, Copy, Clone, PartialEq, Eq)]
pub struct CpgAddress {
    pub nodeid: u32,
    pub pid: u32,
    pub reason: u32,
}

/// Whether `r` is what the native entry `a` converts to.
pub open spec fn address_of(r: Address, a: CpgAddress) -> bool {
    &&& r.nodeid.spec_id() == a.nodeid
    &&& r.pid == a.pid
    &&& r.reason == reason_of(a.reason)
}

/// Converts native member entries into owned ones, in order.
pub fn cpg_array_to_vec(list: &[CpgAddress]) -> (r: Vec<Address>)
    ensures
        r@.len() == list@.len(),
        forall|i: int| 0 <= i < list@.len() ==> address_of(#[trigger] r@[i], list@[i]),
{
    let mut r_vec: Vec<Address> = Vec::new();
    let mut i: usize = 0;
    while i < list.len()
        invariant
            i <= list@.len(),
            r_vec@.len() == i,
            forall|j: int| 0 <= j < i ==> address_of(#[trigger] r_vec@[j], list@[j]),
        decreases list@.len() - i,
    {
        let a = Address {
            nodeid: crate::node_id(list[i].nodeid),
            pid: list[i].pid,
            reason: Reason::new(list[i].reason),
        };
        r_vec.push(a);
        i = i + 1;
    }
    r_vec
}

/// Model 1 session data: flags and the callbacks, whose types are `D` for
/// message delivery, `C` for group membership changes and `T` for totem
/// membership changes.
#[derive(Debug, Copy, Clone)]
pub struct Model1Data<D, C, T> {
    pub flags: Model1Flags,
    pub deliver_fn: Option<D>,
    pub confchg_fn: Option<C>,
    pub totem_confchg_fn: Option<T>,
}

/// Session model data; only model 1 can open a session.
#[derive(Debug, Copy, Clone)]
pub enum ModelData<D, C, T> {
    ModelNone,
    ModelV1(Model1Data<D, C, T>),
}

/// A session with the cpg service.
#[derive(Debug, Copy, Clone, PartialEq, Eq, Structural)]
pub struct Handle {
    cpg_handle: u64,
}

impl Handle {
    pub closed spec fn spec_id(&self) -> u64 {
        self.cpg_handle
    }

    /// The native session id.
    pub fn id(&self) -> (r: u64)
        ensures
            r == self.spec_id(),
    {
        self.cpg_handle
    }
}

/// The table of open sessions, by native id, with each session's model
/// data.
pub type Sessions<D, C, T> = Registry<ModelData<D, C, T>>;

/// Whether a session can be opened with this model data.
pub fn model_supported<D, C, T>(model_data: &ModelData<D, C, T>) -> (r: bool)
    ensures
        r == model_data is ModelV1,
{
    match model_data {
        ModelData::ModelV1(_) => true,
        _ => false,
    }
}

/// Completes opening a session. Model data other than model 1 fails with
/// [CsError::CsErrInvalidParam] (no session is asked for then); otherwise,
/// on success, the session is recorded with its model data before its
/// handle is handed out.
pub fn initialize<D: Copy, C: Copy, T: Copy>(
    sessions: &mut Sessions<D, C, T>,
    model_data: &ModelData<D, C, T>,
    res: u32,
    native_handle: u64,
) -> (r: Result<Handle>)
    ensures
        !(model_data is ModelV1) ==> r == Err::<Handle, CsError>(CsError::CsErrInvalidParam)
            && final(sessions)@ == old(sessions)@,
        model_data is ModelV1 && res == CS_OK ==> r is Ok && r->Ok_0.spec_id() == native_handle
            && final(sessions)@ == old(sessions)@.insert(native_handle, *model_data),
        model_data is ModelV1 && res != CS_OK ==> r == Err::<Handle, CsError>(error_of(res))
            && final(sessions)@ == old(sessions)@,
{
    if !model_supported(model_data) {
        return Err(CsError::CsErrInvalidParam);
    }
    if res == CS_OK {
        sessions.insert(native_handle, *model_data);
        Ok(Handle { cpg_handle: native_handle })
    } else {
        Err(CsError::from_c(res))
    }
}

/// Completes closing a session: on success its entry leaves `sessions`.
pub fn finalize<D, C, T>(sessions: &mut Sessions<D, C, T>, handle: Handle, res: u32) -> (r: Result<
    (),
>)
    ensures
        r == crate::status_result(res),
        res == CS_OK ==> final(sessions)@ == old(sessions)@.remove(handle.spec_id()),
        res != CS_OK ==> final(sessions)@ == old(sessions)@,
{
    let r = crate::check_status(res);
    if res == CS_OK {
        sessions.remove(handle.id());
    }
    r
}

/// A group name as the C library takes it: its length and a zero-padded
/// buffer of [CPG_NAMELEN_MAX] bytes.
#[derive(Debug, Clone, PartialEq, Eq)]
pub struct CpgName {
    pub length: u32,
    pub value: Vec<u8>,
}

/// Whether `g` can name a group: it leaves room for the terminator and
/// holds no NUL.
pub open spec fn group_name_ok(g: Seq<char>) -> bool {
    &&& encode_utf8(g).len() <= CPG_NAMELEN_MAX - 1
    &&& !encode_utf8(g).contains(0u8)
}

/// Whether `n` is the C library's form of the group name `g`: its UTF-8
/// bytes, their count, and zeros up to [CPG_NAMELEN_MAX] bytes.
pub open spec fn is_cpg_name_of(n: CpgName, g: Seq<char>) -> bool {
    &&& n.length as nat == encode_utf8(g).len()
    &&& n.value@.len() == CPG_NAMELEN_MAX
    &&& n.value@.take(n.length as int) == encode_utf8(g)
    &&& forall|i: int| n.length <= i < CPG_NAMELEN_MAX ==> n.value@[i] == 0u8
}

/// Converts a group name for the C library, or fails with
/// [CsError::CsErrInvalidParam].
pub fn string_to_cpg_name(group: &str) -> (r: Result<CpgName>)
    ensures
        r is Ok <==> group_name_ok(group@),
        r is Ok ==> is_cpg_name_of(r->Ok_0, group@),
        r is Err ==> r->Err_0 == CsError::CsErrInvalidParam,
{
    let bytes = group.as_bytes();
    if bytes.len() > CPG_NAMELEN_MAX - 1 {
        return Err(CsError::CsErrInvalidParam);
    }
    let c = match crate::codec::c_string_bytes(group) {
        Some(c) => c,
        None => return Err(CsError::CsErrInvalidParam),
    };
    let n = bytes.len();
    let mut value: Vec<u8> = Vec::new();
    let mut i: usize = 0;
    while i < CPG_NAMELEN_MAX
        invariant
            n == encode_utf8(group@).len(),
            n <= CPG_NAMELEN_MAX - 1,
            c@ == encode_utf8(group@).push(0u8),
            i <= CPG_NAMELEN_MAX,
            value@.len() == i,
            forall|j: int| 0 <= j < i && j < n ==> value@[j] == c@[j],
            forall|j: int| n <= j < i ==> value@[j] == 0u8,
        decreases CPG_NAMELEN_MAX - i,
    {
        if i < n {
            value.push(c[i]);
        } else {
            value.push(0u8);
        }
        i = i + 1;
    }
    proof {
        assert(value@.take(n as int) =~= encode_utf8(group@));
    }
    Ok(CpgName { length: n as u32, value })
}

/// The text of a native group name buffer: up to its first NUL.
pub open spec fn group_text(value: Seq<u8>) -> Result<Seq<char>> {
    c_str_text(value, CPG_NAMELEN_MAX as nat)
}

/// A delivered message, resolved and converted, ready for the session's
/// delivery callback.
#[derive(Debug)]
pub struct Delivery<D> {
    pub handle: Handle,
    pub callback: D,
    pub group_name: String,
    pub nodeid: NodeId,
    pub pid: u32,
    pub msg: Vec<u8>,
}

/// The callbacks of a session, if its model data has them.
pub open spec fn callbacks_of<D, C, T>(m: ModelData<D, C, T>) -> Option<Model1Data<D, C, T>> {
    match m {
        ModelData::ModelV1(md) => Some(md),
        ModelData::ModelNone => None,
    }
}

/// Whether a native message delivery reaches a callback: its session is
/// known, its group name decodes, and the session has a delivery callback.
pub open spec fn deliver_delivered<D, C, T>(
    sessions: Map<u64, ModelData<D, C, T>>,
    handle: u64,
    group_name: Seq<u8>,
) -> bool {
    &&& sessions.contains_key(handle)
    &&& group_text(group_name) is Ok
    &&& callbacks_of(sessions[handle]) is Some
    &&& callbacks_of(sessions[handle])->Some_0.deliver_fn is Some
}

/// Turns a native message delivery into owned values for the session's
/// delivery callback; it is dropped for an unknown session, a group name
/// that does not decode, or a session without that callback.
pub fn deliver_event<D: Copy, C: Copy, T: Copy>(
    sessions: &Sessions<D, C, T>,
    handle: u64,
    group_name: &[u8],
    nodeid: u32,
    pid: u32,
    msg: Vec<u8>,
) -> (r: Option<Delivery<D>>)
    ensures
        r is Some <==> deliver_delivered(sessions@, handle, group_name@),
        r is Some ==> {
            let d = r->Some_0;
            &&& d.handle.spec_id() == handle
            &&& Some(d.callback) == callbacks_of(sessions@[handle])->Some_0.deliver_fn
            &&& group_text(group_name@) == Ok::<Seq<char>, CsError>(d.group_name@)
            &&& d.nodeid.spec_id() == nodeid
            &&& d.pid == pid
            &&& d.msg@ == msg@
        },
{
    let md = match sessions.lookup(handle) {
        Some(ModelData::ModelV1(md)) => *md,
        _ => return None,
    };
    let r_group_name = match crate::string_from_bytes(group_name, CPG_NAMELEN_MAX) {
        Ok(s) => s,
        Err(_) => return None,
    };
    match md.deliver_fn {
        Some(cb) => Some(
            Delivery {
                handle: Handle { cpg_handle: handle },
                callback: cb,
                group_name: r_group_name,
                nodeid: crate::node_id(nodeid),
                pid,
                msg,
            },
        ),
        None => None,
    }
}

/// A group membership change, resolved and converted, ready for the
/// session's callback.
#[derive(Debug)]
pub struct ConfChange<C> {
    pub handle: Handle,
    pub callback: C,
    pub group_name: String,
    pub member_list: Vec<Address>,
    pub left_list: Vec<Address>,
    pub joined_list: Vec<Address>,
}

/// Whether a native group membership change reaches a callback.
pub open spec fn confchg_delivered<D, C, T>(
    sessions: Map<u64, ModelData<D, C, T>>,
    handle: u64,
    group_name: Seq<u8>,
) -> bool {
    &&& sessions.contains_key(handle)
    &&& group_text(group_name) is Ok
    &&& callbacks_of(sessions[handle]) is Some
    &&& callbacks_of(sessions[handle])->Some_0.confchg_fn is Some
}

/// Whether a list converts entry by entry from a native list.
pub open spec fn converted(r: Seq<Address>, list: Seq<CpgAddress>) -> bool {
    &&& r.len() == list.len()
    &&& forall|i: int| 0 <= i < list.len() ==> address_of(#[trigger] r[i], list[i])
}

/// Turns a native group membership change into owned values for the
/// session's callback; dropped as for a delivery.
pub fn confchg_event<D: Copy, C: Copy, T: Copy>(
    sessions: &Sessions<D, C, T>,
    handle: u64,
    group_name: &[u8],
    member_list: &[CpgAddress],
    left_list: &[CpgAddress],
    joined_list: &[CpgAddress],
) -> (r: Option<ConfChange<C>>)
    ensures
        r is Some <==> confchg_delivered(sessions@, handle, group_name@),
        r is Some ==> {
            let c = r->Some_0;
            &&& c.handle.spec_id() == handle
            &&& Some(c.callback) == callbacks_of(sessions@[handle])->Some_0.confchg_fn
            &&& group_text(group_name@) == Ok::<Seq<char>, CsError>(c.group_name@)
            &&& converted(c.member_list@, member_list@)
            &&& converted(c.left_list@, left_list@)
            &&& converted(c.joined_list@, joined_list@)
        },
{
    let md = match sessions.lookup(handle) {
        Some(ModelData::ModelV1(md)) => *md,
        _ => return None,
    };
    let r_group_name = match crate::string_from_bytes(group_name, CPG_NAMELEN_MAX) {
        Ok(s) => s,
        Err(_) => return None,
    };
    let r_member_list = cpg_array_to_vec(member_list);
    let r_left_list = cpg_array_to_vec(left_list);
    let r_joined_list = cpg_array_to_vec(joined_list);
    match md.confchg_fn {
        Some(cb) => Some(
            ConfChange {
                handle: Handle { cpg_handle: handle },
                callback: cb,
                group_name: r_group_name,
                member_list: r_member_list,
                left_list: r_left_list,
                joined_list: r_joined_list,
            },
        ),
        None => None,
    }
}

/// A totem membership change, resolved and converted, ready for the
/// session's callback.
#[derive(Debug)]
pub struct TotemChange<T> {
    pub handle: Handle,
    pub callback: T,
    pub ring_id: RingId,
    pub member_list: Vec<NodeId>,
}

/// Converts native node ids, in order.
pub fn node_list(list: &[u32]) -> (r: Vec<NodeId>)
    ensures
        r@.len() == list@.len(),
        forall|i: int| 0 <= i < list@.len() ==> (#[trigger] r@[i]).spec_id() == list@[i],
{
    let mut r: Vec<NodeId> = Vec::new();
    let mut i: usize = 0;
    while i < list.len()
        invariant
            i <= list@.len(),
            r@.len() == i,
            forall|j: int| 0 <= j < i ==> (#[trigger] r@[j]).spec_id() == list@[j],
        decreases list@.len() - i,
    {
        r.push(crate::node_id(list[i]));
        i = i + 1;
    }
    r
}

/// Whether a native totem membership change reaches a callback.
pub open spec fn totem_delivered<D, C, T>(sessions: Map<u64, ModelData<D, C, T>>, handle: u64) -> bool {
    &&& sessions.contains_key(handle)
    &&& callbacks_of(sessions[handle]) is Some
    &&& callbacks_of(sessions[handle])->Some_0.totem_confchg_fn is Some
}

/// Turns a native totem membership change into owned values for the
/// session's callback; dropped for an unknown session or one without that
/// callback.
pub fn totem_confchg_event<D: Copy, C: Copy, T: Copy>(
    sessions: &Sessions<D, C, T>,
    handle: u64,
    ring_nodeid: u32,
    ring_seq: u64,
    member_list: &[u32],
) -> (r: Option<TotemChange<T>>)
    ensures
        r is Some <==> totem_delivered(sessions@, handle),
        r is Some ==> {
            let t = r->Some_0;
            &&& t.handle.spec_id() == handle
            &&& Some(t.callback) == callbacks_of(sessions@[handle])->Some_0.totem_confchg_fn
            &&& t.ring_id.nodeid.spec_id() == ring_nodeid
            &&& t.ring_id.seq == ring_seq
            &&& t.member_list@.len() == member_list@.len()
            &&& forall|i: int|
                0 <= i < member_list@.len() ==> (#[trigger] t.member_list@[i]).spec_id()
                    == member_list@[i]
        },
{
    let md = match sessions.lookup(handle) {
        Some(ModelData::ModelV1(md)) => *md,
        _ => return None,
    };
    let r_ring_id = RingId { nodeid: crate::node_id(ring_nodeid), seq: ring_seq };
    let r_member_list = node_list(member_list);
    match md.totem_confchg_fn {
        Some(cb) => Some(
            TotemChange {
                handle: Handle { cpg_handle: handle },
                callback: cb,
                ring_id: r_ring_id,
                member_list: r_member_list,
            },
        ),
        None => None,
    }
}

/// Once a session is closed, native events that still carry its id are
/// dropped: none reaches a callback.
pub proof fn lemma_closed_session_drops_events<D, C, T>(
    sessions: Map<u64, ModelData<D, C, T>>,
    handle: u64,
    group_name: Seq<u8>,
)
    ensures
        !deliver_delivered(sessions.remove(handle), handle, group_name),
        !confchg_delivered(sessions.remove(handle), handle, group_name),
        !totem_delivered(sessions.remove(handle), handle),
{
}

/// Completes a membership query: the first `entries` of the native list on
/// success; a count outside the list is an error of the library.
pub fn membership_get(res: u32, member_list: &[CpgAddress], entries: i32) -> (r: Result<
    Vec<Address>,
>)
    ensures
        res != CS_OK ==> r == Err::<Vec<Address>, CsError>(error_of(res)),
        res == CS_OK && !(0 <= entries <= member_list@.len()) ==> r == Err::<
            Vec<Address>,
            CsError,
        >(CsError::CsErrLibrary),
        res == CS_OK && 0 <= entries <= member_list@.len() ==> r is Ok && converted(
            r->Ok_0@,
            member_list@.take(entries as int),
        ),
{
    if res != CS_OK {
        return Err(CsError::from_c(res));
    }
    if entries < 0 || entries as usize > member_list.len() {
        return Err(CsError::CsErrLibrary);
    }
    let n = entries as usize;
    let mut r_vec: Vec<Address> = Vec::new();
    let mut i: usize = 0;
    while i < n
        invariant
            n <= member_list@.len(),
            n == entries,
            i <= n,
            r_vec@.len() == i,
            forall|j: int| 0 <= j < i ==> address_of(#[trigger] r_vec@[j], member_list@[j]),
        decreases n - i,
    {
        let a = Address {
            nodeid: crate::node_id(member_list[i].nodeid),
            pid: member_list[i].pid,
            reason: Reason::new(member_list[i].reason),
        };
        r_vec.push(a);
        i = i + 1;
    }
    Ok(r_vec)
}

/// Completes a flow control query. The state is 1 when enabled and 0 when
/// disabled; any other value is reported as [CsError::CsErrLibrary] rather
/// than read as either.
pub fn flow_control_state_get(res: u32, fc_state: u32) -> (r: Result<bool>)
    ensures
        res != CS_OK ==> r == Err::<bool, CsError>(error_of(res)),
        res == CS_OK ==> r == (if fc_state == 1 {
            Ok::<bool, CsError>(true)
        } else if fc_state == 0 {
            Ok(false)
        } else {
            Err(CsError::CsErrLibrary)
        }),
{
    if res != CS_OK {
        return Err(CsError::from_c(res));
    }
    match fc_state {
        1 => Ok(true),
        0 => Ok(false),
        _ => Err(CsError::CsErrLibrary),
    }
}

/// What a group enumeration covers.
#[derive(Debug, Copy, Clone, PartialEq, Eq, Structural)]
pub enum CpgIterType {
    NameOnly,
    OneGroup,
    All,
}

impl CpgIterType {
    /// The value the C library expects.
    pub fn to_c(&self) -> (r: u32)
        ensures
            r == match self {
                CpgIterType::NameOnly => 1u32,
                CpgIterType::OneGroup => 2u32,
                CpgIterType::All => 3u32,
            },
    {
        match self {
            CpgIterType::NameOnly => 1,
            CpgIterType::OneGroup => 2,
            CpgIterType::All => 3,
        }
    }
}

/// The group argument of a group enumeration: the converted name, or
/// `None` for [CpgIterType::All], which takes no group. The name is
/// validated in every case.
pub fn iteration_group(group: &str, iter_type: CpgIterType) -> (r: Result<Option<CpgName>>)
    ensures
        r is Ok <==> group_name_ok(group@),
        r is Ok ==> (r->Ok_0 is None <==> iter_type is All),
        r is Ok && r->Ok_0 is Some ==> is_cpg_name_of(r->Ok_0->Some_0, group@),
        r is Err ==> r->Err_0 == CsError::CsErrInvalidParam,
{
    let name = string_to_cpg_name(group)?;
    match iter_type {
        CpgIterType::All => Ok(None),
        _ => Ok(Some(name)),
    }
}

/// A server-side cursor over groups and their members, not yet iterated.
#[derive(Debug)]
pub struct CpgIterStart {
    iter_handle: u64,
}

/// One element of a group enumeration.
#[derive(Debug, Clone, PartialEq, Eq)]
pub struct CpgIter {
    pub group: String,
    pub nodeid: NodeId,
    pub pid: u32,
}

/// The state of a group cursor.
pub ghost struct GroupCursorView {
    pub cursor: u64,
    pub phase: CursorPhase,
}

/// A group enumeration in progress.
#[derive(Debug)]
pub struct CpgIntoIter {
    iter_handle: u64,
    phase: CursorPhase,
}

impl View for CpgIntoIter {
    type V = GroupCursorView;

    closed spec fn view(&self) -> GroupCursorView {
        GroupCursorView { cursor: self.iter_handle, phase: self.phase }
    }
}

impl CpgIterStart {
    /// Completes starting a group enumeration: the cursor on success, else
    /// the error that `res` names.
    pub fn new(res: u32, iter_handle: u64) -> (r: Result<CpgIterStart>)
        ensures
            res == CS_OK ==> r is Ok && r->Ok_0.spec_cursor() == iter_handle,
            res != CS_OK ==> r == Err::<CpgIterStart, CsError>(error_of(res)),
    {
        if res == CS_OK {
            Ok(CpgIterStart { iter_handle })
        } else {
            Err(CsError::from_c(res))
        }
    }

    pub closed spec fn spec_cursor(&self) -> u64 {
        self.iter_handle
    }

    /// Starts iterating.
    pub fn into_iter(self) -> (r: CpgIntoIter)
        ensures
            r@ == (GroupCursorView { cursor: self.spec_cursor(), phase: CursorPhase::Created }),
    {
        CpgIntoIter { iter_handle: self.iter_handle, phase: CursorPhase::Created }
    }
}

impl CpgIntoIter {
    /// The native cursor id.
    pub fn iter_handle(&self) -> (r: u64)
        ensures
            r == self@.cursor,
    {
        self.iter_handle
    }

    /// Whether the cursor may still fetch.
    pub fn is_open(&self) -> (r: bool)
        ensures
            r == phase_open(self@.phase),
    {
        is_open_phase(self.phase)
    }

    /// Takes the daemon's answer to an advance: its status and the entry it
    /// filled. Gives the element; `None` means the enumeration is over (the
    /// end of the sequence, an error, or a group name that does not decode)
    /// and the cursor is to be released.
    pub fn on_next(&mut self, res: u32, group: &[u8], nodeid: u32, pid: u32) -> (r: Option<
        CpgIter,
    >)
        requires
            phase_open(old(self)@.phase),
        ensures
            final(self)@.cursor == old(self)@.cursor,
            res == CS_OK && group_text(group@) is Ok ==> r is Some && final(self)@.phase
                == CursorPhase::Active && group_text(group@) == Ok::<Seq<char>, CsError>(
                r->Some_0.group@,
            ) && r->Some_0.nodeid.spec_id() == nodeid && r->Some_0.pid == pid,
            !(res == CS_OK && group_text(group@) is Ok) ==> r is None && final(self)@.phase
                == end_phase(res),
    {
        if res == CS_OK {
            if let Ok(g) = crate::string_from_bytes(group, CPG_NAMELEN_MAX) {
                self.phase = CursorPhase::Active;
                return Some(CpgIter { group: g, nodeid: crate::node_id(nodeid), pid });
            }
        }
        if res == CS_ERR_NO_SECTIONS {
            self.phase = CursorPhase::Exhausted;
        } else {
            self.phase = CursorPhase::Failed;
        }
        None
    }
}

} // verus!
