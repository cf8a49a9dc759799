//! The quorum service: whether the cluster is quorate, with notifications
//! when quorum or the node list changes.
use vstd::prelude::*;

verus! {

use crate::cpg::node_list;
use crate::registry::Registry;
use crate::{CsError, NodeId, Result, CS_OK, error_of};

/// Model 1 session data: flags and the callbacks, whose types are `Q` for
/// quorum changes and `N` for node list changes.
#[derive(Debug, Copy, Clone)]
pub struct Model1Data<Q, N> {
    pub flags: Model1Flags,
    pub quorum_notification_fn: Option<Q>,
    pub nodelist_notification_fn: Option<N>,
}

/// Session model data; only model 1 can open a session.
#[derive(Debug, Copy, Clone)]
pub enum ModelData<Q, N> {
    ModelNone,
    ModelV1(Model1Data<Q, N>),
}

/// Whether a quorum provider is configured on the cluster.
#[derive(Debug, Copy, Clone, PartialEq, Eq, Structural)]
pub enum QuorumType {
    Free,
    QuorumSet,
}

/// Flags for a model 1 session; none are defined yet.
#[derive(Debug, Copy, Clone, PartialEq, Eq, Structural)]
pub enum Model1Flags {
    NoFlags,
}

/// A ring id, as the notifications report it.
#[derive(Debug, Copy, Clone, PartialEq, Eq)]
pub struct RingId {
    pub nodeid: NodeId,
    pub seq: u64,
}

/// A session with the quorum service.
#[derive(Debug, Copy, Clone, PartialEq, Eq, Structural)]
pub struct Handle {
    quorum_handle: u64,
}

impl Handle {
    pub closed spec fn spec_id(&self) -> u64 {
        self.quorum_handle
    }

    /// The native session id.
    pub fn id(&self) -> (r: u64)
        ensures
            r == self.spec_id(),
    {
        self.quorum_handle
    }
}

/// The table of open sessions, by native id, with each session's model
/// data.
pub type Sessions<Q, N> = Registry<ModelData<Q, N>>;

/// The callbacks of a session, if its model data has them.
pub open spec fn callbacks_of<Q, N>(m: ModelData<Q, N>) -> Option<Model1Data<Q, N>> {
    match m {
        ModelData::ModelV1(md) => Some(md),
        ModelData::ModelNone => None,
    }
}

/// Whether a session can be opened with this model data.
pub fn model_supported<Q, N>(model_data: &ModelData<Q, N>) -> (r: bool)
    ensures
        r == model_data is ModelV1,
{
    match model_data {
        ModelData::ModelV1(_) => true,
        _ => false,
    }
}

/// The quorum type that the native value reports: 0 is `Free`, any other
/// value `QuorumSet`.
pub open spec fn quorum_type_of(t: u32) -> QuorumType {
    if t == 0 {
        QuorumType::Free
    } else {
        QuorumType::QuorumSet
    }
}

/// Completes opening a session. Model data other than model 1 fails with
/// [CsError::CsErrInvalidParam] (no session is asked for then); otherwise,
/// on success, the session is recorded with its model data before its
/// handle is handed out with the quorum type.
pub fn initialize<Q: Copy, N: Copy>(
    sessions: &mut Sessions<Q, N>,
    model_data: &ModelData<Q, N>,
    res: u32,
    native_handle: u64,
    quorum_type: u32,
) -> (r: Result<(Handle, QuorumType)>)
    ensures
        !(model_data is ModelV1) ==> r == Err::<(Handle, QuorumType), CsError>(
            CsError::CsErrInvalidParam,
        ) && final(sessions)@ == old(sessions)@,
        model_data is ModelV1 && res == CS_OK ==> r is Ok && r->Ok_0.0.spec_id() == native_handle
            && r->Ok_0.1 == quorum_type_of(quorum_type) && final(sessions)@ == old(
            sessions,
        )@.insert(native_handle, *model_data),
        model_data is ModelV1 && res != CS_OK ==> r == Err::<(Handle, QuorumType), CsError>(
            error_of(res),
        ) && final(sessions)@ == old(sessions)@,
{
    if !model_supported(model_data) {
        return Err(CsError::CsErrInvalidParam);
    }
    if res != CS_OK {
        return Err(CsError::from_c(res));
    }
    let qt = if quorum_type == 0 {
        QuorumType::Free
    } else {
        QuorumType::QuorumSet
    };
    sessions.insert(native_handle, *model_data);
    Ok((Handle { quorum_handle: native_handle }, qt))
}

/// Completes closing a session: on success its entry leaves `sessions`.
pub fn finalize<Q, N>(sessions: &mut Sessions<Q, N>, handle: Handle, res: u32) -> (r: Result<()>)
    ensures
        r == crate::status_result(res),
        res == CS_OK ==> final(sessions)@ == old(sessions)@.remove(handle.spec_id()),
        res != CS_OK ==> final(sessions)@ == old(sessions)@,
{
    let r = crate::check_status(res);
    if res == CS_OK {
        sessions.remove(handle.id());
    }
    r
}

/// Completes a quorate query: 1 is quorate, 0 is not, and any other value
/// is reported as [CsError::CsErrLibrary].
pub fn getquorate(res: u32, quorate: i32) -> (r: Result<bool>)
    ensures
        res != CS_OK ==> r == Err::<bool, CsError>(error_of(res)),
        res == CS_OK ==> r == (if quorate == 1 {
            Ok::<bool, CsError>(true)
        } else if quorate == 0 {
            Ok(false)
        } else {
            Err(CsError::CsErrLibrary)
        }),
{
    if res != CS_OK {
        return Err(CsError::from_c(res));
    }
    match quorate {
        1 => Ok(true),
        0 => Ok(false),
        _ => Err(CsError::CsErrLibrary),
    }
}

/// Whether a list of node ids converts entry by entry from a native list.
pub open spec fn nodes_converted(r: Seq<NodeId>, list: Seq<u32>) -> bool {
    &&& r.len() == list.len()
    &&& forall|i: int| 0 <= i < list.len() ==> (#[trigger] r[i]).spec_id() == list[i]
}

/// Converts native node ids, in order.
pub fn list_to_vec(list: &[u32]) -> (r: Vec<NodeId>)
    ensures
        nodes_converted(r@, list@),
{
    node_list(list)
}

/// A quorum change, resolved and converted, ready for the session's
/// callback.
#[derive(Debug)]
pub struct QuorumChange<Q> {
    pub handle: Handle,
    pub callback: Q,
    pub quorate: bool,
    pub ring_id: RingId,
    pub member_list: Vec<NodeId>,
}

/// Whether a native quorum change reaches a callback: its session is known,
/// its quorate value is 0 or 1, and the session has that callback.
pub open spec fn quorum_delivered<Q, N>(
    sessions: Map<u64, ModelData<Q, N>>,
    handle: u64,
    quorate: u32,
) -> bool {
    &&& sessions.contains_key(handle)
    &&& quorate == 0 || quorate == 1
    &&& callbacks_of(sessions[handle]) is Some
    &&& callbacks_of(sessions[handle])->Some_0.quorum_notification_fn is Some
}

/// Turns a native quorum change into owned values for the session's
/// callback. It is dropped for an unknown session, a session without that
/// callback, and a quorate value other than 0 or 1, which is read as
/// neither.
pub fn quorum_notification_event<Q: Copy, N: Copy>(
    sessions: &Sessions<Q, N>,
    handle: u64,
    quorate: u32,
    ring_nodeid: u32,
    ring_seq: u64,
    member_list: &[u32],
) -> (r: Option<QuorumChange<Q>>)
    ensures
        r is Some <==> quorum_delivered(sessions@, handle, quorate),
        r is Some ==> {
            let q = r->Some_0;
            &&& q.handle.spec_id() == handle
            &&& Some(q.callback) == callbacks_of(sessions@[handle])->Some_0.quorum_notification_fn
            &&& q.quorate == (quorate == 1)
            &&& q.ring_id.nodeid.spec_id() == ring_nodeid
            &&& q.ring_id.seq == ring_seq
            &&& nodes_converted(q.member_list@, member_list@)
        },
{
    let md = match sessions.lookup(handle) {
        Some(ModelData::ModelV1(md)) => *md,
        _ => return None,
    };
    let r_quorate = match quorate {
        0 => false,
        1 => true,
        _ => return None,
    };
    let r_ring_id = RingId { nodeid: crate::node_id(ring_nodeid), seq: ring_seq };
    let r_member_list = list_to_vec(member_list);
    match md.quorum_notification_fn {
        Some(cb) => Some(
            QuorumChange {
                handle: Handle { quorum_handle: handle },
                callback: cb,
                quorate: r_quorate,
                ring_id: r_ring_id,
                member_list: r_member_list,
            },
        ),
        None => None,
    }
}

/// A node list change, resolved and converted, ready for the session's
/// callback.
#[derive(Debug)]
pub struct NodelistChange<N> {
    pub handle: Handle,
    pub callback: N,
    pub ring_id: RingId,
    pub member_list: Vec<NodeId>,
    pub joined_list: Vec<NodeId>,
    pub left_list: Vec<NodeId>,
}

/// Whether a native node list change reaches a callback.
pub open spec fn nodelist_delivered<Q, N>(sessions: Map<u64, ModelData<Q, N>>, handle: u64) -> bool {
    &&& sessions.contains_key(handle)
    &&& callbacks_of(sessions[handle]) is Some
    &&& callbacks_of(sessions[handle])->Some_0.nodelist_notification_fn is Some
}

/// Turns a native node list change into owned values for the session's
/// callback; dropped for an unknown session or one without that callback.
pub fn nodelist_notification_event<Q: Copy, N: Copy>(
    sessions: &Sessions<Q, N>,
    handle: u64,
    ring_nodeid: u32,
    ring_seq: u64,
    member_list: &[u32],
    joined_list: &[u32],
    left_list: &[u32],
) -> (r: Option<NodelistChange<N>>)
    ensures
        r is Some <==> nodelist_delivered(sessions@, handle),
        r is Some ==> {
            let n = r->Some_0;
            &&& n.handle.spec_id() == handle
            &&& Some(n.callback) == callbacks_of(
                sessions@[handle],
            )->Some_0.nodelist_notification_fn
            &&& n.ring_id.nodeid.spec_id() == ring_nodeid
            &&& n.ring_id.seq == ring_seq
            &&& nodes_converted(n.member_list@, member_list@)
            &&& nodes_converted(n.joined_list@, joined_list@)
            &&& nodes_converted(n.left_list@, left_list@)
        },
{
    let md = match sessions.lookup(handle) {
        Some(ModelData::ModelV1(md)) => *md,
        _ => return None,
    };
    let r_ring_id = RingId { nodeid: crate::node_id(ring_nodeid), seq: ring_seq };
    let r_member_list = list_to_vec(member_list);
    let r_joined_list = list_to_vec(joined_list);
    let r_left_list = list_to_vec(left_list);
    match md.nodelist_notification_fn {
        Some(cb) => Some(
            NodelistChange {
                handle: Handle { quorum_handle: handle },
                callback: cb,
                ring_id: r_ring_id,
                member_list: r_member_list,
                joined_list: r_joined_list,
                left_list: r_left_list,
            },
        ),
        None => None,
    }
}

/// Once a session is closed, native notifications that still carry its id
/// are dropped: none reaches a callback.
pub proof fn lemma_closed_session_drops_notifications<Q, N>(
    sessions: Map<u64, ModelData<Q, N>>,
    handle: u64,
    quorate: u32,
)
    ensures
        !quorum_delivered(sessions.remove(handle), handle, quorate),
        !nodelist_delivered(sessions.remove(handle), handle),
{
}

} // verus!
