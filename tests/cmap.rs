use std::collections::HashMap;

use rust_corosync::cmap::{
    closes_on_drop, generic_to_cmap, initialize, finalize, iter_prefix, key_request, notify_event, set_number,
    track_add, track_delete, CmapIterStart, IterStep, MapKind, NotifyCallback,
    NotifyValue, Sessions, TrackType, Trackers, ValueRead, CMAP_KEYNAME_MAXLENGTH, INITIAL_SIZE,
    TRACK_ADD, TRACK_MODIFY, TRACK_PREFIX,
};
use rust_corosync::cmap;
use rust_corosync::codec::{ByteOrder, Data, DataType};
use rust_corosync::cursor::CursorPhase;
use rust_corosync::registry::Registry;
use rust_corosync::{CsError, CS_ERR_NO_SECTIONS, CS_OK};

const ORDER: ByteOrder = ByteOrder::Little;
const CS_ERR_NOT_EXIST: u32 = 12;

type Cb = fn(u64) -> u64;

fn bump(x: u64) -> u64 {
    x + 1
}

/// A notification as the daemon would hand it to the bridge.
struct Native {
    track: u64,
    event: i32,
    key: Vec<u8>,
    new_value: NotifyValue,
    old_value: NotifyValue,
    user_data: u64,
}

/// A stand-in for the daemon's store, driven through the library's requests.
struct Store {
    values: HashMap<Vec<u8>, (u32, Vec<u8>)>,
    trackers: Vec<(u64, Vec<u8>, i32, u64)>,
    next_track: u64,
    pending: Vec<Native>,
}

fn strip_nul(key: &[u8]) -> Vec<u8> {
    key[..key.len() - 1].to_vec()
}

impl Store {
    fn new() -> Store {
        Store { values: HashMap::new(), trackers: Vec::new(), next_track: 100, pending: Vec::new() }
    }

    fn put(&mut self, key: &[u8], tag: u32, bytes: &[u8]) -> u32 {
        self.values.insert(strip_nul(key), (tag, bytes.to_vec()));
        CS_OK
    }

    fn fetch(&self, key: &[u8], buf: &mut [u8]) -> (u32, usize, u32) {
        match self.values.get(&strip_nul(key)) {
            None => (CS_ERR_NOT_EXIST, 0, 0),
            Some((tag, bytes)) => {
                let n = bytes.len().min(buf.len());
                buf[..n].copy_from_slice(&bytes[..n]);
                (CS_OK, bytes.len(), *tag)
            }
        }
    }

    fn inc(&mut self, key: &[u8]) -> u32 {
        let k = strip_nul(key);
        let (tag, old) = match self.values.get(&k) {
            Some(v) => v.clone(),
            None => return CS_ERR_NOT_EXIST,
        };
        let v = u32::from_le_bytes([old[0], old[1], old[2], old[3]]) + 1;
        let new = v.to_le_bytes().to_vec();
        self.values.insert(k.clone(), (tag, new.clone()));
        for (id, tkey, ttype, user_data) in &self.trackers {
            if *tkey == k && (ttype & TRACK_MODIFY) != 0 {
                let mut key_buf = vec![0u8; CMAP_KEYNAME_MAXLENGTH + 1];
                key_buf[..k.len()].copy_from_slice(&k);
                self.pending.push(Native {
                    track: *id,
                    event: TRACK_MODIFY,
                    key: key_buf,
                    new_value: NotifyValue { len: 4, value_type: tag, data: new.clone() },
                    old_value: NotifyValue { len: 4, value_type: tag, data: old.clone() },
                    user_data: *user_data,
                });
            }
        }
        CS_OK
    }

    fn track(&mut self, key: &[u8], track_type: i32, user_data: u64) -> u64 {
        self.next_track += 1;
        self.trackers.push((self.next_track, strip_nul(key), track_type, user_data));
        self.next_track
    }
}

fn store_set(store: &mut Store, key: &str, data: &Data) -> Result<(), CsError> {
    let req = cmap::set(key, data, ORDER)?;
    let res = store.put(&req.key, req.value.data_type.to_c(), &req.value.bytes);
    rust_corosync::check_status(res)
}

/// Runs a read to its end; gives its outcome and the number of fetches made.
fn store_get(store: &Store, key: &str) -> (Result<Data, CsError>, usize) {
    let mut read = match ValueRead::new(key) {
        Ok(r) => r,
        Err(e) => return (Err(e), 0),
    };
    let mut fetches = 0;
    loop {
        let mut buf = vec![0u8; read.buffer_size()];
        let (res, size, tag) = store.fetch(read.key(), &mut buf);
        fetches += 1;
        if let Some(r) = read.on_reply(res, size, tag, &buf, ORDER) {
            return (r, fetches);
        }
    }
}

#[test]
fn set_then_get_scenario() {
    let mut store = Store::new();
    store_set(&mut store, "test.x", &Data::UInt32(456)).unwrap();
    assert_eq!(store_get(&store, "test.x").0.unwrap(), Data::UInt32(456));
    store_set(&mut store, "test.s", &Data::String("abc".to_string())).unwrap();
    assert_eq!(store_get(&store, "test.s").0.unwrap(), Data::String("abc".to_string()));
    assert_eq!(store_get(&store, "test.none").0.unwrap_err(), CsError::CsErrNotExist);
}

#[test]
fn modify_tracker_sees_one_increment() {
    let mut store = Store::new();
    let mut sessions: Sessions = Registry::new();
    let mut trackers: Trackers<Cb> = Registry::new();
    let handle = initialize(&mut sessions, CS_OK, 42).unwrap();
    store_set(&mut store, "test.x", &Data::UInt32(456)).unwrap();

    let key = key_request("test.x").unwrap();
    let native_track = store.track(&key, TRACK_MODIFY, 77);
    let cb = NotifyCallback { notify_fn: Some(bump as Cb) };
    let th = track_add(&mut trackers, "test.x", &cb, CS_OK, native_track).unwrap();
    assert_eq!(th.id(), native_track);

    assert_eq!(store.inc(&key_request("test.x").unwrap()), CS_OK);
    assert_eq!(store.pending.len(), 1);
    let ev = &store.pending[0];
    let n = notify_event(
        &sessions, &trackers, handle.id(), ev.track, ev.event, &ev.key, &ev.new_value,
        &ev.old_value, ev.user_data, ORDER,
    )
    .expect("delivered");
    assert_eq!(n.old_value, Data::UInt32(456));
    assert_eq!(n.new_value, Data::UInt32(457));
    assert_eq!(n.key_name, "test.x");
    assert_eq!(n.event.bits(), TRACK_MODIFY);
    assert_eq!(n.user_data, 77);
    assert!(n.handle == handle);
    assert!(!n.handle.owns());
    assert_eq!((n.callback)(1), 2);
    assert_eq!(store_get(&store, "test.x").0.unwrap(), Data::UInt32(457));

    // once the tracker is gone its notifications are dropped
    track_delete(&mut trackers, th, CS_OK).unwrap();
    assert!(notify_event(
        &sessions, &trackers, handle.id(), ev.track, ev.event, &ev.key, &ev.new_value,
        &ev.old_value, ev.user_data, ORDER,
    )
    .is_none());
}

#[test]
fn closed_session_drops_notifications() {
    let mut sessions: Sessions = Registry::new();
    let mut trackers: Trackers<Cb> = Registry::new();
    let handle = initialize(&mut sessions, CS_OK, 5).unwrap();
    assert!(handle.owns());
    assert!(sessions.contains(5));
    track_add(&mut trackers, "a.b", &NotifyCallback { notify_fn: Some(bump as Cb) }, CS_OK, 9).unwrap();
    let v = NotifyValue { len: 1, value_type: DataType::UInt8.to_c(), data: vec![3] };
    let key = b"a.b\0".to_vec();
    assert!(notify_event(&sessions, &trackers, 5, 9, TRACK_ADD, &key, &v, &v, 0, ORDER).is_some());

    finalize(&mut sessions, &handle, CS_OK).unwrap();
    assert!(!sessions.contains(5));
    assert!(notify_event(&sessions, &trackers, 5, 9, TRACK_ADD, &key, &v, &v, 0, ORDER).is_none());
}

#[test]
fn notifications_that_cannot_be_delivered_are_dropped() {
    let mut sessions: Sessions = Registry::new();
    let mut trackers: Trackers<Cb> = Registry::new();
    initialize(&mut sessions, CS_OK, 5).unwrap();
    track_add(&mut trackers, "a.b", &NotifyCallback { notify_fn: Some(bump as Cb) }, CS_OK, 9).unwrap();
    track_add(&mut trackers, "a.b", &NotifyCallback { notify_fn: None }, CS_OK, 10).unwrap();
    let v = NotifyValue { len: 1, value_type: DataType::UInt8.to_c(), data: vec![3] };
    let bad = NotifyValue { len: 3, value_type: DataType::UInt8.to_c(), data: vec![3, 4, 5] };
    let key = b"a.b\0".to_vec();
    // unknown session, unknown tracker, no callback, a value that does not decode
    assert!(notify_event(&sessions, &trackers, 6, 9, TRACK_ADD, &key, &v, &v, 0, ORDER).is_none());
    assert!(notify_event(&sessions, &trackers, 5, 11, TRACK_ADD, &key, &v, &v, 0, ORDER).is_none());
    assert!(notify_event(&sessions, &trackers, 5, 10, TRACK_ADD, &key, &v, &v, 0, ORDER).is_none());
    assert!(notify_event(&sessions, &trackers, 5, 9, TRACK_ADD, &key, &bad, &v, 0, ORDER).is_none());
    assert!(notify_event(&sessions, &trackers, 5, 9, TRACK_ADD, &[0xFF, 0], &v, &v, 0, ORDER).is_none());
}

#[test]
fn failed_open_and_close_leave_the_table_alone() {
    let mut sessions: Sessions = Registry::new();
    assert_eq!(initialize(&mut sessions, 6, 5).unwrap_err(), CsError::CsErrTryAgain);
    assert!(!sessions.contains(5));
    let h = initialize(&mut sessions, CS_OK, 5).unwrap();
    assert_eq!(finalize(&mut sessions, &h, 9).unwrap_err(), CsError::CsErrBadHandle);
    assert!(sessions.contains(5));
    let c = h.clone();
    assert!(c == h);
    assert!(!c.owns());
    assert_eq!(c.id(), 5);
}

#[test]
fn long_key_names_are_refused() {
    let ok = "k".repeat(CMAP_KEYNAME_MAXLENGTH - 1);
    let too_long = "k".repeat(CMAP_KEYNAME_MAXLENGTH);
    assert!(cmap::set(&ok, &Data::UInt8(1), ORDER).is_ok());
    assert_eq!(cmap::set(&too_long, &Data::UInt8(1), ORDER).unwrap_err(), CsError::CsErrInvalidParam);
    assert_eq!(cmap::set(&"k".repeat(300), &Data::UInt8(1), ORDER).unwrap_err(), CsError::CsErrInvalidParam);
    assert_eq!(cmap::set("a\0b", &Data::UInt8(1), ORDER).unwrap_err(), CsError::CsErrInvalidParam);
    assert_eq!(key_request(&too_long).unwrap_err(), CsError::CsErrInvalidParam);
    assert!(ValueRead::new(&too_long).is_err());
    // the store never sees a refused key
    let mut store = Store::new();
    assert!(store_set(&mut store, &too_long, &Data::UInt8(1)).is_err());
    assert!(store.values.is_empty());
    assert_eq!(cmap::set(&ok, &Data::Unknown, ORDER).unwrap_err(), CsError::CsErrInvalidParam);
}

#[test]
fn set_request_holds_key_and_value() {
    let req = cmap::set("test.x", &Data::UInt32(456), ORDER).unwrap();
    assert_eq!(req.key, b"test.x\0".to_vec());
    assert_eq!(req.value.data_type, DataType::UInt32);
    assert_eq!(req.value.length, 4);
    let n = set_number("test.y", -5i16, ORDER).unwrap();
    assert_eq!(n.value.data_type, DataType::Int16);
    assert_eq!(n.value.bytes, vec![0xFB, 0xFF]);
    assert_eq!(generic_to_cmap(7u64), (DataType::UInt64, 8));
    assert_eq!(generic_to_cmap(7i8), (DataType::Int8, 1));
}

#[test]
fn large_value_is_read_with_exactly_one_retry() {
    let mut store = Store::new();
    let big: Vec<u8> = (0..1000u32).map(|i| (i % 251) as u8).collect();
    store_set(&mut store, "test.big", &Data::Binary(big.clone())).unwrap();
    let (r, fetches) = store_get(&store, "test.big");
    assert_eq!(fetches, 2);
    assert_eq!(r.unwrap(), Data::Binary(big));

    let (small, one) = {
        store_set(&mut store, "test.small", &Data::Binary(vec![1; INITIAL_SIZE])).unwrap();
        store_get(&store, "test.small")
    };
    assert_eq!(one, 1);
    assert_eq!(small.unwrap(), Data::Binary(vec![1; INITIAL_SIZE]));
}

#[test]
fn second_oversized_reply_is_an_error() {
    let mut read = ValueRead::new("test.grow").unwrap();
    assert_eq!(read.buffer_size(), INITIAL_SIZE);
    assert_eq!(read.key(), &b"test.grow\0".to_vec());
    assert!(read.on_reply(CS_OK, 300, 12, &[0u8; 256], ORDER).is_none());
    assert_eq!(read.buffer_size(), 300);
    assert!(!read.is_finished());
    let r = read.on_reply(CS_OK, 400, 12, &[0u8; 300], ORDER).unwrap();
    assert_eq!(r.unwrap_err(), CsError::CsErrLibrary);
    assert!(read.is_finished());

    let mut failing = ValueRead::new("test.gone").unwrap();
    let r = failing.on_reply(CS_ERR_NOT_EXIST, 0, 0, &[], ORDER).unwrap();
    assert_eq!(r.unwrap_err(), CsError::CsErrNotExist);
}

#[test]
fn empty_prefix_iteration_ends_at_once() {
    let mut sessions: Sessions = Registry::new();
    let h = initialize(&mut sessions, CS_OK, 3).unwrap();
    assert_eq!(iter_prefix("nothing.").unwrap(), b"nothing.\0".to_vec());
    let start = CmapIterStart::new(&h, CS_OK, 55).unwrap();
    let mut it = start.into_iter();
    assert_eq!(it.phase(), CursorPhase::Created);
    assert!(it.is_open());
    assert_eq!(it.iter_handle(), 55);
    assert_eq!(it.cmap_handle(), 3);
    let key_buf = [0u8; CMAP_KEYNAME_MAXLENGTH + 1];
    assert!(matches!(it.on_next(CS_ERR_NO_SECTIONS, &key_buf), IterStep::Release));
    assert_eq!(it.phase(), CursorPhase::Exhausted);
    assert!(!it.is_open());
}

#[test]
fn iteration_yields_keys_then_releases_on_error() {
    let mut store = Store::new();
    store_set(&mut store, "totem.a", &Data::UInt8(1)).unwrap();
    let mut sessions: Sessions = Registry::new();
    let h = initialize(&mut sessions, CS_OK, 3).unwrap();
    let mut it = CmapIterStart::new(&h, CS_OK, 56).unwrap().into_iter();
    let mut key_buf = [0u8; CMAP_KEYNAME_MAXLENGTH + 1];
    key_buf[..7].copy_from_slice(b"totem.a");
    let item = match it.on_next(CS_OK, &key_buf) {
        IterStep::Fetch(name, mut read) => {
            assert_eq!(name, "totem.a");
            let mut buf = vec![0u8; read.buffer_size()];
            let (res, size, tag) = store.fetch(read.key(), &mut buf);
            let value = read.on_reply(res, size, tag, &buf, ORDER).unwrap();
            it.on_value(name, value).unwrap()
        }
        IterStep::Release => panic!("expected a key"),
    };
    assert_eq!(item.key_name(), "totem.a");
    assert_eq!(item.data(), &Data::UInt8(1));
    assert_eq!(it.phase(), CursorPhase::Active);
    // a failed read ends the enumeration
    assert!(it.on_value("totem.b".to_string(), Err(CsError::CsErrNotExist)).is_none());
    assert_eq!(it.phase(), CursorPhase::Failed);
    assert!(!it.is_open());

    let mut other = CmapIterStart::new(&h, CS_OK, 57).unwrap().into_iter();
    assert!(matches!(other.on_next(6, &key_buf), IterStep::Release));
    assert_eq!(other.phase(), CursorPhase::Failed);
    assert_eq!(CmapIterStart::new(&h, 9, 58).unwrap_err(), CsError::CsErrBadHandle);
}

#[test]
fn track_types_and_maps() {
    let t = TrackType::from_bits(TRACK_MODIFY).union(TrackType::from_bits(TRACK_PREFIX));
    assert_eq!(t.bits(), 10);
    assert!(t.contains(TrackType::from_bits(TRACK_MODIFY)));
    assert!(!t.contains(TrackType::from_bits(TRACK_ADD)));
    assert_eq!(MapKind::Icmap.to_c(), 0);
    assert_eq!(MapKind::Stats.to_c(), 1);
}

#[test]
fn tracker_on_invalid_key_is_refused() {
    let mut trackers: Trackers<Cb> = Registry::new();
    let cb = NotifyCallback { notify_fn: Some(bump as Cb) };
    let long = "k".repeat(CMAP_KEYNAME_MAXLENGTH);
    assert_eq!(track_add(&mut trackers, &long, &cb, CS_OK, 1).unwrap_err(), CsError::CsErrInvalidParam);
    assert_eq!(track_add(&mut trackers, "a\0b", &cb, CS_OK, 2).unwrap_err(), CsError::CsErrInvalidParam);
    assert!(!trackers.contains(1));
    assert!(!trackers.contains(2));
    assert_eq!(track_add(&mut trackers, "a.b", &cb, 9, 3).unwrap_err(), CsError::CsErrBadHandle);
    assert!(!trackers.contains(3));
    let ok = "k".repeat(CMAP_KEYNAME_MAXLENGTH - 1);
    assert_eq!(track_add(&mut trackers, &ok, &cb, CS_OK, 4).unwrap().id(), 4);
    assert!(trackers.contains(4));
}

#[test]
fn only_an_open_owning_handle_closes_on_drop() {
    let mut sessions: Sessions = Registry::new();
    let h = initialize(&mut sessions, CS_OK, 21).unwrap();
    let c = h.clone();
    assert!(closes_on_drop(&sessions, &h));
    assert!(!closes_on_drop(&sessions, &c));
    finalize(&mut sessions, &h, CS_OK).unwrap();
    assert!(!closes_on_drop(&sessions, &h));
}
