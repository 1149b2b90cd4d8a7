//! The tables of the hub: maps of the `dashmap` crate, filed under names.
//!
//! A `DashMap` lets itself be changed through a shared reference. Here each
//! function that changes one takes it by a mutable reference, so that nothing else
//! can change it meanwhile; what is said of its entries rests on that.

use crate::device::{copy_device, DeviceInfo, DeviceView};
use crate::text::texts;
use dashmap::DashMap;
use vstd::prelude::*;

verus! {

/// `dashmap::DashMap`, a hash map.
#[verifier::external_type_specification]
#[verifier::external_body]
#[verifier::reject_recursive_types(K)]
#[verifier::reject_recursive_types(V)]
#[verifier::reject_recursive_types(S)]
pub struct ExDashMap<K, V, S>(DashMap<K, V, S>);

/// The devices in a `DashMap`, by the text of their key.
pub uninterp spec fn device_entries(m: DashMap<String, DeviceInfo>) -> Map<Seq<char>, DeviceView>;

/// The numbers in a `DashMap`, by the text of their key.
pub uninterp spec fn stream_entries(m: DashMap<String, u64>) -> Map<Seq<char>, u64>;

/// A walk over a map: every key of it once, in some order.
pub open spec fn is_walk<V>(keys: Seq<Seq<char>>, m: Map<Seq<char>, V>) -> bool {
    &&& keys.no_duplicates()
    &&& forall|k: Seq<char>| #[trigger] keys.contains(k) <==> m.contains_key(k)
}

/// The keys of a list of entries.
pub open spec fn entry_keys(entries: Seq<(String, DeviceInfo)>) -> Seq<Seq<char>> {
    entries.map_values(|e: (String, DeviceInfo)| e.0@)
}

/// `DashMap::new`: a map without entries.
#[verifier::external_body]
pub(crate) fn new_devices() -> (r: DashMap<String, DeviceInfo>)
    ensures
        device_entries(r) == (Map::<Seq<char>, DeviceView>::empty()),
{
    DashMap::new()
}

/// `DashMap::insert`: files a value under a key, in place of one that was there.
#[verifier::external_body]
pub(crate) fn insert_device(m: &mut DashMap<String, DeviceInfo>, key: String, device: DeviceInfo)
    ensures
        device_entries(*final(m)) == device_entries(*old(m)).insert(key@, device@),
{
    m.insert(key, device);
}

/// `DashMap::remove`: takes out the entry of a key, where there is one.
#[verifier::external_body]
pub(crate) fn delete_device(m: &mut DashMap<String, DeviceInfo>, key: &str)
    ensures
        device_entries(*final(m)) == device_entries(*old(m)).remove(key@),
{
    m.remove(key);
}

/// `DashMap::get`: the value of a key, where there is one, copied out of the map.
#[verifier::external_body]
pub(crate) fn find_device(m: &DashMap<String, DeviceInfo>, key: &str) -> (r: Option<DeviceInfo>)
    ensures
        r is Some <==> device_entries(*m).contains_key(key@),
        r matches Some(d) ==> d@ == device_entries(*m)[key@],
{
    m.get(key).map(|entry| copy_device(entry.value()))
}

/// `DashMap::iter`: every entry once, in an order that is not told, copied out of
/// the map.
#[verifier::external_body]
pub(crate) fn walk_devices(m: &DashMap<String, DeviceInfo>) -> (r: Vec<(String, DeviceInfo)>)
    ensures
        is_walk(entry_keys(r@), device_entries(*m)),
        forall|i: int|
            0 <= i < r@.len() ==> (#[trigger] r@[i]).1@ == device_entries(*m)[r@[i].0@],
{
    m.iter().map(|entry| (entry.key().clone(), copy_device(entry.value()))).collect()
}

/// `DashMap::new`: a map without entries.
#[verifier::external_body]
pub(crate) fn new_streams() -> (r: DashMap<String, u64>)
    ensures
        stream_entries(r) == (Map::<Seq<char>, u64>::empty()),
{
    DashMap::new()
}

/// `DashMap::insert`: files a value under a key; gives back the one that was there.
#[verifier::external_body]
pub(crate) fn insert_stream(m: &mut DashMap<String, u64>, key: String, channel: u64) -> (r: Option<
    u64,
>)
    ensures
        stream_entries(*final(m)) == stream_entries(*old(m)).insert(key@, channel),
        r == (if stream_entries(*old(m)).contains_key(key@) {
            Some(stream_entries(*old(m))[key@])
        } else {
            None
        }),
{
    m.insert(key, channel)
}

/// `DashMap::remove`: takes out the entry of a key; gives back its value.
#[verifier::external_body]
pub(crate) fn delete_stream(m: &mut DashMap<String, u64>, key: &str) -> (r: Option<u64>)
    ensures
        stream_entries(*final(m)) == stream_entries(*old(m)).remove(key@),
        r == (if stream_entries(*old(m)).contains_key(key@) {
            Some(stream_entries(*old(m))[key@])
        } else {
            None
        }),
{
    m.remove(key).map(|entry| entry.1)
}

/// `DashMap::get`: the value of a key, where there is one.
#[verifier::external_body]
pub(crate) fn find_stream(m: &DashMap<String, u64>, key: &str) -> (r: Option<u64>)
    ensures
        r == (if stream_entries(*m).contains_key(key@) {
            Some(stream_entries(*m)[key@])
        } else {
            None
        }),
{
    m.get(key).map(|entry| *entry.value())
}

/// `DashMap::iter`: every key once, in an order that is not told.
#[verifier::external_body]
pub(crate) fn walk_streams(m: &DashMap<String, u64>) -> (r: Vec<String>)
    ensures
        is_walk(texts(r@), stream_entries(*m)),
{
    m.iter().map(|entry| entry.key().clone()).collect()
}

} // verus!
