//! The concurrent maps of the device manager, `dashmap::DashMap`, and the
//! few operations its logic makes on them.
//!
//! The contents of each map are named by a spec function; every operation
//! states its effect on them. A `&mut` borrow of the map excludes any other
//! access during the call, so the contents seen before and after are
//! exactly those of the call.
use vstd::prelude::*;

use dashmap::DashMap;

use crate::device::ButtplugDevice;
use crate::device_manager::DeviceUserConfig;

verus! {

#[verifier::external_type_specification]
#[verifier::external_body]
#[verifier::reject_recursive_types(K)]
#[verifier::reject_recursive_types(V)]
#[verifier::reject_recursive_types(S)]
pub struct ExDashMap<K, V, S>(DashMap<K, V, S>);

/// What a map of comm managers holds: each name with its scanning state.
pub uninterp spec fn comm_manager_contents(m: DashMap<String, bool>) -> Map<Seq<char>, bool>;

/// What a device map holds: each device by its index.
pub uninterp spec fn device_map_contents(m: DashMap<u32, ButtplugDevice>) -> Map<u32, ButtplugDevice>;

/// What a user config map holds: each config by its device address.
pub uninterp spec fn user_config_contents(m: DashMap<String, DeviceUserConfig>) -> Map<
    Seq<char>,
    DeviceUserConfig,
>;

/// Relies on `DashMap::new`: a new map is empty.
#[verifier::external_body]
pub(crate) fn comm_map_new() -> (r: DashMap<String, bool>)
    ensures
        comm_manager_contents(r).dom() == Set::<Seq<char>>::empty(),
{
    DashMap::new()
}

/// Relies on `DashMap::insert`: the key then maps to the value, other keys
/// are untouched.
#[verifier::external_body]
pub(crate) fn comm_map_insert(m: &mut DashMap<String, bool>, name: String, scanning: bool)
    ensures
        comm_manager_contents(*final(m)) == comm_manager_contents(*old(m)).insert(name@, scanning),
{
    m.insert(name, scanning);
}

/// Relies on `DashMap::get`: the value of the key, if present.
#[verifier::external_body]
pub(crate) fn comm_map_get(m: &DashMap<String, bool>, name: &str) -> (r: Option<bool>)
    ensures
        r.is_some() <==> comm_manager_contents(*m).contains_key(name@),
        r.is_some() ==> r.unwrap() == comm_manager_contents(*m)[name@],
{
    m.get(name).map(|e| *e.value())
}

/// Relies on `DashMap::iter`: each entry is visited once; the keys come
/// in no particular order.
#[verifier::external_body]
pub(crate) fn comm_map_names(m: &DashMap<String, bool>) -> (r: Vec<String>)
    ensures
        r@.map_values(|s: String| s@).no_duplicates(),
        r@.map_values(|s: String| s@).to_set() == comm_manager_contents(*m).dom(),
{
    m.iter().map(|e| e.key().clone()).collect()
}

/// Relies on `DashMap::new`: a new map is empty.
#[verifier::external_body]
pub(crate) fn device_map_new() -> (r: DashMap<u32, ButtplugDevice>)
    ensures
        device_map_contents(r).dom() == Set::<u32>::empty(),
{
    DashMap::new()
}

/// Relies on `DashMap::insert`: the key then maps to the value, other keys
/// are untouched.
#[verifier::external_body]
pub(crate) fn device_map_insert(m: &mut DashMap<u32, ButtplugDevice>, index: u32, device: ButtplugDevice)
    ensures
        device_map_contents(*final(m)) == device_map_contents(*old(m)).insert(index, device),
{
    m.insert(index, device);
}

/// Relies on `DashMap::remove`: the entry of the key leaves the map and
/// its value is handed back.
#[verifier::external_body]
pub(crate) fn device_map_remove(m: &mut DashMap<u32, ButtplugDevice>, index: u32) -> (r: Option<ButtplugDevice>)
    ensures
        device_map_contents(*final(m)) == device_map_contents(*old(m)).remove(index),
        r.is_some() <==> device_map_contents(*old(m)).contains_key(index),
        r.is_some() ==> r.unwrap() == device_map_contents(*old(m))[index],
{
    m.remove(&index).map(|(_, d)| d)
}

/// Relies on `DashMap::iter`: each entry is visited once; the keys come
/// in no particular order.
#[verifier::external_body]
pub(crate) fn device_map_indices(m: &DashMap<u32, ButtplugDevice>) -> (r: Vec<u32>)
    ensures
        r@.no_duplicates(),
        r@.to_set() == device_map_contents(*m).dom(),
{
    m.iter().map(|e| *e.key()).collect()
}

/// Relies on `DashMap::new`: a new map is empty.
#[verifier::external_body]
pub(crate) fn user_config_map_new() -> (r: DashMap<String, DeviceUserConfig>)
    ensures
        user_config_contents(r).dom() == Set::<Seq<char>>::empty(),
{
    DashMap::new()
}

/// Relies on `DashMap::insert`: the key then maps to the value, other keys
/// are untouched.
#[verifier::external_body]
pub(crate) fn user_config_map_insert(m: &mut DashMap<String, DeviceUserConfig>, address: String, config: DeviceUserConfig)
    ensures
        user_config_contents(*final(m)) == user_config_contents(*old(m)).insert(address@, config),
{
    m.insert(address, config);
}

/// Relies on `DashMap::remove`: the entry of the key leaves the map and
/// its value is handed back.
#[verifier::external_body]
pub(crate) fn user_config_map_remove(m: &mut DashMap<String, DeviceUserConfig>, address: &str) -> (r: Option<
    DeviceUserConfig,
>)
    ensures
        user_config_contents(*final(m)) == user_config_contents(*old(m)).remove(address@),
        r.is_some() <==> user_config_contents(*old(m)).contains_key(address@),
        r.is_some() ==> r.unwrap() == user_config_contents(*old(m))[address@],
{
    m.remove(address).map(|(_, c)| c)
}

/// Relies on `DashMap::get`: the allow and deny flags of the address's
/// config, if there is one.
#[verifier::external_body]
pub(crate) fn user_config_map_flags(m: &DashMap<String, DeviceUserConfig>, address: &str) -> (r: Option<
    (Option<bool>, Option<bool>),
>)
    ensures
        r.is_some() <==> user_config_contents(*m).contains_key(address@),
        r.is_some() ==> r.unwrap() == (
            user_config_contents(*m)[address@].spec_allow(),
            user_config_contents(*m)[address@].spec_deny(),
        ),
{
    m.get(address).map(|e| (e.value().allow, e.value().deny))
}

/// Relies on `DashMap::get`: the display name of the address's config, if
/// there is one (`String::clone` copies the text).
#[verifier::external_body]
pub(crate) fn user_config_map_display_name(m: &DashMap<String, DeviceUserConfig>, address: &str) -> (r: Option<
    Option<String>,
>)
    ensures
        r.is_some() <==> user_config_contents(*m).contains_key(address@),
        r.is_some() ==> r.unwrap() == user_config_contents(*m)[address@].spec_display_name(),
{
    m.get(address).map(|e| e.value().display_name.clone())
}

/// Relies on `DashMap::iter`: each entry is visited once; the keys come
/// in no particular order.
#[verifier::external_body]
pub(crate) fn user_config_map_addresses(m: &DashMap<String, DeviceUserConfig>) -> (r: Vec<String>)
    ensures
        r@.map_values(|s: String| s@).to_set() == user_config_contents(*m).dom(),
{
    m.iter().map(|e| e.key().clone()).collect()
}

} // verus!
