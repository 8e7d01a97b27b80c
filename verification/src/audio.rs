//! Audio output devices: the device list the UI offers.
//!
//! The engine (or, before it is up, a platform query) yields raw entries;
//! what the UI shows follows fixed rules: entries without a machine name
//! are dropped, the human-readable description wins over the machine name
//! where present, and an empty list falls back to the single automatic
//! device.

use vstd::prelude::*;

verus! {

/// An audio output device as the UI sees it: the identifier handed back
/// on selection, and the display name.
#[derive(Clone, Debug)]
pub struct AudioDevice {
    pub id: String,
    pub name: String,
}

/// One raw entry of the engine's device-list property.
#[derive(Clone, Debug)]
pub struct DeviceEntry {
    /// The machine name (the value usable as a device identifier).
    pub name: String,
    /// The human-readable description; may be empty.
    pub description: String,
}

/// The display name of a raw entry: its description, unless that is
/// empty, then its machine name.
pub open spec fn spec_display_name(e: DeviceEntry) -> Seq<char> {
    if e.description@.len() == 0 {
        e.name@
    } else {
        e.description@
    }
}

/// What a raw entry list becomes: one `(id, display name)` pair per entry
/// with a non-empty machine name, in order.
pub open spec fn spec_normalized(entries: Seq<DeviceEntry>) -> Seq<(Seq<char>, Seq<char>)>
    decreases entries.len(),
{
    if entries.len() == 0 {
        Seq::empty()
    } else {
        let rest = spec_normalized(entries.drop_last());
        let e = entries.last();
        if e.name@.len() > 0 {
            rest.push((e.name@, spec_display_name(e)))
        } else {
            rest
        }
    }
}

/// The pairs a device list denotes.
pub open spec fn spec_devices_view(devices: Seq<AudioDevice>) -> Seq<(Seq<char>, Seq<char>)> {
    devices.map(|i: int, d: AudioDevice| (d.id@, d.name@))
}

/// Normalize the engine's raw device list for the UI.  An outcome without
/// a single usable entry yields the automatic device instead, so the UI
/// always has something to select.
pub fn normalize_devices(entries: &Vec<DeviceEntry>) -> (r: Vec<AudioDevice>)
    ensures
        spec_normalized(entries@).len() > 0 ==> spec_devices_view(r@) == spec_normalized(
            entries@,
        ),
        spec_normalized(entries@).len() == 0 ==> {
            &&& r@.len() == 1
            &&& r@[0].id@ == "auto"@
            &&& r@[0].name@ == "Default"@
        },
{
    let mut out: Vec<AudioDevice> = Vec::new();
    let n = entries.len();
    let mut i: usize = 0;
    while i < n
        invariant
            i <= n,
            n == entries@.len(),
            spec_devices_view(out@) == spec_normalized(entries@.take(i as int)),
        decreases n - i,
    {
        let e = &entries[i];
        if !e.name.as_str().is_empty() {
            let display = if e.description.as_str().is_empty() {
                e.name.clone()
            } else {
                e.description.clone()
            };
            out.push(AudioDevice { id: e.name.clone(), name: display });
        }
        proof {
            let prefix = entries@.take(i as int);
            let next = entries@.take(i + 1 as int);
            assert(next.drop_last() =~= prefix);
            assert(next.last() == entries@[i as int]);
            assert(spec_devices_view(out@) =~= spec_normalized(next));
        }
        i = i + 1;
    }
    proof {
        assert(entries@.take(n as int) =~= entries@);
    }
    if out.len() == 0 {
        out.push(AudioDevice { id: "auto".to_owned(), name: "Default".to_owned() });
        proof {
            assert(spec_normalized(entries@).len() == 0);
        }
    }
    out
}

/// The portable device enumeration used when the engine is not up and no
/// platform query is available: the single automatic device.
pub fn enumerate_devices() -> (r: Vec<(String, String)>)
    ensures
        r@.len() == 1,
        r@[0].0@ == "auto"@,
        r@[0].1@ == "Default"@,
{
    let mut r: Vec<(String, String)> = Vec::new();
    r.push(("auto".to_owned(), "Default".to_owned()));
    r
}

/// The engine device identifier of a platform audio device: the platform
/// prefix ahead of the device's unique id.
pub fn coreaudio_device_id(uid: &str) -> (r: String)
    ensures
        r@ == "coreaudio/"@ + uid@,
{
    let mut r = "coreaudio/".to_owned();
    r.append(uid);
    r
}

/// The device identifier actually handed to the engine: an empty
/// selection means the automatic device.
pub fn normalize_device_id(id: &str) -> (r: &str)
    ensures
        r@ == if id@.len() == 0 {
            "auto"@
        } else {
            id@
        },
{
    if id.is_empty() {
        "auto"
    } else {
        id
    }
}

} // verus!
