//! Per-device knob mappings: an ordered list of `(channel, controller)`
//! patterns per device name. The position of the first entry matching an
//! incoming control change is the logical knob index to emit.

use vstd::prelude::*;
use vstd::string::StringExecFns;
use crate::messages::{ControllerLabel, ControllerLabelView};

verus! {

/// One entry of a device's knob mapping list. An entry matches an
/// incoming control change when its controller label equals the
/// event's, tag and value, and, if the entry gives a channel, that
/// channel also equals the event's exactly.
#[derive(Debug)]
pub struct KnobMapping {
    pub channel: Option<u8>,
    pub controller: ControllerLabel,
}

/// Mathematical model of a `KnobMapping`.
pub struct KnobMappingView {
    pub channel: Option<u8>,
    pub controller: ControllerLabelView,
}

impl View for KnobMapping {
    type V = KnobMappingView;

    open spec fn view(&self) -> KnobMappingView {
        KnobMappingView { channel: self.channel, controller: self.controller@ }
    }
}

/// The views of a knob mapping list.
pub open spec fn knobs_view(s: Seq<KnobMapping>) -> Seq<KnobMappingView> {
    s.map_values(|k: KnobMapping| k@)
}

/// A device name together with its knob mapping list.
#[derive(Debug)]
pub struct DeviceWithMapping {
    name: String,
    knobs: Vec<KnobMapping>,
}

/// Mathematical model of a `DeviceWithMapping`.
pub struct DeviceWithMappingView {
    pub name: Seq<char>,
    pub knobs: Seq<KnobMappingView>,
}

impl View for DeviceWithMapping {
    type V = DeviceWithMappingView;

    closed spec fn view(&self) -> DeviceWithMappingView {
        DeviceWithMappingView { name: self.name@, knobs: knobs_view(self.knobs@) }
    }
}

impl DeviceWithMapping {
    /// Binds a knob mapping list to a device name.
    pub fn new(name: String, knobs: Vec<KnobMapping>) -> (r: DeviceWithMapping)
        ensures
            r@.name == name@,
            r@.knobs == knobs_view(knobs@),
    {
        DeviceWithMapping { name, knobs }
    }
}

/// The views of a device mapping table.
pub open spec fn devices_view(s: Seq<DeviceWithMapping>) -> Seq<DeviceWithMappingView> {
    s.map_values(|d: DeviceWithMapping| d@)
}

/// Whether a mapping entry matches an event's channel and controller
/// label: the labels must be equal, tag and value (name comparison is
/// case-sensitive), and an entry that gives a channel also demands
/// exactly that channel.
pub open spec fn spec_knob_matches(
    entry: KnobMappingView,
    channel: u8,
    label: ControllerLabelView,
) -> bool {
    match entry.channel {
        Some(c) => c == channel && entry.controller == label,
        None => entry.controller == label,
    }
}

/// The position of the first mapping entry that matches, if any: the
/// logical knob index.
pub open spec fn spec_resolve_knob(
    knobs: Seq<KnobMappingView>,
    channel: u8,
    label: ControllerLabelView,
) -> Option<int>
    decreases knobs.len(),
{
    if knobs.len() == 0 {
        None
    } else if spec_knob_matches(knobs[0], channel, label) {
        Some(0)
    } else {
        match spec_resolve_knob(knobs.drop_first(), channel, label) {
            Some(i) => Some(i + 1),
            None => None,
        }
    }
}

/// What the resolved index means: it is the first matching position,
/// and absence means nothing matches.
pub proof fn lemma_resolve_knob_characterization(
    knobs: Seq<KnobMappingView>,
    channel: u8,
    label: ControllerLabelView,
)
    ensures
        match spec_resolve_knob(knobs, channel, label) {
            Some(i) => 0 <= i < knobs.len() && spec_knob_matches(knobs[i], channel, label)
                && forall|j: int| 0 <= j < i ==> !spec_knob_matches(knobs[j], channel, label),
            None => forall|j: int|
                0 <= j < knobs.len() ==> !spec_knob_matches(knobs[j], channel, label),
        },
    decreases knobs.len(),
{
    if knobs.len() > 0 && !spec_knob_matches(knobs[0], channel, label) {
        lemma_resolve_knob_characterization(knobs.drop_first(), channel, label);
        assert(forall|j: int|
            1 <= j < knobs.len() ==> knobs[j] == knobs.drop_first()[j - 1]);
    }
}

/// A position that matches, with no match before it, is the resolved
/// index.
proof fn lemma_resolve_knob_first_match(
    knobs: Seq<KnobMappingView>,
    channel: u8,
    label: ControllerLabelView,
    i: int,
)
    requires
        0 <= i < knobs.len(),
        spec_knob_matches(knobs[i], channel, label),
        forall|j: int| 0 <= j < i ==> !spec_knob_matches(knobs[j], channel, label),
    ensures
        spec_resolve_knob(knobs, channel, label) == Some(i),
    decreases knobs.len(),
{
    if i > 0 {
        assert(forall|j: int| 0 <= j < i - 1 ==> knobs.drop_first()[j] == knobs[j + 1]);
        lemma_resolve_knob_first_match(knobs.drop_first(), channel, label, i - 1);
    }
}

/// Law: knob resolution is deterministic. Given the same mapping list,
/// channel, and controller label, the resolved knob index, or its
/// absence, is always identical.
pub proof fn lemma_knob_resolution_deterministic(
    knobs1: Seq<KnobMappingView>,
    knobs2: Seq<KnobMappingView>,
    channel1: u8,
    channel2: u8,
    label1: ControllerLabelView,
    label2: ControllerLabelView,
)
    requires
        knobs1 == knobs2,
        channel1 == channel2,
        label1 == label2,
    ensures
        spec_resolve_knob(knobs1, channel1, label1) == spec_resolve_knob(knobs2, channel2, label2),
{
}

/// Compares two controller labels for equality of tag and value.
pub fn labels_equal(a: &ControllerLabel, b: &ControllerLabel) -> (r: bool)
    ensures
        r == (a@ == b@),
{
    match a {
        ControllerLabel::Numbered(x) => match b {
            ControllerLabel::Numbered(y) => *x == *y,
            ControllerLabel::Special(_) => false,
        },
        ControllerLabel::Special(x) => match b {
            ControllerLabel::Numbered(_) => false,
            ControllerLabel::Special(y) => x.eq(y),
        },
    }
}

/// Finds the logical knob index for a channel and controller label,
/// exactly as `spec_resolve_knob` states.
pub fn resolve_knob(knobs: &Vec<KnobMapping>, channel: u8, label: &ControllerLabel) -> (r: Option<
    usize,
>)
    ensures
        match r {
            Some(i) => spec_resolve_knob(knobs_view(knobs@), channel, label@) == Some(i as int),
            None => spec_resolve_knob(knobs_view(knobs@), channel, label@) is None,
        },
{
    proof {
        lemma_resolve_knob_characterization(knobs_view(knobs@), channel, label@);
    }
    let n = knobs.len();
    for i in 0..n
        invariant
            n == knobs@.len(),
            forall|j: int| 0 <= j < i ==> !spec_knob_matches(knobs_view(knobs@)[j], channel, label@),
    {
        let entry = &knobs[i];
        let label_matches = labels_equal(&entry.controller, label);
        let matched = match entry.channel {
            Some(c) => c == channel && label_matches,
            None => label_matches,
        };
        if matched {
            proof {
                assert(knobs_view(knobs@)[i as int] == knobs@[i as int]@);
                lemma_resolve_knob_first_match(knobs_view(knobs@), channel, label@, i as int);
            }
            return Some(i);
        }
    }
    proof {
        lemma_resolve_knob_characterization(knobs_view(knobs@), channel, label@);
    }
    None
}

/// The error of a mapping lookup for a device the table does not name.
#[derive(Clone, Copy, Debug, PartialEq, Eq, Structural)]
pub enum MappingError {
    DeviceNotFound,
}

/// The position of the first device entry bearing a name, if any.
pub open spec fn spec_find_device(devices: Seq<DeviceWithMappingView>, name: Seq<char>) -> Option<
    int,
>
    decreases devices.len(),
{
    if devices.len() == 0 {
        None
    } else if devices[0].name == name {
        Some(0)
    } else {
        match spec_find_device(devices.drop_first(), name) {
            Some(i) => Some(i + 1),
            None => None,
        }
    }
}

/// What the found position means: it is the first entry bearing the
/// name, and absence means no entry bears it.
pub proof fn lemma_find_device_characterization(
    devices: Seq<DeviceWithMappingView>,
    name: Seq<char>,
)
    ensures
        match spec_find_device(devices, name) {
            Some(i) => 0 <= i < devices.len() && devices[i].name == name && forall|j: int|
                0 <= j < i ==> devices[j].name != name,
            None => forall|j: int| 0 <= j < devices.len() ==> devices[j].name != name,
        },
    decreases devices.len(),
{
    if devices.len() > 0 && devices[0].name != name {
        lemma_find_device_characterization(devices.drop_first(), name);
        assert(forall|j: int|
            1 <= j < devices.len() ==> devices[j] == devices.drop_first()[j - 1]);
    }
}

/// A position that bears the name, with no bearer before it, is the
/// found position.
proof fn lemma_find_device_first_match(
    devices: Seq<DeviceWithMappingView>,
    name: Seq<char>,
    i: int,
)
    requires
        0 <= i < devices.len(),
        devices[i].name == name,
        forall|j: int| 0 <= j < i ==> devices[j].name != name,
    ensures
        spec_find_device(devices, name) == Some(i),
    decreases devices.len(),
{
    if i > 0 {
        assert(forall|j: int| 0 <= j < i - 1 ==> devices.drop_first()[j] == devices[j + 1]);
        lemma_find_device_first_match(devices.drop_first(), name, i - 1);
    }
}

/// A copy of a knob mapping entry with the same model.
fn duplicate_knob(entry: &KnobMapping) -> (r: KnobMapping)
    ensures
        r@ == entry@,
{
    let controller = match &entry.controller {
        ControllerLabel::Numbered(n) => ControllerLabel::Numbered(*n),
        ControllerLabel::Special(s) => ControllerLabel::Special(s.clone()),
    };
    KnobMapping { channel: entry.channel, controller }
}

/// A copy of a knob mapping list with the same model.
fn duplicate_knobs(knobs: &Vec<KnobMapping>) -> (r: Vec<KnobMapping>)
    ensures
        knobs_view(r@) == knobs_view(knobs@),
{
    let n = knobs.len();
    let mut out: Vec<KnobMapping> = Vec::new();
    for i in 0..n
        invariant
            n == knobs@.len(),
            out@.len() == i,
            forall|j: int| 0 <= j < i ==> out@[j]@ == knobs@[j]@,
    {
        out.push(duplicate_knob(&knobs[i]));
    }
    proof {
        assert(knobs_view(out@) =~= knobs_view(knobs@));
    }
    out
}

/// Looks a device's knob mapping list up by its display name: the list
/// of the first entry bearing the name, or `DeviceNotFound` if and only
/// if no entry bears it.
pub fn load_knob_mappings(devices: &Vec<DeviceWithMapping>, name: &str) -> (r: Result<
    Vec<KnobMapping>,
    MappingError,
>)
    ensures
        match r {
            Ok(knobs) => {
                &&& spec_find_device(devices_view(devices@), name@) matches Some(i)
                &&& knobs_view(knobs@) == devices_view(devices@)[i].knobs
            },
            Err(e) => {
                &&& spec_find_device(devices_view(devices@), name@) is None
                &&& e == MappingError::DeviceNotFound
            },
        },
{
    proof {
        lemma_find_device_characterization(devices_view(devices@), name@);
    }
    let wanted = String::from_str(name);
    let n = devices.len();
    for i in 0..n
        invariant
            n == devices@.len(),
            wanted@ == name@,
            forall|j: int| 0 <= j < i ==> devices_view(devices@)[j].name != name@,
    {
        if devices[i].name.eq(&wanted) {
            proof {
                assert(devices_view(devices@)[i as int] == devices@[i as int]@);
                lemma_find_device_first_match(devices_view(devices@), name@, i as int);
            }
            let knobs = duplicate_knobs(&devices[i].knobs);
            proof {
                assert(knobs_view(knobs@) == devices_view(devices@)[i as int].knobs);
            }
            return Ok(knobs);
        }
    }
    proof {
        lemma_find_device_characterization(devices_view(devices@), name@);
    }
    Err(MappingError::DeviceNotFound)
}

} // verus!
