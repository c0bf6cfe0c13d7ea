//! The port registry: per-port metadata and last-activity timestamps.
//! Purely observational state; it never affects translation. Timestamps
//! are plain values handed in by the caller, so the registry itself
//! stays clock-free.

use vstd::prelude::*;

verus! {

/// Metadata of one registered input port. `last_received` is the
/// caller-supplied timestamp of the latest event from the port.
#[derive(Debug)]
pub struct PortInformation {
    pub index: usize,
    pub full_name: String,
    pub last_received: u64,
}

/// Mathematical model of a `PortInformation`.
pub struct PortInformationView {
    pub index: usize,
    pub full_name: Seq<char>,
    pub last_received: u64,
}

impl View for PortInformation {
    type V = PortInformationView;

    open spec fn view(&self) -> PortInformationView {
        PortInformationView {
            index: self.index,
            full_name: self.full_name@,
            last_received: self.last_received,
        }
    }
}

/// The views of a port list.
pub open spec fn ports_view(s: Seq<PortInformation>) -> Seq<PortInformationView> {
    s.map_values(|p: PortInformation| p@)
}

/// No two entries register the same port index.
pub open spec fn unique_port_indices(s: Seq<PortInformationView>) -> bool {
    forall|i: int, j: int| 0 <= i < j < s.len() ==> s[i].index != s[j].index
}

/// The position of the first entry registered under a port index.
pub open spec fn spec_port_position(s: Seq<PortInformationView>, index: usize) -> Option<int>
    decreases s.len(),
{
    if s.len() == 0 {
        None
    } else if s[0].index == index {
        Some(0)
    } else {
        match spec_port_position(s.drop_first(), index) {
            Some(i) => Some(i + 1),
            None => None,
        }
    }
}

/// What the found position means: it is the first entry with the
/// index, and absence means the index was never registered.
pub proof fn lemma_port_position_characterization(s: Seq<PortInformationView>, index: usize)
    ensures
        match spec_port_position(s, index) {
            Some(i) => 0 <= i < s.len() && s[i].index == index && forall|j: int|
                0 <= j < i ==> s[j].index != index,
            None => forall|j: int| 0 <= j < s.len() ==> s[j].index != index,
        },
    decreases s.len(),
{
    if s.len() > 0 && s[0].index != index {
        lemma_port_position_characterization(s.drop_first(), index);
        assert(forall|j: int| 1 <= j < s.len() ==> s[j] == s.drop_first()[j - 1]);
    }
}

/// A position that holds the index, with no holder before it, is the
/// found position.
proof fn lemma_port_position_first_match(s: Seq<PortInformationView>, index: usize, i: int)
    requires
        0 <= i < s.len(),
        s[i].index == index,
        forall|j: int| 0 <= j < i ==> s[j].index != index,
    ensures
        spec_port_position(s, index) == Some(i),
    decreases s.len(),
{
    if i > 0 {
        assert(forall|j: int| 0 <= j < i - 1 ==> s.drop_first()[j] == s[j + 1]);
        lemma_port_position_first_match(s.drop_first(), index, i - 1);
    }
}

/// What registering a port does: it creates the entry, or overwrites
/// the one already registered under the index.
pub open spec fn spec_register_port(
    s: Seq<PortInformationView>,
    index: usize,
    full_name: Seq<char>,
    now: u64,
) -> Seq<PortInformationView> {
    let entry = PortInformationView { index, full_name, last_received: now };
    match spec_port_position(s, index) {
        Some(i) => s.update(i, entry),
        None => s.push(entry),
    }
}

/// What touching a port does: every entry registered under the index,
/// one at most, gets the new timestamp; nothing else changes, and in
/// particular no entry is created.
pub open spec fn spec_touch_port(
    s: Seq<PortInformationView>,
    index: usize,
    now: u64,
) -> Seq<PortInformationView> {
    s.map_values(
        |p: PortInformationView|
            if p.index == index {
                PortInformationView { index: p.index, full_name: p.full_name, last_received: now }
            } else {
                p
            },
    )
}

/// The view of a list with one entry replaced.
proof fn lemma_ports_view_update(s: Seq<PortInformation>, i: int, p: PortInformation)
    requires
        0 <= i < s.len(),
    ensures
        ports_view(s.update(i, p)) =~= ports_view(s).update(i, p@),
{
    assert forall|k: int| 0 <= k < s.len() implies ports_view(s.update(i, p))[k] == ports_view(
        s,
    ).update(i, p@)[k] by {
        assert(ports_view(s.update(i, p))[k] == s.update(i, p)[k]@);
    }
}

/// The view of a list with one entry appended.
proof fn lemma_ports_view_push(s: Seq<PortInformation>, p: PortInformation)
    ensures
        ports_view(s.push(p)) =~= ports_view(s).push(p@),
{
    assert forall|k: int| 0 <= k < s.len() + 1 implies ports_view(s.push(p))[k] == ports_view(
        s,
    ).push(p@)[k] by {
        assert(ports_view(s.push(p))[k] == s.push(p)[k]@);
    }
}

/// Creates or overwrites the entry registered under a port index,
/// exactly as `spec_register_port` states.
pub fn register_port(ports: &mut Vec<PortInformation>, index: usize, full_name: String, now: u64)
    ensures
        ports_view(final(ports)@) == spec_register_port(ports_view(old(ports)@), index, full_name@,
            now),
        unique_port_indices(ports_view(old(ports)@)) ==> unique_port_indices(
            ports_view(final(ports)@),
        ),
{
    proof {
        lemma_port_position_characterization(ports_view(ports@), index);
    }
    let entry = PortInformation { index, full_name, last_received: now };
    let ghost entry_view = entry@;
    let n = ports.len();
    for i in 0..n
        invariant
            n == ports@.len(),
            ports@ == old(ports)@,
            entry_view == (PortInformationView {
                index,
                full_name: full_name@,
                last_received: now,
            }),
            entry@ == entry_view,
            forall|j: int| 0 <= j < i ==> ports_view(ports@)[j].index != index,
    {
        if ports[i].index == index {
            proof {
                assert(ports_view(ports@)[i as int] == ports@[i as int]@);
                lemma_port_position_first_match(ports_view(ports@), index, i as int);
            }
            let ghost prev = ports@;
            let slot = &mut ports[i];
            *slot = entry;
            proof {
                assert(ports@ == prev.update(i as int, ports@[i as int]));
                assert(ports@[i as int]@ == entry_view);
                lemma_ports_view_update(prev, i as int, ports@[i as int]);
                assert(ports_view(ports@) =~= spec_register_port(ports_view(old(ports)@), index,
                    full_name@, now));
            }
            return ;
        }
    }
    let ghost prev = ports@;
    ports.push(entry);
    proof {
        lemma_ports_view_push(prev, ports@.last());
        assert(ports@.last()@ == entry_view);
        assert(ports_view(ports@) =~= spec_register_port(ports_view(old(ports)@), index,
            full_name@, now));
    }
}

/// Updates the last-activity timestamp of the entry registered under a
/// port index, exactly as `spec_touch_port` states: a no-op when the
/// index was never registered.
pub fn touch_port(ports: &mut Vec<PortInformation>, index: usize, now: u64)
    ensures
        ports_view(final(ports)@) == spec_touch_port(ports_view(old(ports)@), index, now),
{
    let n = ports.len();
    for i in 0..n
        invariant
            n == ports@.len(),
            ports@.len() == old(ports)@.len(),
            forall|j: int| i <= j < n ==> ports@[j] == old(ports)@[j],
            forall|j: int|
                0 <= j < i ==> ports_view(ports@)[j] == spec_touch_port(
                    ports_view(old(ports)@),
                    index,
                    now,
                )[j],
    {
        let ghost target = spec_touch_port(ports_view(old(ports)@), index, now);
        proof {
            assert(ports_view(old(ports)@)[i as int] == old(ports)@[i as int]@);
            assert(target[i as int] == (if ports_view(old(ports)@)[i as int].index == index {
                PortInformationView {
                    index: ports_view(old(ports)@)[i as int].index,
                    full_name: ports_view(old(ports)@)[i as int].full_name,
                    last_received: now,
                }
            } else {
                ports_view(old(ports)@)[i as int]
            }));
        }
        if ports[i].index == index {
            let name = ports[i].full_name.clone();
            let ghost prev = ports@;
            let slot = &mut ports[i];
            *slot = PortInformation { index, full_name: name, last_received: now };
            proof {
                assert(ports@ == prev.update(i as int, ports@[i as int]));
                lemma_ports_view_update(prev, i as int, ports@[i as int]);
                assert(ports_view(ports@)[i as int] == target[i as int]);
                assert(forall|j: int|
                    0 <= j < i ==> ports_view(ports@)[j] == ports_view(prev)[j]);
            }
        } else {
            proof {
                assert(ports_view(ports@)[i as int] == ports@[i as int]@);
                assert(ports_view(ports@)[i as int] == target[i as int]);
            }
        }
    }
    proof {
        assert(ports_view(ports@) =~= spec_touch_port(ports_view(old(ports)@), index, now));
    }
}

/// Law: touching a port index with no registered entry does not create
/// one; the registry is unchanged.
pub proof fn lemma_touch_never_creates(s: Seq<PortInformationView>, index: usize, now: u64)
    requires
        forall|j: int| 0 <= j < s.len() ==> (#[trigger] s[j]).index != index,
    ensures
        spec_touch_port(s, index, now) == s,
{
    assert(spec_touch_port(s, index, now) =~= s);
}

} // verus!

