//! The controller value decoder: converts an incoming controller update,
//! which may be an absolute value or a relative increment depending on
//! the session-wide mode, into the absolute value to publish. Relative
//! decoding applies to low-resolution values only and keeps a last-known
//! absolute value per controller key.

use vstd::prelude::*;
use crate::messages::{ControllerLabel, ControllerLabelView, MidiValue};
use crate::render::{decimal_string, spec_decimal};

verus! {

/// The session-wide interpretation of numeric controller values.
#[derive(Clone, Copy, Debug, PartialEq, Eq, Structural)]
pub enum ControllerValueMode {
    Absolute,
    Relative,
}

/// The key under which a controller's last-known value is stored: the
/// stringified label. Two identical labels on different channels share
/// one key; so would a numbered controller and a special controller
/// whose name is the same digit string, though no special controller is
/// named that way.
pub open spec fn spec_controller_key(label: ControllerLabelView) -> Seq<char> {
    match label {
        ControllerLabelView::Numbered(n) => spec_decimal(n as nat),
        ControllerLabelView::Special(name) => name,
    }
}

/// Derives a controller's key, exactly as `spec_controller_key` states.
pub fn controller_key(label: &ControllerLabel) -> (r: String)
    ensures
        r@ == spec_controller_key(label@),
{
    match label {
        ControllerLabel::Numbered(n) => decimal_string(*n as u64),
        ControllerLabel::Special(name) => name.clone(),
    }
}

/// The table of last-known absolute controller values, keyed by
/// controller key. Its mathematical model is a map from key to value.
pub struct ControllerValueTable {
    entries: Vec<(String, MidiValue)>,
}

impl View for ControllerValueTable {
    type V = Map<Seq<char>, MidiValue>;

    closed spec fn view(&self) -> Map<Seq<char>, MidiValue> {
        entries_map(self.entries@)
    }
}

/// The map that an association list denotes; a later entry would
/// override an earlier one with the same key.
pub closed spec fn entries_map(s: Seq<(String, MidiValue)>) -> Map<Seq<char>, MidiValue>
    decreases s.len(),
{
    if s.len() == 0 {
        Map::empty()
    } else {
        entries_map(s.drop_last()).insert(s.last().0@, s.last().1)
    }
}

/// Keys all distinct: the invariant of the table's entry list.
spec fn unique_keys(s: Seq<(String, MidiValue)>) -> bool {
    forall|i: int, j: int| 0 <= i < j < s.len() ==> s[i].0@ != s[j].0@
}

/// A key that no entry holds is not in the denoted map.
proof fn lemma_entries_map_absent(s: Seq<(String, MidiValue)>, k: Seq<char>)
    requires
        forall|i: int| 0 <= i < s.len() ==> s[i].0@ != k,
    ensures
        !entries_map(s).contains_key(k),
    decreases s.len(),
{
    if s.len() > 0 {
        lemma_entries_map_absent(s.drop_last(), k);
    }
}

/// With distinct keys, the entry holding a key gives its map value.
proof fn lemma_entries_map_found(s: Seq<(String, MidiValue)>, i: int)
    requires
        unique_keys(s),
        0 <= i < s.len(),
    ensures
        entries_map(s).contains_key(s[i].0@),
        entries_map(s)[s[i].0@] == s[i].1,
    decreases s.len(),
{
    if i == s.len() - 1 {
    } else {
        lemma_entries_map_found(s.drop_last(), i);
    }
}

/// With distinct keys, replacing the entry that holds a key denotes the
/// map with that key re-bound.
proof fn lemma_entries_map_update(s: Seq<(String, MidiValue)>, i: int, e: (String, MidiValue))
    requires
        unique_keys(s),
        0 <= i < s.len(),
        e.0@ == s[i].0@,
    ensures
        entries_map(s.update(i, e)) =~= entries_map(s).insert(e.0@, e.1),
    decreases s.len(),
{
    let t = s.update(i, e);
    if i == s.len() - 1 {
        assert(t.drop_last() =~= s.drop_last());
    } else {
        lemma_entries_map_update(s.drop_last(), i, e);
        assert(t.drop_last() =~= s.drop_last().update(i, e));
        assert(s.last().0@ != s[i].0@);
    }
}

/// Appending an entry denotes the map with its key bound.
proof fn lemma_entries_map_push(s: Seq<(String, MidiValue)>, e: (String, MidiValue))
    ensures
        entries_map(s.push(e)) =~= entries_map(s).insert(e.0@, e.1),
{
    assert(s.push(e).drop_last() =~= s);
}

impl ControllerValueTable {
    /// Well-formedness: no two entries share a key.
    pub closed spec fn inv(&self) -> bool {
        unique_keys(self.entries@)
    }

    /// An empty table.
    pub fn new() -> (r: ControllerValueTable)
        ensures
            r.inv(),
            r@ == Map::<Seq<char>, MidiValue>::empty(),
    {
        ControllerValueTable { entries: Vec::new() }
    }

    /// Looks up the last-known value stored under a key.
    pub fn get(&self, key: &String) -> (r: Option<MidiValue>)
        requires
            self.inv(),
        ensures
            match r {
                Some(v) => self@.contains_key(key@) && self@[key@] == v,
                None => !self@.contains_key(key@),
            },
    {
        let n = self.entries.len();
        for i in 0..n
            invariant
                n == self.entries@.len(),
                self.inv(),
                forall|j: int| 0 <= j < i ==> self.entries@[j].0@ != key@,
        {
            if self.entries[i].0.eq(key) {
                proof {
                    lemma_entries_map_found(self.entries@, i as int);
                }
                return Some(self.entries[i].1);
            }
        }
        proof {
            lemma_entries_map_absent(self.entries@, key@);
        }
        None
    }

    /// Stores a value under a key, replacing any previous binding.
    pub fn insert(&mut self, key: String, value: MidiValue)
        requires
            old(self).inv(),
        ensures
            final(self).inv(),
            final(self)@ == old(self)@.insert(key@, value),
    {
        let n = self.entries.len();
        for i in 0..n
            invariant
                n == self.entries@.len(),
                self.inv(),
                self.entries@ == old(self).entries@,
                forall|j: int| 0 <= j < i ==> self.entries@[j].0@ != key@,
        {
            if self.entries[i].0.eq(&key) {
                proof {
                    lemma_entries_map_update(self.entries@, i as int, (key, value));
                }
                self.entries[i] = (key, value);
                return ;
            }
        }
        proof {
            lemma_entries_map_push(self.entries@, (key, value));
            lemma_entries_map_absent(self.entries@, key@);
        }
        self.entries.push((key, value));
    }
}

/// Clamps an integer into the 7-bit controller range.
pub open spec fn spec_clamp_7bit(v: int) -> u8 {
    if v < 0 {
        0
    } else if v > 127 {
        127
    } else {
        v as u8
    }
}

/// The signed increment that a raw 7-bit value denotes in relative
/// mode, by the two's-complement convention over 0..127.
pub open spec fn spec_relative_increment(v: u8) -> int {
    if v < 64 {
        v as int
    } else {
        v as int - 128
    }
}

/// The 7-bit absolute value read back from a stored entry. A stored
/// high-resolution value is truncated to its low byte; the decoder only
/// ever stores low-resolution values, so this is a defensive reading.
pub open spec fn spec_stored_low(prev: MidiValue) -> u8 {
    match prev {
        MidiValue::LowRes(x) => x,
        MidiValue::HighRes(x) => (x % 256) as u8,
    }
}

/// What one decoding step returns and how it changes the table.
///
/// In `Absolute` mode the value passes through and the table is
/// untouched. In `Relative` mode, a high-resolution value also passes
/// through (no relative convention is defined for them); for a
/// low-resolution value, a previously-seen key yields
/// `clamp(previous + increment, 0, 127)`, stored back, while an unseen
/// key is seeded with the raw value, emitted unchanged.
pub open spec fn spec_decode(
    mode: ControllerValueMode,
    known: Map<Seq<char>, MidiValue>,
    label: ControllerLabelView,
    value: MidiValue,
) -> (MidiValue, Map<Seq<char>, MidiValue>) {
    match mode {
        ControllerValueMode::Absolute => (value, known),
        ControllerValueMode::Relative => match value {
            MidiValue::HighRes(_) => (value, known),
            MidiValue::LowRes(x) => {
                let key = spec_controller_key(label);
                if known.contains_key(key) {
                    let prev = spec_stored_low(known[key]);
                    let decoded = spec_clamp_7bit(prev as int + spec_relative_increment(x));
                    (MidiValue::LowRes(decoded), known.insert(key, MidiValue::LowRes(decoded)))
                } else {
                    (value, known.insert(key, value))
                }
            },
        },
    }
}

/// Decodes one controller update, exactly as `spec_decode` states, and
/// updates the table of last-known values in place.
pub fn decode_controller_value(
    mode: &ControllerValueMode,
    known: &mut ControllerValueTable,
    label: &ControllerLabel,
    value: MidiValue,
) -> (r: MidiValue)
    requires
        old(known).inv(),
    ensures
        final(known).inv(),
        r == spec_decode(*mode, old(known)@, label@, value).0,
        final(known)@ == spec_decode(*mode, old(known)@, label@, value).1,
{
    match mode {
        ControllerValueMode::Absolute => value,
        ControllerValueMode::Relative => match value {
            MidiValue::HighRes(_) => value,
            MidiValue::LowRes(x) => {
                let key = controller_key(label);
                match known.get(&key) {
                    Some(prev) => {
                        let prev_low: u8 = match prev {
                            MidiValue::LowRes(p) => p,
                            MidiValue::HighRes(p) => (p % 256) as u8,
                        };
                        let increment: i16 = if x < 64 {
                            x as i16
                        } else {
                            x as i16 - 128
                        };
                        let sum: i16 = prev_low as i16 + increment;
                        let decoded: u8 = if sum < 0 {
                            0
                        } else if sum > 127 {
                            127
                        } else {
                            sum as u8
                        };
                        known.insert(key, MidiValue::LowRes(decoded));
                        MidiValue::LowRes(decoded)
                    },
                    None => {
                        known.insert(key, value);
                        value
                    },
                }
            },
        },
    }
}

/// Law: in relative mode, for a low-resolution raw value `v` and a
/// previously stored absolute value `p`, the decoded value is exactly
/// `clamp(p + (if v < 64 { v } else { v - 128 }), 0, 127)`.
pub proof fn lemma_relative_decode_formula(
    known: Map<Seq<char>, MidiValue>,
    label: ControllerLabelView,
    v: u8,
    p: u8,
)
    requires
        known.contains_key(spec_controller_key(label)),
        known[spec_controller_key(label)] == MidiValue::LowRes(p),
    ensures
        spec_decode(ControllerValueMode::Relative, known, label, MidiValue::LowRes(v)).0
            == MidiValue::LowRes(
            spec_clamp_7bit(
                p + (if v < 64 {
                    v as int
                } else {
                    v as int - 128
                }),
            ),
        ),
{
}

/// Law: the first relative-mode update for a previously-unseen
/// controller key yields exactly the raw input value, unchanged, and
/// seeds the table with it.
pub proof fn lemma_first_touch_bootstrap(
    known: Map<Seq<char>, MidiValue>,
    label: ControllerLabelView,
    v: u8,
)
    requires
        !known.contains_key(spec_controller_key(label)),
    ensures
        spec_decode(ControllerValueMode::Relative, known, label, MidiValue::LowRes(v)).0
            == MidiValue::LowRes(v),
        spec_decode(ControllerValueMode::Relative, known, label, MidiValue::LowRes(v)).1
            == known.insert(spec_controller_key(label), MidiValue::LowRes(v)),
{
}

/// Law: in absolute mode, decoding is the identity on the value and on
/// the table, regardless of prior state.
pub proof fn lemma_absolute_identity(
    known: Map<Seq<char>, MidiValue>,
    label: ControllerLabelView,
    value: MidiValue,
)
    ensures
        spec_decode(ControllerValueMode::Absolute, known, label, value) == (value, known),
{
}

} // verus!
