//! Playback volumes by nickname.
//!
//! A volume is a single-precision number, held by its bit pattern.

use crate::text::same_text;
use vstd::prelude::*;

verus! {

/// The bit pattern of the volume one, which is 100%.
pub const FULL_VOLUME: u32 = 0x3f80_0000;

/// Whether the volume with this bit pattern is closer to one than the single-precision number
/// nearest to 0.005, which is 10737418 / 2^31.
///
/// Only numbers from one half to below two can be: their exponent fields are 126 and 127, and they
/// are their mantissa `m`, between 2^23 and 2^24, in units of 2^-24 and 2^-23.
pub open spec fn near_full(volume: u32) -> bool {
    let exponent = volume / 0x80_0000;
    let m = 0x80_0000 + volume % 0x80_0000;
    ||| exponent == 126 && 128 * (0x100_0000 - m) < 10737418
    ||| exponent == 127 && 256 * (m - 0x80_0000) < 10737418
}

/// Whether a volume counts as the default, for which nothing is remembered.
pub fn is_default_volume(volume: u32) -> (result: bool)
    ensures
        result == near_full(volume),
{
    0x3f7e_b852 <= volume && volume <= 0x3f80_a3d7
}

/// What a list of names and volumes says of each name; a later entry overrides an earlier one.
pub open spec fn volumes_of(entries: Seq<(String, u32)>) -> Map<Seq<char>, u32>
    decreases entries.len(),
{
    if entries.len() == 0 {
        Map::empty()
    } else {
        volumes_of(entries.drop_last()).insert(entries.last().0@, entries.last().1)
    }
}

/// The volumes that are remembered, by nickname.
#[derive(Debug)]
pub struct VolumeMap {
    pub entries: Vec<(String, u32)>,
}

impl View for VolumeMap {
    type V = Map<Seq<char>, u32>;

    open spec fn view(&self) -> Map<Seq<char>, u32> {
        volumes_of(self.entries@)
    }
}

/// The volumes after one was changed: a default volume is forgotten, any other remembered.
pub open spec fn volume_changed(
    volumes: Map<Seq<char>, u32>,
    name: Seq<char>,
    volume: u32,
) -> Map<Seq<char>, u32> {
    if near_full(volume) {
        volumes.remove(name)
    } else {
        volumes.insert(name, volume)
    }
}

/// The volume that `name` is played at: what is remembered, else one.
pub open spec fn volume_for(volumes: Map<Seq<char>, u32>, name: Seq<char>) -> u32 {
    if volumes.contains_key(name) {
        volumes[name]
    } else {
        FULL_VOLUME
    }
}

impl VolumeMap {
    pub fn new() -> (map: VolumeMap)
        ensures
            map@ == Map::<Seq<char>, u32>::empty(),
    {
        VolumeMap { entries: Vec::new() }
    }

    /// The volume remembered for `name`.
    pub fn get(&self, name: &str) -> (volume: Option<u32>)
        ensures
            volume == (if self@.contains_key(name@) {
                Some(self@[name@])
            } else {
                None
            }),
    {
        let mut i: usize = self.entries.len();
        proof {
            assert(self.entries@.take(i as int) =~= self.entries@);
        }
        while i > 0
            invariant
                i <= self.entries@.len(),
                self@.contains_key(name@) == volumes_of(
                    self.entries@.take(i as int),
                ).contains_key(name@),
                self@[name@] == volumes_of(self.entries@.take(i as int))[name@],
            decreases i,
        {
            let ghost upper = self.entries@.take(i as int);
            i = i - 1;
            proof {
                assert(upper.drop_last() =~= self.entries@.take(i as int));
                assert(upper.last() == self.entries@[i as int]);
            }
            if same_text(self.entries[i].0.as_str(), name) {
                return Some(self.entries[i].1);
            }
        }
        None
    }

    /// The volume `name` is played at.
    pub fn level(&self, name: &str) -> (volume: u32)
        ensures
            volume == volume_for(self@, name@),
    {
        match self.get(name) {
            Some(volume) => volume,
            None => FULL_VOLUME,
        }
    }

    /// Forgets the volume of `name`.
    pub fn remove(&mut self, name: &str)
        ensures
            final(self)@ == old(self)@.remove(name@),
    {
        let mut kept: Vec<(String, u32)> = Vec::new();
        let n: usize = self.entries.len();
        let mut i: usize = 0;
        proof {
            assert(volumes_of(kept@) =~= volumes_of(self.entries@.take(0)).remove(name@));
        }
        while i < n
            invariant
                n == self.entries@.len(),
                i <= n,
                volumes_of(kept@) == volumes_of(self.entries@.take(i as int)).remove(name@),
            decreases n - i,
        {
            let ghost before = kept@;
            let ghost upper = self.entries@.take(i + 1);
            proof {
                assert(upper.drop_last() =~= self.entries@.take(i as int));
                assert(upper.last() == self.entries@[i as int]);
            }
            if !same_text(self.entries[i].0.as_str(), name) {
                kept.push((self.entries[i].0.clone(), self.entries[i].1));
                proof {
                    assert(kept@.drop_last() =~= before);
                    assert(volumes_of(kept@) =~= volumes_of(upper).remove(name@));
                }
            } else {
                proof {
                    assert(volumes_of(kept@) =~= volumes_of(upper).remove(name@));
                }
            }
            i = i + 1;
        }
        proof {
            assert(self.entries@.take(n as int) =~= self.entries@);
        }
        self.entries = kept;
    }

    /// Remembers a volume for `name` in place of any earlier one.
    pub fn insert(&mut self, name: &str, volume: u32)
        ensures
            final(self)@ == old(self)@.insert(name@, volume),
    {
        self.remove(name);
        let ghost before = self.entries@;
        self.entries.push((name.to_owned(), volume));
        proof {
            assert(self.entries@.drop_last() =~= before);
            assert(self@ =~= old(self)@.insert(name@, volume));
        }
    }

    /// Applies a change of volume: a default volume is forgotten, any other remembered.
    pub fn change(&mut self, name: &str, volume: u32)
        ensures
            final(self)@ == volume_changed(old(self)@, name@, volume),
    {
        if is_default_volume(volume) {
            self.remove(name);
        } else {
            self.insert(name, volume);
        }
    }
}

impl Clone for VolumeMap {
    fn clone(&self) -> (map: VolumeMap)
        ensures
            map@ == self@,
    {
        let mut entries: Vec<(String, u32)> = Vec::new();
        let n: usize = self.entries.len();
        let mut i: usize = 0;
        while i < n
            invariant
                n == self.entries@.len(),
                i <= n,
                volumes_of(entries@) == volumes_of(self.entries@.take(i as int)),
            decreases n - i,
        {
            let ghost before = entries@;
            let ghost upper = self.entries@.take(i + 1);
            entries.push((self.entries[i].0.clone(), self.entries[i].1));
            proof {
                assert(entries@.drop_last() =~= before);
                assert(upper.drop_last() =~= self.entries@.take(i as int));
            }
            i = i + 1;
        }
        proof {
            assert(self.entries@.take(n as int) =~= self.entries@);
        }
        VolumeMap { entries }
    }
}

/// A changed volume is what its name is played at from then on: exactly, or, when it counts as the
/// default, at one. Every other name is played as before.
pub proof fn changed_volume_is_played(
    volumes: Map<Seq<char>, u32>,
    name: Seq<char>,
    volume: u32,
    other: Seq<char>,
)
    ensures
        volume_for(volume_changed(volumes, name, volume), name) == (if near_full(volume) {
            FULL_VOLUME
        } else {
            volume
        }),
        other != name ==> volume_for(volume_changed(volumes, name, volume), other) == volume_for(
            volumes,
            other,
        ),
{
}

/// The default volumes are an interval about one: those whose bit patterns lie between that of the
/// smallest and that of the largest single-precision number closer to one than 0.005.
pub proof fn default_volumes_lie_about_one(volume: u32)
    ensures
        near_full(volume) <==> 0x3f7e_b852 <= volume <= 0x3f80_a3d7,
        near_full(FULL_VOLUME),
        FULL_VOLUME == 0x3f80_0000,
{
}

/// A list remembers a volume for exactly the names in it, and for each that of its last entry.
pub proof fn last_entry_of_a_name_counts(entries: Seq<(String, u32)>, i: int)
    requires
        0 <= i < entries.len(),
        forall|j: int| i < j < entries.len() ==> (#[trigger] entries[j]).0@ != entries[i].0@,
    ensures
        volumes_of(entries).contains_key(entries[i].0@),
        volumes_of(entries)[entries[i].0@] == entries[i].1,
    decreases entries.len(),
{
    if i < entries.len() - 1 {
        let rest = entries.drop_last();
        assert forall|j: int| i < j < rest.len() implies (#[trigger] rest[j]).0@ != rest[i].0@ by {
            assert(rest[j] == entries[j]);
        }
        last_entry_of_a_name_counts(rest, i);
        assert(entries[entries.len() - 1].0@ != entries[i].0@);
    }
}

/// A name that is not in a list has no volume remembered.
pub proof fn other_names_have_no_volume(entries: Seq<(String, u32)>, name: Seq<char>)
    requires
        forall|i: int| 0 <= i < entries.len() ==> (#[trigger] entries[i]).0@ != name,
    ensures
        !volumes_of(entries).contains_key(name),
    decreases entries.len(),
{
    if entries.len() > 0 {
        let rest = entries.drop_last();
        assert forall|i: int| 0 <= i < rest.len() implies (#[trigger] rest[i]).0@ != name by {
            assert(rest[i] == entries[i]);
        }
        other_names_have_no_volume(rest, name);
        assert(entries[entries.len() - 1].0@ != name);
    }
}

/// Changing a volume remembers it for its name, or forgets the name where the volume is about one;
/// every other name keeps what it has. A name without a volume is played at one.
pub proof fn change_is_remembered_for_the_name(
    volumes: Map<Seq<char>, u32>,
    name: Seq<char>,
    volume: u32,
    other: Seq<char>,
)
    ensures
        ({
            let changed = volume_changed(volumes, name, volume);
            let default = 0x3f7e_b852 <= volume <= 0x3f80_a3d7;
            &&& changed.contains_key(name) <==> !default
            &&& !default ==> changed[name] == volume && volume_for(changed, name) == volume
            &&& default ==> volume_for(changed, name) == 0x3f80_0000
            &&& other != name ==> {
                &&& changed.contains_key(other) <==> volumes.contains_key(other)
                &&& volumes.contains_key(other) ==> changed[other] == volumes[other]
                    && volume_for(changed, other) == volumes[other]
                &&& !volumes.contains_key(other) ==> volume_for(changed, other) == 0x3f80_0000
            }
        }),
{
}

/// The volumes remembered are those that the list says.
pub proof fn volumes_are_seen_as_listed(map: VolumeMap)
    ensures
        map@ == volumes_of(map.entries@),
{
}

} // verus!
