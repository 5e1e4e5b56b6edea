//! The material that the host shares with the sky, and the record of its
//! writes.

use vstd::prelude::*;
use crate::material::AtmosphereMat;

verus! {

/// How many versions there are before they come round again.
pub open spec fn version_count() -> int {
    0x1_0000_0000_0000_0000
}

/// What a shared material holds: its value, and a version that every write
/// moves on.
pub struct SharedMaterialView {
    pub value: AtmosphereMat,
    pub version: u64,
}

impl SharedMaterialView {
    /// The version after `version`. It wraps, and never stays where it was.
    pub open spec fn next_version(version: u64) -> u64 {
        if version == u64::MAX {
            0
        } else {
            (version + 1) as u64
        }
    }

    /// The shared material after `value` was written to it.
    pub open spec fn written(self, value: AtmosphereMat) -> SharedMaterialView {
        SharedMaterialView { value, version: Self::next_version(self.version) }
    }

    /// The shared material after each of `values` was written to it, first
    /// to last.
    pub open spec fn written_all(self, values: Seq<AtmosphereMat>) -> SharedMaterialView
        decreases values.len(),
    {
        if values.len() == 0 {
            self
        } else {
            self.written_all(values.drop_last()).written(values.last())
        }
    }

    /// Whether the material was written since a reader last looked: the
    /// reader saw nothing yet, or saw another version.
    pub open spec fn changed_since(self, seen: Option<u64>) -> bool {
        seen != Some(self.version)
    }
}

/// The version after `version`: one more, and zero after the last.
pub fn next_version(version: u64) -> (next: u64)
    ensures
        next == SharedMaterialView::next_version(version),
        next != version,
{
    if version == u64::MAX {
        0
    } else {
        version + 1
    }
}

/// The one material that the host owns and edits, and that the sky copies
/// from. The sky only reads it.
///
/// A reader learns of a write from the version, not from the value: writing
/// the value that is already there counts as a change, and a reader that
/// remembers the version it saw is told of each write once.
#[derive(Clone, Copy, Debug)]
pub struct SharedMaterial {
    value: AtmosphereMat,
    version: u64,
}

impl View for SharedMaterial {
    type V = SharedMaterialView;

    closed spec fn view(&self) -> SharedMaterialView {
        SharedMaterialView { value: self.value, version: self.version }
    }
}

impl SharedMaterial {
    /// A shared material that holds `value`, at version zero.
    pub fn new(value: AtmosphereMat) -> (shared: SharedMaterial)
        ensures
            shared@ == (SharedMaterialView { value, version: 0 }),
    {
        SharedMaterial { value, version: 0 }
    }

    /// The value that was last written.
    pub fn get(&self) -> (value: &AtmosphereMat)
        ensures
            *value == self@.value,
    {
        &self.value
    }

    /// The version of the last write.
    pub fn version(&self) -> (version: u64)
        ensures
            version == self@.version,
    {
        self.version
    }

    /// Writes `value`. The version moves on, also where the value is the
    /// one that was there.
    pub fn set(&mut self, value: AtmosphereMat)
        ensures
            final(self)@ == old(self)@.written(value),
            final(self)@.version != old(self)@.version,
    {
        self.value = value;
        self.version = next_version(self.version);
    }

    /// Takes note of what a host shows that tells of its writes by a signal
    /// of its own: `value` is what the host's material holds now, `changed`
    /// whether the host has written it since it last showed it. A write is
    /// recorded as one; without one nothing changes.
    pub fn record(&mut self, value: &AtmosphereMat, changed: bool)
        ensures
            final(self)@ == if changed {
                old(self)@.written(*value)
            } else {
                old(self)@
            },
    {
        if changed {
            self.set(*value);
        }
    }

    /// Whether the material was written since the reader that remembers
    /// `seen` last looked.
    pub fn is_changed_since(&self, seen: Option<u64>) -> (changed: bool)
        ensures
            changed == self@.changed_since(seen),
    {
        match seen {
            None => true,
            Some(version) => version != self.version,
        }
    }
}

/// After some writes the shared material holds the last value written, and
/// its version has moved on by their number, coming round after the last
/// version. So a reader that saw the material before the writes finds it
/// changed, unless the writes were so many that the version came round to
/// where it was.
pub proof fn lemma_written_all(shared: SharedMaterialView, values: Seq<AtmosphereMat>)
    ensures
        shared.written_all(values).version == (shared.version + values.len()) % version_count(),
        values.len() > 0 ==> shared.written_all(values).value == values.last(),
        0 < values.len() < version_count() ==> shared.written_all(values).changed_since(
            Some(shared.version),
        ),
    decreases values.len(),
{
    let m = version_count();
    let v = shared.version as int;
    let n = values.len() as int;
    if n == 0 {
        assert(v % m == v) by (nonlinear_arith)
            requires
                0 <= v < m,
                m > 0,
        ;
    } else {
        lemma_written_all(shared, values.drop_last());
        let before = shared.written_all(values.drop_last()).version as int;
        assert(before == (v + n - 1) % m);
        assert(SharedMaterialView::next_version(before as u64) == (before + 1) % m) by {
            if before == m - 1 {
                assert((before + 1) % m == 0) by (nonlinear_arith)
                    requires
                        before + 1 == m,
                        m > 0,
                ;
            } else {
                assert((before + 1) % m == before + 1) by (nonlinear_arith)
                    requires
                        0 <= before + 1 < m,
                ;
            }
        }
        assert(((v + n - 1) % m + 1) % m == (v + n) % m) by (nonlinear_arith)
            requires
                m > 0,
        ;
        if n < m {
            assert((v + n) % m != v) by (nonlinear_arith)
                requires
                    0 <= v < m,
                    0 < n < m,
            ;
        }
    }
}

} // verus!
