//! When a layer thumbnail in the Layers panel can be reused.
//!
//! Every edit bumps an epoch and stamps the layers it touched with it. A
//! thumbnail remembers the stamp its layer had when it was drawn, and is
//! reused only while the stamp is unchanged. A structural change — a layer
//! added, removed or moved — can touch any layer, so it forgets every stamp
//! and every thumbnail at once. The stamps are kept in `ahash` maps keyed by
//! layer id; a layer's mask thumbnail is keyed by the id with its top bit set.

use vstd::prelude::*;
use ahash::{AHashMap, RandomState};
use crate::layers::LayerId;

verus! {

#[verifier::external_type_specification]
#[verifier::external_body]
#[verifier::reject_recursive_types(K)]
#[verifier::reject_recursive_types(V)]
#[verifier::reject_recursive_types(S)]
pub struct ExAHashMap<K, V, S>(AHashMap<K, V, S>);

#[verifier::external_type_specification]
#[verifier::external_body]
pub struct ExRandomState(RandomState);

/// What an `AHashMap<u64, u64>` holds, key by key.
pub uninterp spec fn stamps(m: AHashMap<u64, u64>) -> Map<u64, u64>;

/// `AHashMap::new`: a map holding nothing.
#[verifier::external_body]
fn stamps_new() -> (m: AHashMap<u64, u64>)
    ensures
        forall|k: u64| !#[trigger] stamps(m).contains_key(k),
{
    AHashMap::new()
}

/// `AHashMap::get`: the value stored under `key`, if any.
#[verifier::external_body]
fn stamps_get(m: &AHashMap<u64, u64>, key: u64) -> (r: Option<u64>)
    ensures
        r == if stamps(*m).contains_key(key) { Some(stamps(*m)[key]) } else { None::<u64> },
{
    m.get(&key).copied()
}

/// `AHashMap::insert`: stores `value` under `key`, replacing what was there.
#[verifier::external_body]
fn stamps_insert(m: &mut AHashMap<u64, u64>, key: u64, value: u64)
    ensures
        stamps(*final(m)) == stamps(*old(m)).insert(key, value),
{
    m.insert(key, value);
}

/// `HashMap::clear`, reached through `AHashMap`'s `DerefMut`: empties the map.
#[verifier::external_body]
fn stamps_clear(m: &mut AHashMap<u64, u64>)
    ensures
        forall|k: u64| !#[trigger] stamps(*final(m)).contains_key(k),
{
    m.clear();
}

/// The bit that marks a thumbnail key as a mask's. Layer ids are small
/// counters, so the bit is never otherwise in use.
pub const MASK_THUMB_BIT: u64 = 0x8000_0000_0000_0000;

/// The key a layer's mask thumbnail is cached under.
pub fn mask_key(id: LayerId) -> (k: u64)
    ensures
        k == (id.0 | MASK_THUMB_BIT),
{
    id.0 | MASK_THUMB_BIT
}

/// The stamps, as values.
pub struct StampsView {
    /// Bumped by every edit.
    pub epoch: nat,
    /// For each layer, the epoch of the last edit that touched it.
    pub touched: Map<u64, u64>,
    /// For each cached thumbnail, the stamp its layer had when it was drawn.
    pub drawn: Map<u64, u64>,
}

impl StampsView {
    /// The stamp a thumbnail of layer `id` must carry to be current: the epoch
    /// of the last edit that touched it, or 0 if none has since the stamps
    /// were last forgotten.
    pub open spec fn wanted(self, id: LayerId) -> u64 {
        if self.touched.contains_key(id.0) { self.touched[id.0] } else { 0 }
    }

    /// Whether the thumbnail cached under `key`, a picture of layer `id`, can
    /// be shown as it is.
    pub open spec fn fresh(self, key: u64, id: LayerId) -> bool {
        self.drawn.contains_key(key) && self.drawn[key] == self.wanted(id)
    }

    /// No stamp is ahead of the epoch.
    pub open spec fn well_formed(self) -> bool {
        &&& forall|k: u64| #[trigger] self.touched.contains_key(k) ==> self.touched[k] <= self.epoch
        &&& forall|k: u64| #[trigger] self.drawn.contains_key(k) ==> self.drawn[k] <= self.epoch
    }
}

/// Whether `layers` names the layer with id `k`.
pub open spec fn names(layers: Seq<LayerId>, k: u64) -> bool {
    exists|i: int| 0 <= i < layers.len() && layers[i].0 == k
}

/// The stamps after an edit that touched `layers`; `structure` says it may
/// have moved any layer, which forgets every stamp.
pub open spec fn after_edit(v: StampsView, layers: Seq<LayerId>, structure: bool) -> StampsView {
    if structure {
        StampsView { epoch: v.epoch + 1, touched: Map::empty(), drawn: Map::empty() }
    } else {
        StampsView {
            epoch: v.epoch + 1,
            touched: Map::new(
                |k: u64| v.touched.contains_key(k) || names(layers, k),
                |k: u64| if names(layers, k) { (v.epoch + 1) as u64 } else { v.touched[k] },
            ),
            drawn: v.drawn,
        }
    }
}

/// The stamps after a thumbnail of `id` is drawn and cached under `key`.
pub open spec fn after_drawn(v: StampsView, key: u64, id: LayerId) -> StampsView {
    StampsView { epoch: v.epoch, touched: v.touched, drawn: v.drawn.insert(key, v.wanted(id)) }
}

/// The stamps after everything is marked for redrawing.
pub open spec fn after_invalidate(v: StampsView) -> StampsView {
    StampsView { epoch: v.epoch + 1, touched: v.touched, drawn: Map::empty() }
}

/// The stamps behind the Layers panel's thumbnails.
pub struct ThumbStamps {
    epoch: u64,
    touched: AHashMap<u64, u64>,
    drawn: AHashMap<u64, u64>,
}

impl View for ThumbStamps {
    type V = StampsView;

    closed spec fn view(&self) -> StampsView {
        StampsView { epoch: self.epoch as nat, touched: stamps(self.touched), drawn: stamps(self.drawn) }
    }
}

impl ThumbStamps {
    pub fn new() -> (s: ThumbStamps)
        ensures
            s@.well_formed(),
            s@ == (StampsView { epoch: 1, touched: Map::empty(), drawn: Map::empty() }),
    {
        let s = ThumbStamps { epoch: 1, touched: stamps_new(), drawn: stamps_new() };
        assert(s@.touched =~= Map::<u64, u64>::empty());
        assert(s@.drawn =~= Map::<u64, u64>::empty());
        s
    }

    pub fn epoch(&self) -> (e: u64)
        ensures
            e == self@.epoch,
    {
        self.epoch
    }

    /// The stamp a thumbnail of `id` must carry.
    pub fn wanted_stamp(&self, id: LayerId) -> (w: u64)
        ensures
            w == self@.wanted(id),
    {
        match stamps_get(&self.touched, id.0) {
            Some(w) => w,
            None => 0,
        }
    }

    /// Whether the thumbnail cached under `key` (the layer's id, or
    /// `mask_key` of it) still shows layer `id` as it is.
    pub fn is_fresh(&self, key: u64, id: LayerId) -> (b: bool)
        ensures
            b == self@.fresh(key, id),
    {
        let want = self.wanted_stamp(id);
        match stamps_get(&self.drawn, key) {
            Some(d) => d == want,
            None => false,
        }
    }

    /// A thumbnail of layer `id` has just been drawn and cached under `key`.
    pub fn record_drawn(&mut self, key: u64, id: LayerId)
        requires
            old(self)@.well_formed(),
        ensures
            final(self)@.well_formed(),
            final(self)@ == after_drawn(old(self)@, key, id),
    {
        let want = self.wanted_stamp(id);
        stamps_insert(&mut self.drawn, key, want);
        proof {
            if old(self)@.touched.contains_key(id.0) {
                assert(old(self)@.touched[id.0] <= old(self)@.epoch);
            }
            assert forall|k: u64| #[trigger] self@.drawn.contains_key(k) implies self@.drawn[k] <= self@.epoch by {
                if k != key {
                    assert(old(self)@.drawn.contains_key(k));
                }
            }
        }
    }

    /// An edit touched `layers`; `structure` says it may have moved any layer.
    pub fn mark_dirty(&mut self, layers: &Vec<LayerId>, structure: bool)
        requires
            old(self)@.well_formed(),
            old(self)@.epoch < u64::MAX,
        ensures
            final(self)@.well_formed(),
            final(self)@ == after_edit(old(self)@, layers@, structure),
    {
        self.epoch = self.epoch + 1;
        let ghost before = stamps(self.touched);
        let mut i: usize = 0;
        while i < layers.len()
            invariant
                0 <= i <= layers@.len(),
                self.epoch == old(self).epoch + 1,
                stamps(self.drawn) == stamps(old(self).drawn),
                before == stamps(old(self).touched),
                forall|k: u64| #[trigger] stamps(self.touched).contains_key(k) == (
                    before.contains_key(k) || names(layers@.take(i as int), k)),
                forall|k: u64| #[trigger] stamps(self.touched).contains_key(k) ==>
                    stamps(self.touched)[k] == if names(layers@.take(i as int), k) {
                        self.epoch
                    } else {
                        before[k]
                    },
            decreases layers@.len() - i,
        {
            let id = layers[i];
            stamps_insert(&mut self.touched, id.0, self.epoch);
            proof {
                let next = layers@.take(i + 1);
                assert forall|k: u64| names(next, k) == (names(layers@.take(i as int), k) || k == id.0) by {
                    if names(next, k) {
                        let j = choose|j: int| 0 <= j < next.len() && next[j].0 == k;
                        if j < i {
                            assert(layers@.take(i as int)[j].0 == k);
                        }
                    }
                    if names(layers@.take(i as int), k) {
                        let j = choose|j: int| 0 <= j < i && layers@.take(i as int)[j].0 == k;
                        assert(next[j].0 == k);
                    }
                    if k == id.0 {
                        assert(next[i as int].0 == k);
                    }
                }
            }
            i = i + 1;
        }
        proof {
            assert(layers@.take(layers@.len() as int) =~= layers@);
            assert forall|k: u64| #[trigger] self@.touched.contains_key(k) implies self@.touched[k] <= self@.epoch by {
                if !names(layers@, k) {
                    assert(old(self)@.touched.contains_key(k));
                }
            }
            assert forall|k: u64| #[trigger] self@.drawn.contains_key(k) implies self@.drawn[k] <= self@.epoch by {
                assert(old(self)@.drawn.contains_key(k));
            }
        }
        if structure {
            stamps_clear(&mut self.touched);
            stamps_clear(&mut self.drawn);
            assert(self@.touched =~= Map::<u64, u64>::empty());
            assert(self@.drawn =~= Map::<u64, u64>::empty());
        } else {
            assert(self@.touched =~= after_edit(old(self)@, layers@, structure).touched);
        }
    }

    /// Everything is to be redrawn: forget every thumbnail.
    pub fn invalidate(&mut self)
        requires
            old(self)@.well_formed(),
            old(self)@.epoch < u64::MAX,
        ensures
            final(self)@.well_formed(),
            final(self)@ == after_invalidate(old(self)@),
    {
        self.epoch = self.epoch + 1;
        stamps_clear(&mut self.drawn);
        assert(self@.drawn =~= Map::<u64, u64>::empty());
        assert forall|k: u64| #[trigger] self@.touched.contains_key(k) implies self@.touched[k] <= self@.epoch by {
            assert(old(self)@.touched.contains_key(k));
        }
    }
}

/// An edit leaves every thumbnail of every layer it touched stale, the
/// mask's included; a structural edit leaves every thumbnail stale.
pub proof fn edit_stales_what_it_touched(
    v: StampsView,
    layers: Seq<LayerId>,
    structure: bool,
    key: u64,
    id: LayerId,
)
    requires
        v.well_formed(),
        v.epoch < u64::MAX,
        structure || names(layers, id.0),
    ensures
        !after_edit(v, layers, structure).fresh(key, id),
{
    if !structure {
        if v.drawn.contains_key(key) {
            assert(v.drawn[key] <= v.epoch);
        }
    }
}

/// An edit that does not move layers leaves the thumbnails of the layers it
/// did not touch exactly as usable as they were.
pub proof fn edit_spares_the_rest(v: StampsView, layers: Seq<LayerId>, key: u64, id: LayerId)
    requires
        !names(layers, id.0),
    ensures
        after_edit(v, layers, false).fresh(key, id) == v.fresh(key, id),
{
}

/// A thumbnail just drawn is shown until its layer changes.
pub proof fn drawn_is_fresh(v: StampsView, key: u64, id: LayerId)
    ensures
        after_drawn(v, key, id).fresh(key, id),
{
}

/// Marking everything for redrawing leaves no thumbnail usable.
pub proof fn invalidate_stales_everything(v: StampsView, key: u64, id: LayerId)
    ensures
        !after_invalidate(v).fresh(key, id),
{
}

} // verus!
