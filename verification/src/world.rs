//! The simulation world: a growable arena of entities and their component
//! records.
//!
//! An entity is an opaque identifier — a stable index into the arena's
//! component tables, one table per component type. Each entity owns zero or
//! more typed component records; queries walk the entities possessing the
//! requested type or types, in insertion order. No deletion path exists,
//! and no two live entities share an identifier.

use vstd::prelude::*;

use crate::component::{Transform, Velocity};
use crate::vector::Vector3;

verus! {

/// Identifier of one entity: its stable index in the arena.
pub type EntityId = usize;

/// Container of entities and their component bundles.
pub struct World {
    transforms: Vec<Option<Transform>>,
    velocities: Vec<Option<Velocity>>,
}

/// The entities of `ts` possessing a transform, each identifier with its
/// record, in insertion order.
pub open spec fn transform_entries(ts: Seq<Option<Transform>>) -> Seq<(EntityId, Transform)>
    decreases ts.len(),
{
    if ts.len() == 0 {
        Seq::empty()
    } else {
        let prefix = transform_entries(ts.drop_last());
        if ts.last() is Some {
            prefix.push((((ts.len() - 1) as usize), ts.last()->0))
        } else {
            prefix
        }
    }
}

/// The entities possessing both a transform and a velocity, each
/// identifier with its bundle, in insertion order. The tables are read in
/// step, so only the shared prefix is walked.
pub open spec fn bundle_entries(
    ts: Seq<Option<Transform>>,
    vs: Seq<Option<Velocity>>,
) -> Seq<(EntityId, Transform, Velocity)>
    decreases ts.len(),
{
    if ts.len() == 0 || ts.len() > vs.len() {
        Seq::empty()
    } else {
        let prefix = bundle_entries(ts.drop_last(), vs.take(ts.len() - 1));
        if ts.last() is Some && vs[ts.len() - 1] is Some {
            prefix.push((((ts.len() - 1) as usize), ts.last()->0, vs[ts.len() - 1]->0))
        } else {
            prefix
        }
    }
}

/// `ts` after the position updates in `ups` have been applied in order:
/// each pair sets the position of the transform at that entity index,
/// leaving rotation and scale as they were; a later update to the same
/// entity wins, and an index out of range or without a transform changes
/// nothing.
pub open spec fn apply_updates_seq(
    ts: Seq<Option<Transform>>,
    ups: Seq<(EntityId, Vector3)>,
) -> Seq<Option<Transform>>
    decreases ups.len(),
{
    if ups.len() == 0 {
        ts
    } else {
        let prev = apply_updates_seq(ts, ups.drop_last());
        let e = ups.last().0 as int;
        if 0 <= e < prev.len() && prev[e] is Some {
            prev.update(e, Some(Transform { position: ups.last().1, ..prev[e]->0 }))
        } else {
            prev
        }
    }
}

impl World {
    /// The transforms table: one slot per entity, in insertion order,
    /// `None` where the entity does not own a transform.
    pub closed spec fn transforms_view(self) -> Seq<Option<Transform>> {
        self.transforms@
    }

    /// The velocities table, shaped as the transforms table is.
    pub closed spec fn velocities_view(self) -> Seq<Option<Velocity>> {
        self.velocities@
    }

    /// Number of live entities; entity identifiers are exactly the indices
    /// below this count.
    pub open spec fn num_entities(self) -> nat {
        self.transforms_view().len()
    }

    /// Well-formedness: the component tables cover the same entities.
    pub open spec fn wf(self) -> bool {
        self.transforms_view().len() == self.velocities_view().len()
    }

    /// An empty world, with no entities.
    pub fn new() -> (w: World)
        ensures
            w.wf(),
            w.num_entities() == 0,
    {
        World { transforms: Vec::new(), velocities: Vec::new() }
    }

    /// Number of live entities.
    pub fn len(&self) -> (n: usize)
        ensures
            n == self.num_entities(),
    {
        self.transforms.len()
    }

    /// Adds a new entity owning the given records — `None` for a component
    /// type the entity goes without — and returns its fresh identifier:
    /// the one index that no live entity had before.
    pub fn insert_bundle(&mut self, t: Option<Transform>, v: Option<Velocity>) -> (e: EntityId)
        requires
            old(self).wf(),
        ensures
            final(self).wf(),
            e == old(self).num_entities(),
            final(self).num_entities() == old(self).num_entities() + 1,
            final(self).transforms_view() == old(self).transforms_view().push(t),
            final(self).velocities_view() == old(self).velocities_view().push(v),
    {
        let e = self.transforms.len();
        self.transforms.push(t);
        self.velocities.push(v);
        e
    }

    /// Adds a new entity owning the full spatial bundle — the insertion
    /// the update system's entities come from.
    pub fn insert(&mut self, t: Transform, v: Velocity) -> (e: EntityId)
        requires
            old(self).wf(),
        ensures
            final(self).wf(),
            e == old(self).num_entities(),
            final(self).num_entities() == old(self).num_entities() + 1,
            final(self).transforms_view() == old(self).transforms_view().push(Some(t)),
            final(self).velocities_view() == old(self).velocities_view().push(Some(v)),
    {
        self.insert_bundle(Some(t), Some(v))
    }

    /// The transform slot of entity `e`: its record, or `None` where the
    /// entity owns no transform.
    pub fn get_transform(&self, e: EntityId) -> (t: Option<Transform>)
        requires
            e < self.num_entities(),
        ensures
            t == self.transforms_view()[e as int],
    {
        self.transforms[e]
    }

    /// The velocity slot of entity `e`.
    pub fn get_velocity(&self, e: EntityId) -> (v: Option<Velocity>)
        requires
            self.wf(),
            e < self.num_entities(),
        ensures
            v == self.velocities_view()[e as int],
    {
        self.velocities[e]
    }

    /// Replaces the position of entity `e`, which must own a transform,
    /// leaving its rotation and scale, every other entity, and all
    /// velocities as they were.
    pub fn set_position(&mut self, e: EntityId, p: Vector3)
        requires
            old(self).wf(),
            e < old(self).num_entities(),
            old(self).transforms_view()[e as int] is Some,
        ensures
            final(self).wf(),
            final(self).num_entities() == old(self).num_entities(),
            final(self).velocities_view() == old(self).velocities_view(),
            final(self).transforms_view() == old(self).transforms_view().update(
                e as int,
                Some(
                    Transform {
                        position: p,
                        ..old(self).transforms_view()[e as int]->0
                    },
                ),
            ),
    {
        let slot = &mut self.transforms[e];
        match slot {
            Some(t) => {
                t.position = p;
            },
            None => {},
        }
    }

    /// Read query over the entities possessing a transform: each
    /// identifier with its record, in insertion order.
    pub fn query_transforms(&self) -> (r: Vec<(EntityId, Transform)>)
        ensures
            r@ == transform_entries(self.transforms_view()),
    {
        let mut r: Vec<(EntityId, Transform)> = Vec::new();
        let n = self.transforms.len();
        for e in 0..n
            invariant
                n == self.num_entities(),
                r@ == transform_entries(self.transforms_view().take(e as int)),
        {
            proof {
                assert(self.transforms_view().take(e + 1).drop_last() =~= self.transforms_view()
                    .take(e as int));
                assert(self.transforms_view().take(e + 1).last() == self.transforms_view()[e as int]);
            }
            match &self.transforms[e] {
                Some(t) => {
                    r.push((e, *t));
                },
                None => {},
            }
        }
        proof {
            assert(self.transforms_view().take(n as int) =~= self.transforms_view());
        }
        r
    }

    /// Query over the entities possessing both a transform and a velocity:
    /// each identifier with its bundle, in insertion order. This is the
    /// query the update system runs on.
    pub fn query_transform_velocity(&self) -> (r: Vec<(EntityId, Transform, Velocity)>)
        requires
            self.wf(),
        ensures
            r@ == bundle_entries(self.transforms_view(), self.velocities_view()),
    {
        let mut r: Vec<(EntityId, Transform, Velocity)> = Vec::new();
        let n = self.transforms.len();
        for e in 0..n
            invariant
                self.wf(),
                n == self.num_entities(),
                r@ == bundle_entries(
                    self.transforms_view().take(e as int),
                    self.velocities_view().take(e as int),
                ),
        {
            proof {
                assert(self.transforms_view().take(e + 1).drop_last() =~= self.transforms_view()
                    .take(e as int));
                assert(self.velocities_view().take(e + 1).take(e as int) =~= self.velocities_view()
                    .take(e as int));
                assert(self.transforms_view().take(e + 1).last() == self.transforms_view()[e as int]);
                assert(self.velocities_view().take(e + 1)[e as int] == self.velocities_view()[e as int]);
            }
            match (&self.transforms[e], &self.velocities[e]) {
                (Some(t), Some(v)) => {
                    r.push((e, *t, *v));
                },
                _ => {},
            }
        }
        proof {
            assert(self.transforms_view().take(n as int) =~= self.transforms_view());
            assert(self.velocities_view().take(n as int) =~= self.velocities_view());
        }
        r
    }

    /// Applies a batch of position updates, in order: after the call the
    /// transforms table is `apply_updates_seq` of the old table and the
    /// batch; velocities and the entity count are untouched.
    pub fn apply_position_updates(&mut self, ups: &Vec<(EntityId, Vector3)>)
        requires
            old(self).wf(),
        ensures
            final(self).wf(),
            final(self).num_entities() == old(self).num_entities(),
            final(self).velocities_view() == old(self).velocities_view(),
            final(self).transforms_view() == apply_updates_seq(
                old(self).transforms_view(),
                ups@,
            ),
    {
        let n = ups.len();
        for k in 0..n
            invariant
                self.wf(),
                n == ups@.len(),
                self.num_entities() == old(self).num_entities(),
                self.velocities_view() == old(self).velocities_view(),
                self.transforms_view() == apply_updates_seq(
                    old(self).transforms_view(),
                    ups@.take(k as int),
                ),
        {
            let (e, p) = ups[k];
            proof {
                assert(ups@.take(k + 1).drop_last() =~= ups@.take(k as int));
                assert(ups@.take(k + 1).last() == ups@[k as int]);
            }
            if e < self.transforms.len() {
                let slot = &mut self.transforms[e];
                match slot {
                    Some(t) => {
                        t.position = p;
                    },
                    None => {},
                }
            }
        }
        proof {
            assert(ups@.take(n as int) =~= ups@);
        }
    }
}

} // verus!
