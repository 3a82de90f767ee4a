use vstd::prelude::*;

use crate::error::LumolError;
use crate::marshal::all_numbers;
use crate::marshal::extract_vector3;
use crate::marshal::vector3_outcome;
use crate::marshal::VectorField;
use crate::traits::AccessCell;
use crate::traits::Callback;

verus! {

/// The engine's particle, with its scalars of type `S`: every field is
/// stored as given, none is derived.
pub struct ParticleData<S> {
    pub name: String,
    pub mass: S,
    pub charge: S,
    pub position: [S; 3],
    pub velocity: [S; 3],
}

/// The three-component field `field` of `p`.
pub open spec fn vector_of<S>(p: ParticleData<S>, field: VectorField) -> [S; 3] {
    match field {
        VectorField::Position => p.position,
        VectorField::Velocity => p.velocity,
    }
}

/// Whether `after` is `before` with at most its field `field` changed.
pub open spec fn same_but<S>(before: ParticleData<S>, after: ParticleData<S>, field: VectorField) -> bool {
    match field {
        VectorField::Position => after == (ParticleData { position: after.position, ..before }),
        VectorField::Velocity => after == (ParticleData { velocity: after.velocity, ..before }),
    }
}

/// Whether setting `field` of `before` from the host sequence `items` may
/// leave `after` and return `r`: on success the field holds the converted
/// elements and nothing else changes; on failure the error carries the
/// marshalling message and nothing changes at all.
pub open spec fn vector_set<S>(
    before: ParticleData<S>,
    field: VectorField,
    items: Seq<Option<S>>,
    after: ParticleData<S>,
    r: Result<(), LumolError>,
) -> bool {
    match vector3_outcome(items, field) {
        Ok(v) => r is Ok && vector_of(after, field)@ == v && same_but(before, after, field),
        Err(m) => r is Err && r->Err_0.message@ == m && after == before,
    }
}

/// Setting a vector field from three numbers and reading it back gives
/// those numbers, in order.
pub proof fn lemma_vector_round_trip<S>(
    before: ParticleData<S>,
    field: VectorField,
    items: Seq<Option<S>>,
    after: ParticleData<S>,
    r: Result<(), LumolError>,
)
    requires
        items.len() == 3,
        all_numbers(items),
        vector_set(before, field, items, after, r),
    ensures
        r is Ok,
        vector_of(after, field)@.len() == 3,
        forall|i: int| 0 <= i < 3 ==> vector_of(after, field)@[i] == (#[trigger] items[i])->Some_0,
{
}

/// Setting a vector field from a sequence of the wrong length, or with an
/// element that is not a number, fails and leaves the particle as it was.
pub proof fn lemma_vector_rejected<S>(
    before: ParticleData<S>,
    field: VectorField,
    items: Seq<Option<S>>,
    after: ParticleData<S>,
    r: Result<(), LumolError>,
)
    requires
        items.len() != 3 || !all_numbers(items),
        vector_set(before, field, items, after, r),
    ensures
        r is Err,
        after == before,
{
}

/// A host-visible particle: one owned [`ParticleData`], reached only through
/// an [`AccessCell`].
pub struct Particle<S> {
    particle: AccessCell<ParticleData<S>>,
}

impl<S> Particle<S> {
    /// The particle as it stands.
    pub closed spec fn view(&self) -> ParticleData<S> {
        self.particle.value()
    }

    pub closed spec fn wf(&self) -> bool {
        self.particle.inv()
    }

    /// A facade owning `native`.
    pub fn new(native: ParticleData<S>) -> (r: Self)
        ensures
            r.wf(),
            r@ == native,
    {
        Particle { particle: AccessCell::new(native) }
    }

    pub fn name(&self) -> (r: String)
        requires
            self.wf(),
        ensures
            r@ == self@.name@,
    {
        self.particle.with_ref(
            (|p: &ParticleData<S>| -> (r: String)
                ensures
                    r@ == p.name@,
                { p.name.clone() }),
        )
    }

    /// Renames the particle; nothing else changes.
    pub fn set_name(&mut self, name: &str)
        requires
            old(self).wf(),
        ensures
            final(self).wf(),
            final(self)@.name@ == name@,
            final(self)@.mass == old(self)@.mass,
            final(self)@.charge == old(self)@.charge,
            final(self)@.position == old(self)@.position,
            final(self)@.velocity == old(self)@.velocity,
    {
        let name = name.to_owned();
        self.particle.with_mut(
            (move |p: ParticleData<S>| -> (r: (ParticleData<S>, ()))
                ensures
                    r.0.name@ == name@,
                    r.0.mass == p.mass,
                    r.0.charge == p.charge,
                    r.0.position == p.position,
                    r.0.velocity == p.velocity,
                {
                    let ParticleData { name: _, mass, charge, position, velocity } = p;
                    (ParticleData { name, mass, charge, position, velocity }, ())
                }),
        )
    }

    /// Sets the mass; nothing else changes.
    pub fn set_mass(&mut self, mass: S)
        requires
            old(self).wf(),
        ensures
            final(self).wf(),
            final(self)@ == (ParticleData { mass, ..old(self)@ }),
    {
        self.particle.with_mut(
            (move |p: ParticleData<S>| -> (r: (ParticleData<S>, ()))
                ensures
                    r.0 == (ParticleData { mass, ..p }),
                { (ParticleData { mass, ..p }, ()) }),
        )
    }

    /// Sets the charge; nothing else changes.
    pub fn set_charge(&mut self, charge: S)
        requires
            old(self).wf(),
        ensures
            final(self).wf(),
            final(self)@ == (ParticleData { charge, ..old(self)@ }),
    {
        self.particle.with_mut(
            (move |p: ParticleData<S>| -> (r: (ParticleData<S>, ()))
                ensures
                    r.0 == (ParticleData { charge, ..p }),
                { (ParticleData { charge, ..p }, ()) }),
        )
    }
}

impl<S: Copy> Particle<S> {
    pub fn mass(&self) -> (r: S)
        requires
            self.wf(),
        ensures
            r == self@.mass,
    {
        self.particle.with_ref(
            (|p: &ParticleData<S>| -> (r: S)
                ensures
                    r == p.mass,
                { p.mass }),
        )
    }

    pub fn charge(&self) -> (r: S)
        requires
            self.wf(),
        ensures
            r == self@.charge,
    {
        self.particle.with_ref(
            (|p: &ParticleData<S>| -> (r: S)
                ensures
                    r == p.charge,
                { p.charge }),
        )
    }

    pub fn position(&self) -> (r: [S; 3])
        requires
            self.wf(),
        ensures
            r == self@.position,
    {
        self.particle.with_ref(
            (|p: &ParticleData<S>| -> (r: [S; 3])
                ensures
                    r == p.position,
                { p.position }),
        )
    }

    pub fn velocity(&self) -> (r: [S; 3])
        requires
            self.wf(),
        ensures
            r == self@.velocity,
    {
        self.particle.with_ref(
            (|p: &ParticleData<S>| -> (r: [S; 3])
                ensures
                    r == p.velocity,
                { p.velocity }),
        )
    }

    /// Sets the position from a host sequence whose elements were each read
    /// as a number (`Some`) or not (`None`); see [`extract_vector3`].
    pub fn set_position(&mut self, items: Vec<Option<S>>) -> (r: Result<(), LumolError>)
        requires
            old(self).wf(),
        ensures
            final(self).wf(),
            vector_set(old(self)@, VectorField::Position, items@, final(self)@, r),
    {
        let position = match extract_vector3(items, VectorField::Position) {
            Ok(v) => v,
            Err(e) => return Err(e),
        };
        self.particle.with_mut(
            (move |p: ParticleData<S>| -> (r: (ParticleData<S>, ()))
                ensures
                    r.0 == (ParticleData { position, ..p }),
                { (ParticleData { position, ..p }, ()) }),
        );
        Ok(())
    }

    /// Sets the velocity from a host sequence whose elements were each read
    /// as a number (`Some`) or not (`None`); see [`extract_vector3`].
    pub fn set_velocity(&mut self, items: Vec<Option<S>>) -> (r: Result<(), LumolError>)
        requires
            old(self).wf(),
        ensures
            final(self).wf(),
            vector_set(old(self)@, VectorField::Velocity, items@, final(self)@, r),
    {
        let velocity = match extract_vector3(items, VectorField::Velocity) {
            Ok(v) => v,
            Err(e) => return Err(e),
        };
        self.particle.with_mut(
            (move |p: ParticleData<S>| -> (r: (ParticleData<S>, ()))
                ensures
                    r.0 == (ParticleData { velocity, ..p }),
                { (ParticleData { velocity, ..p }, ()) }),
        );
        Ok(())
    }
}

} // verus!
