//! A simulated object: a randomly drawn identifier, a kind tag and a
//! spatial transform. The lifecycle hooks are placeholders with no work.

use vstd::prelude::*;

use crate::component::Transform;

verus! {

/// Relies on rand::random: draws an identifier from the thread-local
/// generator. The value is random, so nothing is promised of it.
#[verifier::external_body]
fn random_id() -> i128 {
    rand::random::<i128>()
}

/// One simulated object.
pub struct GameObject<'a> {
    pub m_id: i128,
    pub m_type: &'a str,
    pub m_transform: Transform,
}

impl<'a> GameObject<'a> {
    /// A fresh object of the given kind at the given transform, under a
    /// randomly drawn identifier, with its creation hook already run.
    pub fn new(m_type: &'a str, m_transform: Transform) -> (go: GameObject<'a>)
        ensures
            go.m_type == m_type,
            go.m_transform == m_transform,
    {
        let mut go = GameObject { m_id: random_id(), m_type, m_transform };
        go.create();
        go
    }

    /// Creation hook; does nothing yet.
    pub fn create(&mut self)
        ensures
            *final(self) == *old(self),
    {
    }

    /// Per-frame hook; does nothing yet.
    pub fn update(&mut self)
        ensures
            *final(self) == *old(self),
    {
    }
}

} // verus!
