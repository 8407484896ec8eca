//! The bodies of a scene, in the order in which they were added, and the
//! test of the first of them against the rest.

use vstd::prelude::*;
use vstd::std_specs::iter::IteratorSpec;
use crate::body::Body;
use crate::control::Command;

verus! {

/// The index of the subject: the body that is tested against the others.
pub const SUBJECT: usize = 0;

/// Keeps the bodies of a scene in the order in which they were added.
///
/// Its view is the sequence of the bodies in that order.
pub struct Manager {
    bodies: Vec<Body>,
}

impl View for Manager {
    type V = Seq<Body>;

    closed spec fn view(&self) -> Seq<Body> {
        self.bodies@
    }
}

/// Whether the rectangle of the first body overlaps the rectangle of any
/// body after it.
pub open spec fn subject_collides(bodies: Seq<Body>) -> bool {
    exists|i: int|
        1 <= i < bodies.len() && (#[trigger] bodies[i]).spec_bounds().spec_intersects(
            bodies[0].spec_bounds(),
        )
}

/// The bodies after `command` was carried out on `bodies`: a move changes the
/// body that it names, and nothing else; no other command changes anything.
pub open spec fn after_command(bodies: Seq<Body>, command: Command) -> Seq<Body> {
    match command {
        Command::Move { body, offset } => bodies.update(
            body as int,
            bodies[body as int].moved((offset.0 as int, offset.1 as int)),
        ),
        Command::Quit | Command::Nothing => bodies,
    }
}

impl Manager {
    /// A manager without bodies.
    pub fn new() -> (manager: Manager)
        ensures
            manager@ == Seq::<Body>::empty(),
    {
        Manager { bodies: Vec::new() }
    }

    /// Adds `body` behind the bodies that are there.
    pub fn add(&mut self, body: Body)
        ensures
            final(self)@ == old(self)@.push(body),
    {
        self.bodies.push(body)
    }

    /// The number of bodies.
    pub fn len(&self) -> (n: usize)
        ensures
            n == self@.len(),
    {
        self.bodies.len()
    }

    /// The body at `idx`, to be changed in place. No other body changes.
    pub fn get_mut(&mut self, idx: usize) -> (body: &mut Body)
        requires
            idx < old(self)@.len(),
        ensures
            *body == old(self)@[idx as int],
            final(self)@ == old(self)@.update(idx as int, *final(body)),
    {
        &mut self.bodies[idx]
    }

    /// The bodies in the order in which they were added.
    pub fn as_slice(&self) -> (bodies: &[Body])
        ensures
            bodies@ == self@,
    {
        self.bodies.as_slice()
    }

    /// Tells whether the subject, the body at index 0, overlaps any of the
    /// other bodies. With no other body there is no overlap.
    pub fn check_zeroth_others_rectangle(&self) -> (hit: bool)
        requires
            self@.len() > 0,
        ensures
            hit == subject_collides(self@),
            self@.len() == 1 ==> !hit,
    {
        let zeroth = self.bodies[SUBJECT].global_bounds();
        let mut idx: usize = 1;
        while idx < self.bodies.len()
            invariant
                1 <= idx <= self.bodies@.len(),
                zeroth == self.bodies@[0].spec_bounds(),
                forall|j: int|
                    1 <= j < idx ==> !(#[trigger] self.bodies@[j]).spec_bounds().spec_intersects(
                        zeroth,
                    ),
            decreases self.bodies@.len() - idx,
        {
            if self.bodies[idx].global_bounds().intersects(&zeroth) {
                return true;
            }
            idx += 1;
        }
        false
    }

    /// Carries out `command` on the bodies, and tells whether the program is
    /// to leave its loop.
    pub fn apply(&mut self, command: Command) -> (quit: bool)
        requires
            command matches Command::Move { body, .. } ==> body < old(self)@.len(),
        ensures
            quit == (command is Quit),
            final(self)@ == after_command(old(self)@, command),
    {
        match command {
            Command::Move { body, offset } => {
                self.get_mut(body).move_(offset);
                false
            },
            Command::Quit => true,
            Command::Nothing => false,
        }
    }
}

/// Walks the bodies in the order in which they were added.
impl<'a> IntoIterator for &'a Manager {
    type Item = &'a Body;

    type IntoIter = core::slice::Iter<'a, Body>;

    fn into_iter(self) -> (iter: core::slice::Iter<'a, Body>)
        ensures
            iter.remaining().unref() == self@,
            iter.decrease() is Some,
            iter.initial_value_relation(&iter),
    {
        self.bodies.iter()
    }
}

/// Whether each body after the first in `a` also stands after the first in
/// `b`.
pub open spec fn others_among(a: Seq<Body>, b: Seq<Body>) -> bool {
    forall|i: int|
        1 <= i < a.len() ==> exists|j: int| 1 <= j < b.len() && #[trigger] b[j] == #[trigger] a[i]
}

/// The test looks at which bodies stand after the subject, and not at their
/// order or at how often one occurs.
pub proof fn lemma_order_of_others_is_irrelevant(a: Seq<Body>, b: Seq<Body>)
    requires
        a.len() > 0,
        b.len() > 0,
        a[0] == b[0],
        others_among(a, b),
        others_among(b, a),
    ensures
        subject_collides(a) == subject_collides(b),
{
    if subject_collides(a) {
        let i = choose|i: int|
            1 <= i < a.len() && (#[trigger] a[i]).spec_bounds().spec_intersects(
                a[0].spec_bounds(),
            );
        let j = choose|j: int| 1 <= j < b.len() && #[trigger] b[j] == a[i];
        assert(b[j].spec_bounds().spec_intersects(b[0].spec_bounds()));
    }
    if subject_collides(b) {
        let i = choose|i: int|
            1 <= i < b.len() && (#[trigger] b[i]).spec_bounds().spec_intersects(
                b[0].spec_bounds(),
            );
        let j = choose|j: int| 1 <= j < a.len() && #[trigger] a[j] == b[i];
        assert(a[j].spec_bounds().spec_intersects(a[0].spec_bounds()));
    }
}

/// A subject without another body collides with nothing.
pub proof fn lemma_lone_subject_is_free(bodies: Seq<Body>)
    requires
        bodies.len() <= 1,
    ensures
        !subject_collides(bodies),
{
}

} // verus!
