//! The scene aggregate: an ordered collection of geometry, appended to while
//! the scene is built and only read while it is rendered.

use vstd::prelude::*;

verus! {

/// Geometry objects in the order they were added.
pub struct HittableList<T> {
    pub objects: Vec<T>,
}

impl<T> HittableList<T> {
    pub open spec fn view(&self) -> Seq<T> {
        self.objects@
    }

    /// An empty scene.
    pub fn new() -> (r: Self)
        ensures
            r.view() == Seq::<T>::empty(),
    {
        HittableList { objects: Vec::new() }
    }

    /// Removes every object.
    pub fn clear(&mut self)
        ensures
            final(self).view() == Seq::<T>::empty(),
    {
        self.objects.clear();
    }

    /// Appends an object after those already present.
    pub fn add(&mut self, object: T)
        ensures
            final(self).view() == old(self).view().push(object),
    {
        self.objects.push(object);
    }
}

impl<T> Default for HittableList<T> {
    fn default() -> (r: Self)
        ensures
            r.view() == Seq::<T>::empty(),
    {
        HittableList::new()
    }
}

} // verus!
