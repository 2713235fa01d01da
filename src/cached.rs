use vstd::prelude::*;

verus! {

/// A derived artifact together with its validity.
///
/// `Unused` keeps a stale artifact only as storage for the next computation;
/// its content must never be read as current.
#[derive(Clone, Debug)]
pub enum Cached<T> {
    /// Nothing has been computed yet.
    Empty,
    /// A stale artifact kept for reuse of its storage.
    Unused(T),
    /// A current artifact.
    Used(T),
}

impl<T> Cached<T> {
    /// True when the slot holds a current artifact.
    pub open spec fn is_used_spec(&self) -> bool {
        self is Used
    }

    /// The slot after its artifact is marked stale.
    pub open spec fn unused_spec(self) -> Cached<T> {
        match self {
            Cached::Used(t) => Cached::Unused(t),
            other => other,
        }
    }

    /// The current artifact, if there is one.
    pub fn get(&self) -> (r: Option<&T>)
        ensures
            r == (match self {
                Cached::Used(t) => Some(t),
                _ => None::<&T>,
            }),
    {
        match self {
            Cached::Used(t) => Some(t),
            _ => None,
        }
    }

    /// True unless the slot holds a current artifact.
    pub fn is_unused(&self) -> (r: bool)
        ensures
            r == !self.is_used_spec(),
    {
        !matches!(self, Cached::Used(_))
    }

    /// Marks a current artifact stale, keeping it as reusable storage.
    pub fn set_unused(&mut self)
        ensures
            *final(self) == old(self).unused_spec(),
    {
        let mut tmp = Cached::Empty;
        core::mem::swap(self, &mut tmp);
        *self = match tmp {
            Cached::Used(t) => Cached::Unused(t),
            other => other,
        };
    }

    /// Hands out a stale artifact for reuse and leaves the slot empty.
    ///
    /// An empty or current slot is left as it is and yields nothing.
    pub fn take_unused(&mut self) -> (r: Option<T>)
        ensures
            match *old(self) {
                Cached::Unused(t) => r == Some(t) && *final(self) == Cached::<T>::Empty,
                _ => r is None && *final(self) == *old(self),
            },
    {
        if matches!(self, Cached::Unused(_)) {
            let mut tmp = Cached::Empty;
            core::mem::swap(self, &mut tmp);
            match tmp {
                Cached::Unused(t) => Some(t),
                _ => None,
            }
        } else {
            None
        }
    }

    /// Stores a freshly computed artifact as current.
    pub fn set_used(&mut self, value: T)
        ensures
            *final(self) == Cached::Used(value),
    {
        *self = Cached::Used(value);
    }
}

} // verus!
