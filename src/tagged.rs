use vstd::prelude::*;
use vstd::std_specs::iter::IteratorSpec;

use crate::located::Located;
use crate::location::Location;

verus! {

/// An iterator of characters that tags each returned character with the
/// location at which it occurs within the file.
pub struct Tagged<I: Iterator> {
    iter: Located<I>,
}

impl<I: Iterator> Tagged<I> {
    /// The location-tracking wrapper that this iterator reads from.
    pub closed spec fn located(&self) -> Located<I> {
        self.iter
    }

    /// Constructs new iterator wrapper.
    pub fn new(iter: I) -> (r: Tagged<I>)
        ensures
            r.located().inner() == iter,
            r.located().consumed() == Seq::<char>::empty(),
            r.located().current() == (Location { line: 1, column: 1 }),
            r.located().current().follows(r.located().consumed()),
    {
        Tagged { iter: Located::new(iter) }
    }
}

impl<I: Iterator<Item = char>> Tagged<I> {
    /// Returns the next character of the underlying iterator together with
    /// the location it occupies, which is the location the wrapper reported
    /// just before reading it.
    ///
    /// The counter that the next character moves must not already be at
    /// `u32::MAX`. Where the underlying iterator does not follow vstd's
    /// iterator laws that character is unknown, and neither counter may be.
    pub fn next(&mut self) -> (r: Option<(char, Location)>)
        requires
            ({
                let located = old(self).located();
                if located.inner().obeys_prophetic_iter_laws() {
                    located.inner().remaining().len() > 0 ==> located.current().can_step(
                        located.inner().remaining()[0],
                    )
                } else {
                    located.current().can_advance()
                }
            }),
        ensures
            ({
                let before = old(self).located();
                let after = final(self).located();
                match r {
                    Some((c, loc)) => {
                        &&& loc == before.current()
                        &&& loc.follows(before.consumed())
                        &&& after.consumed() == before.consumed().push(c)
                        &&& after.current() == loc.stepped(c)
                    },
                    None => {
                        &&& after.consumed() == before.consumed()
                        &&& after.current() == before.current()
                    },
                }
            }),
            final(self).located().current().follows(final(self).located().consumed()),
            final(self).located().inner().obeys_prophetic_iter_laws()
                == old(self).located().inner().obeys_prophetic_iter_laws(),
            old(self).located().inner().obeys_prophetic_iter_laws() ==> ({
                let before = old(self).located();
                let after = final(self).located();
                let rest = before.inner().remaining();
                &&& if rest.len() > 0 {
                    &&& r matches Some((c, _)) && c == rest[0]
                    &&& after.inner().remaining() == rest.drop_first()
                } else {
                    &&& r is None
                    &&& after.inner().remaining() == rest
                }
                &&& after.consumed() + after.inner().remaining() == before.consumed() + rest
                &&& before.inner().decrease() is Some <==> after.inner().decrease() is Some
                &&& after.inner().will_return_none() == before.inner().will_return_none()
                &&& r is None ==> after.inner().will_return_none()
                &&& r is Some && after.inner().decrease() is Some ==> decreases_to!(
                    before.inner().decrease()->0 => after.inner().decrease()->0)
            }),
    {
        let location = self.iter.location();
        match self.iter.next() {
            Some(item) => Some((item, location)),
            None => None,
        }
    }

    /// Consumes the iterator and counts the characters left, without
    /// tracking their locations.
    ///
    /// The underlying iterator must come to an end, after at most `usize::MAX`
    /// characters.
    pub fn count(self) -> (r: usize)
        requires
            self.located().inner().obeys_prophetic_iter_laws(),
            self.located().inner().will_return_none(),
            self.located().inner().remaining().len() <= usize::MAX,
        ensures
            r == self.located().inner().remaining().len(),
    {
        self.iter.count()
    }

    /// The bounds on the number of characters left that the underlying
    /// iterator reports.
    pub fn size_hint(&self) -> (usize, Option<usize>) {
        self.iter.size_hint()
    }
}

} // verus!
