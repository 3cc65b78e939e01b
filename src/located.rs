use vstd::prelude::*;

use vstd::std_specs::iter::IteratorSpec;

use crate::location::{lemma_follows_push, Location};

verus! {

/// A wrapper around an iterator of characters that also provides information
/// about the current location within a file.
///
/// Reaching the underlying iterator through [`Located::iter_mut`] bypasses the
/// location tracking: characters taken from it that way are not counted.
pub struct Located<I: Iterator> {
    iter: I,
    cursor: Cursor,
}

/// The location of the next character, together with the characters read so
/// far, which it always follows.
struct Cursor {
    location: Location,
    consumed: Ghost<Seq<char>>,
}

impl Cursor {
    #[verifier::type_invariant]
    closed spec fn location_matches(&self) -> bool {
        self.location.follows(self.consumed@)
    }

    fn start() -> (r: Cursor)
        ensures
            r.location == (Location { line: 1, column: 1 }),
            r.consumed@ == Seq::<char>::empty(),
    {
        Cursor { location: Location::start(), consumed: Ghost(Seq::empty()) }
    }

    fn location(&self) -> (r: Location)
        ensures
            r == self.location,
            r.follows(self.consumed@),
    {
        proof {
            use_type_invariant(self);
        }
        self.location
    }

    /// Moves past the character `c`.
    fn advance(&mut self, c: char)
        requires
            old(self).location.can_step(c),
        ensures
            final(self).location == old(self).location.stepped(c),
            final(self).consumed@ == old(self).consumed@.push(c),
    {
        proof {
            use_type_invariant(&*self);
            lemma_follows_push(self.location, self.consumed@, c);
        }
        let ghost consumed = self.consumed@.push(c);
        let mut location = self.location;
        if c == '\n' {
            location.next_line();
        } else {
            location.next_column();
        }
        *self = Cursor { location, consumed: Ghost(consumed) };
    }
}

impl<I: Iterator> Located<I> {
    /// The characters returned by `next` so far, in order.
    pub closed spec fn consumed(&self) -> Seq<char> {
        self.cursor.consumed@
    }

    /// The location of the character that `next` would return.
    pub closed spec fn current(&self) -> Location {
        self.cursor.location
    }

    /// The underlying iterator.
    pub closed spec fn inner(&self) -> I {
        self.iter
    }

    /// Constructs new iterator wrapper.
    pub fn new(iter: I) -> (r: Located<I>)
        ensures
            r.inner() == iter,
            r.consumed() == Seq::<char>::empty(),
            r.current() == (Location { line: 1, column: 1 }),
            r.current().follows(r.consumed()),
    {
        Located { iter: iter, cursor: Cursor::start() }
    }

    /// Retrieves the location of the next character being returned by the
    /// underlying iterator.
    pub fn location(&self) -> (r: Location)
        ensures
            r == self.current(),
            r.follows(self.consumed()),
    {
        self.cursor.location()
    }

    /// Returns reference to the underlying iterator.
    pub fn iter(&self) -> (r: &I)
        ensures
            *r == self.inner(),
    {
        &self.iter
    }

    /// Returns mutable reference to the underlying iterator.
    pub fn iter_mut(&mut self) -> (r: &mut I)
        ensures
            *r == old(self).inner(),
            final(self).inner() == *final(r),
            final(self).current() == old(self).current(),
            final(self).consumed() == old(self).consumed(),
    {
        &mut self.iter
    }
}

impl<I: Iterator<Item = char>> Located<I> {
    /// Returns the next character of the underlying iterator and moves the
    /// location past it: to the start of the next line after a newline, to
    /// the next column after any other character (a carriage return included).
    ///
    /// The counter that the next character moves must not already be at
    /// `u32::MAX`. Where the underlying iterator does not follow vstd's
    /// iterator laws that character is unknown, and neither counter may be.
    pub fn next(&mut self) -> (r: Option<char>)
        requires
            if old(self).inner().obeys_prophetic_iter_laws() {
                old(self).inner().remaining().len() > 0 ==> old(self).current().can_step(
                    old(self).inner().remaining()[0],
                )
            } else {
                old(self).current().can_advance()
            },
        ensures
            match r {
                Some(c) => {
                    &&& final(self).consumed() == old(self).consumed().push(c)
                    &&& final(self).current() == old(self).current().stepped(c)
                },
                None => {
                    &&& final(self).consumed() == old(self).consumed()
                    &&& final(self).current() == old(self).current()
                },
            },
            final(self).current().follows(final(self).consumed()),
            final(self).inner().obeys_prophetic_iter_laws()
                == old(self).inner().obeys_prophetic_iter_laws(),
            old(self).inner().obeys_prophetic_iter_laws() ==> ({
                let before = old(self).inner();
                let after = final(self).inner();
                let rest = before.remaining();
                &&& if rest.len() > 0 {
                    &&& r == Some(rest[0])
                    &&& after.remaining() == rest.drop_first()
                } else {
                    &&& r is None
                    &&& after.remaining() == rest
                }
                &&& final(self).consumed() + after.remaining() == old(self).consumed() + rest
                &&& before.decrease() is Some <==> after.decrease() is Some
                &&& after.will_return_none() == before.will_return_none()
                &&& r is None ==> after.will_return_none()
                &&& r is Some && after.decrease() is Some ==> decreases_to!(
                    before.decrease()->0 => after.decrease()->0)
            }),
    {
        proof {
            use_type_invariant(&self.cursor);
        }
        let result = self.iter.next();
        if let Some(c) = result {
            self.cursor.advance(c);
        }
        proof {
            use_type_invariant(&self.cursor);
            if old(self).iter.obeys_prophetic_iter_laws() && result is Some {
                let rest = old(self).iter.remaining();
                assert(old(self).consumed().push(rest[0]) + rest.drop_first() =~= old(self).consumed()
                    + rest);
            }
        }
        result
    }

    /// Consumes the wrapper and counts the characters left in the underlying
    /// iterator, without tracking their locations.
    ///
    /// The underlying iterator must come to an end, after at most `usize::MAX`
    /// characters.
    pub fn count(self) -> (r: usize)
        requires
            self.inner().obeys_prophetic_iter_laws(),
            self.inner().will_return_none(),
            self.inner().remaining().len() <= usize::MAX,
        ensures
            r == self.inner().remaining().len(),
    {
        count_of(self.iter)
    }

    /// The bounds on the number of characters left that the underlying
    /// iterator reports.
    pub fn size_hint(&self) -> (usize, Option<usize>) {
        size_hint_of(&self.iter)
    }
}

/// Relies on `Iterator::count`, which consumes the iterator, calling `next`
/// until it returns `None`, and returns the number of times it returned
/// `Some`: the number of items left. It never returns on an endless iterator
/// and may panic past `usize::MAX` items, so both are ruled out.
#[verifier::external_body]
fn count_of<I: Iterator>(iter: I) -> (r: usize)
    requires
        iter.obeys_prophetic_iter_laws(),
        iter.will_return_none(),
        iter.remaining().len() <= usize::MAX,
    ensures
        r == iter.remaining().len(),
{
    iter.count()
}

/// Relies on `Iterator::size_hint`, whose bounds the standard library does
/// not guarantee to be correct, so nothing is stated of them.
#[verifier::external_body]
fn size_hint_of<I: Iterator>(iter: &I) -> (usize, Option<usize>) {
    iter.size_hint()
}

} // verus!
