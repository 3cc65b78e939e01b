use std::cmp::Ordering;

use vstd::prelude::*;

verus! {

/// Number of newline characters in `s`.
pub open spec fn newline_count(s: Seq<char>) -> nat
    decreases s.len(),
{
    if s.len() == 0 {
        0
    } else {
        newline_count(s.drop_last()) + if s.last() == '\n' { 1nat } else { 0nat }
    }
}

/// Line on which the character that follows the text `s` stands.
pub open spec fn line_after(s: Seq<char>) -> nat {
    newline_count(s) + 1
}

/// Column at which the character that follows the text `s` stands: one more
/// than the number of characters after the last newline of `s`.
pub open spec fn column_after(s: Seq<char>) -> nat
    decreases s.len(),
{
    if s.len() == 0 {
        1
    } else if s.last() == '\n' {
        1
    } else {
        column_after(s.drop_last()) + 1
    }
}

/// A pair of line and column representing a location within a file.
///
/// Locations are ordered by line first, then by column.
#[derive(Debug, Clone, Copy, PartialEq, Eq, Structural, Ord)]
pub struct Location {
    pub line: u32,
    pub column: u32,
}

/// Lexicographic comparison of two locations: by line, then by column.
pub open spec fn compare_locations(a: Location, b: Location) -> Ordering {
    if a.line < b.line {
        Ordering::Less
    } else if a.line > b.line {
        Ordering::Greater
    } else if a.column < b.column {
        Ordering::Less
    } else if a.column > b.column {
        Ordering::Greater
    } else {
        Ordering::Equal
    }
}

impl PartialOrd for Location {
    fn partial_cmp(&self, other: &Location) -> Option<Ordering> {
        if self.line < other.line {
            Some(Ordering::Less)
        } else if self.line > other.line {
            Some(Ordering::Greater)
        } else if self.column < other.column {
            Some(Ordering::Less)
        } else if self.column > other.column {
            Some(Ordering::Greater)
        } else {
            Some(Ordering::Equal)
        }
    }
}

impl vstd::std_specs::cmp::PartialOrdSpecImpl for Location {
    open spec fn obeys_partial_cmp_spec() -> bool {
        true
    }

    open spec fn partial_cmp_spec(&self, other: &Location) -> Option<Ordering> {
        Some(compare_locations(*self, *other))
    }
}

impl Location {
    /// Whether this is the location of the character that follows the text `s`.
    pub open spec fn follows(self, s: Seq<char>) -> bool {
        self.line == line_after(s) && self.column == column_after(s)
    }

    /// Whether both the line and the column can still be advanced by one.
    pub open spec fn can_advance(self) -> bool {
        self.line < u32::MAX && self.column < u32::MAX
    }

    /// Whether the counter that reading `c` moves (the line for a newline, the
    /// column for any other character) can still be advanced by one.
    pub open spec fn can_step(self, c: char) -> bool {
        if c == '\n' {
            self.line < u32::MAX
        } else {
            self.column < u32::MAX
        }
    }

    /// The location that follows this one once the character `c` has been read.
    pub open spec fn stepped(self, c: char) -> Location
        recommends
            self.can_step(c),
    {
        if c == '\n' {
            Location { line: (self.line + 1) as u32, column: 1 }
        } else {
            Location { line: self.line, column: (self.column + 1) as u32 }
        }
    }

    /// Constructs a location representing the beginning of a file.
    pub fn start() -> (r: Location)
        ensures
            r.line == 1,
            r.column == 1,
            r.follows(Seq::empty()),
    {
        Location { line: 1, column: 1 }
    }

    /// Advances a location to the new line and resets the column.
    pub fn next_line(&mut self)
        requires
            old(self).line < u32::MAX,
        ensures
            final(self).line == old(self).line + 1,
            final(self).column == 1,
    {
        self.column = 1;
        self.line += 1;
    }

    /// Advances a location to the next column.
    pub fn next_column(&mut self)
        requires
            old(self).column < u32::MAX,
        ensures
            final(self).line == old(self).line,
            final(self).column == old(self).column + 1,
    {
        self.column += 1;
    }
}

/// Reading one more character moves the location as `stepped` says.
pub proof fn lemma_follows_push(loc: Location, s: Seq<char>, c: char)
    requires
        loc.follows(s),
        loc.can_step(c),
    ensures
        loc.stepped(c).follows(s.push(c)),
{
    assert(s.push(c).drop_last() =~= s);
}

/// There is only one location that follows a given text: every way of
/// tracking the same characters reports the same location for the next one.
pub proof fn lemma_follows_unique(a: Location, b: Location, s: Seq<char>)
    requires
        a.follows(s),
        b.follows(s),
    ensures
        a == b,
{
}

/// In a text without newlines every character stands on the first line, and
/// the column after the first `k` characters is `k + 1`.
pub proof fn lemma_single_line(s: Seq<char>)
    requires
        forall|i: int| 0 <= i < s.len() ==> s[i] != '\n',
    ensures
        forall|k: int|
            0 <= k <= s.len() ==> line_after(#[trigger] s.take(k)) == 1 && column_after(s.take(k))
                == k + 1,
    decreases s.len(),
{
    if s.len() > 0 {
        let p = s.drop_last();
        lemma_single_line(p);
        assert forall|k: int| 0 <= k <= s.len() implies line_after(#[trigger] s.take(k)) == 1
            && column_after(s.take(k)) == k + 1 by {
            if k < s.len() {
                assert(s.take(k) =~= p.take(k));
            } else {
                assert(s.take(k) =~= s);
                assert(p.take(p.len() as int) =~= p);
            }
        }
    }
}

/// The line moves on by one exactly when a newline is read, and the column
/// is back at 1 exactly right after a newline; so the line after a text is
/// one more than the number of newlines in it.
pub proof fn lemma_newlines(s: Seq<char>, c: char)
    ensures
        line_after(s.push(c)) == line_after(s) + if c == '\n' {
            1int
        } else {
            0int
        },
        column_after(s.push(c)) == 1 <==> c == '\n',
        line_after(s) == 1 + s.filter(|x: char| x == '\n').len(),
{
    assert(s.push(c).drop_last() =~= s);
    assert(column_after(s) >= 1);
    lemma_newline_count_filter(s);
}

proof fn lemma_newline_count_filter(s: Seq<char>)
    ensures
        newline_count(s) == s.filter(|x: char| x == '\n').len(),
    decreases s.len(),
{
    reveal(Seq::filter);
    if s.len() > 0 {
        lemma_newline_count_filter(s.drop_last());
    }
}

/// A carriage return never starts a new line: it moves the column on by one
/// like any character other than a newline, both in the location that
/// follows a text and in a single step from a location `loc`.
pub proof fn lemma_carriage_return(s: Seq<char>, loc: Location)
    ensures
        line_after(s.push('\r')) == line_after(s),
        column_after(s.push('\r')) == column_after(s) + 1,
        loc.column < u32::MAX ==> loc.stepped('\r') == (Location {
            line: loc.line,
            column: (loc.column + 1) as u32,
        }),
{
    assert(s.push('\r').drop_last() =~= s);
}

} // verus!
