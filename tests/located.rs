use charsloc::{Located, Location};

fn assert_next_loc<I: Iterator<Item = char>>(
    iter: &mut Located<I>,
    value: char,
    line: u32,
    column: u32,
) {
    assert_eq!(iter.location().line, line);
    assert_eq!(iter.location().column, column);
    assert_eq!(iter.next(), Some(value));
}

#[test]
fn located_test_single_line() {
    let mut iter = Located::new("foo".chars());
    assert_next_loc(&mut iter, 'f', 1, 1);
    assert_next_loc(&mut iter, 'o', 1, 2);
    assert_next_loc(&mut iter, 'o', 1, 3);
}

#[test]
fn located_test_multi_line() {
    let mut iter = Located::new("a\nbc\nd".chars());
    assert_next_loc(&mut iter, 'a', 1, 1);
    assert_next_loc(&mut iter, '\n', 1, 2);
    assert_next_loc(&mut iter, 'b', 2, 1);
    assert_next_loc(&mut iter, 'c', 2, 2);
    assert_next_loc(&mut iter, '\n', 2, 3);
    assert_next_loc(&mut iter, 'd', 3, 1);
}

#[test]
fn located_test_carriage_newline() {
    let mut iter = Located::new("a\r\n\nb".chars());
    assert_next_loc(&mut iter, 'a', 1, 1);
    assert_next_loc(&mut iter, '\r', 1, 2);
    assert_next_loc(&mut iter, '\n', 1, 3);
    assert_next_loc(&mut iter, '\n', 2, 1);
    assert_next_loc(&mut iter, 'b', 3, 1);
}

#[test]
fn located_doc_example() {
    let mut iter = Located::new("ab\nd".chars());
    assert_eq!(iter.location(), Location { line: 1, column: 1 });
    assert_eq!(iter.next(), Some('a'));
    assert_eq!(iter.location(), Location { line: 1, column: 2 });
    assert_eq!(iter.next(), Some('b'));
    assert_eq!(iter.location(), Location { line: 1, column: 3 });
    assert_eq!(iter.next(), Some('\n'));
    assert_eq!(iter.location(), Location { line: 2, column: 1 });
    assert_eq!(iter.next(), Some('d'));
    assert_eq!(iter.location(), Location { line: 2, column: 2 });
    assert_eq!(iter.next(), None);
    assert_eq!(iter.location(), Location { line: 2, column: 2 });
}

#[test]
fn located_empty_input() {
    let mut iter = Located::new("".chars());
    assert_eq!(iter.location(), Location { line: 1, column: 1 });
    assert_eq!(iter.next(), None);
    assert_eq!(iter.location(), Location { line: 1, column: 1 });
}

#[test]
fn located_single_line_columns_count_up() {
    let text = "hello, world";
    let mut iter = Located::new(text.chars());
    let mut k: u32 = 0;
    while let Some(_) = iter.next() {
        k += 1;
        assert_eq!(iter.location(), Location { line: 1, column: k + 1 });
    }
    assert_eq!(k, 12);
}

#[test]
fn located_lines_count_newlines() {
    let text = "x\n\nyz\n\r\nw";
    let mut iter = Located::new(text.chars());
    let mut newlines: u32 = 0;
    while let Some(c) = iter.next() {
        if c == '\n' {
            newlines += 1;
            assert_eq!(iter.location().column, 1);
        } else {
            assert!(iter.location().column > 1);
        }
        assert_eq!(iter.location().line, newlines + 1);
    }
    assert_eq!(newlines, 4);
    assert_eq!(iter.location(), Location { line: 5, column: 2 });
}

#[test]
fn located_carriage_return_advances_column() {
    let mut iter = Located::new("\r\r\r".chars());
    assert_eq!(iter.next(), Some('\r'));
    assert_eq!(iter.next(), Some('\r'));
    assert_eq!(iter.next(), Some('\r'));
    assert_eq!(iter.location(), Location { line: 1, column: 4 });
}

#[test]
fn located_yields_the_same_characters() {
    let text = "a\r\n\tb\nc d\u{e9}";
    let mut iter = Located::new(text.chars());
    let mut out: Vec<char> = Vec::new();
    while let Some(c) = iter.next() {
        out.push(c);
    }
    let direct: Vec<char> = text.chars().collect();
    assert_eq!(out, direct);
}

#[test]
fn located_iter_gives_underlying() {
    let iter = Located::new("a".chars());
    assert_eq!(iter.iter().size_hint(), iter.size_hint());
    assert_eq!(iter.iter().as_str(), "a");
}

#[test]
fn located_iter_mut_bypasses_tracking() {
    let mut iter = Located::new("ab".chars().peekable());
    assert_eq!(iter.iter_mut().peek(), Some(&'a'));
    assert_eq!(iter.iter_mut().next(), Some('a'));
    assert_eq!(iter.location(), Location { line: 1, column: 1 });
    assert_eq!(iter.next(), Some('b'));
    assert_eq!(iter.location(), Location { line: 1, column: 2 });
}

#[test]
fn located_count_skips_tracking() {
    let mut iter = Located::new("ab\ncd".chars());
    assert_eq!(iter.next(), Some('a'));
    assert_eq!(iter.count(), 4);
}
