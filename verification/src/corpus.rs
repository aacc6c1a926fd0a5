//! The corpus store: an immutable set of known-common passwords with
//! average O(1) membership testing, built once from the corpus lines
//! and shared read-only thereafter.

use vstd::prelude::*;
use vstd::hash_set::StringHashSet;
use vstd::string::StrSliceExecFns;

verus! {

/// The character index of the first line feed in `s`, or `s.len()` if
/// there is none.
pub open spec fn first_newline(s: Seq<char>) -> int
    decreases s.len(),
{
    if s.len() == 0 {
        0
    } else if s[0] == '\n' {
        0
    } else {
        1 + first_newline(s.skip(1))
    }
}

/// `first_newline` finds the first line feed: it is in bounds, nothing
/// before it is a line feed, and it points at one unless there is none.
proof fn lemma_first_newline(s: Seq<char>)
    ensures
        0 <= first_newline(s) <= s.len(),
        first_newline(s) < s.len() ==> s[first_newline(s)] == '\n',
        forall|j: int| 0 <= j < first_newline(s) ==> s[j] != '\n',
    decreases s.len(),
{
    if s.len() == 0 {
    } else if s[0] == '\n' {
    } else {
        lemma_first_newline(s.skip(1));
        assert forall|j: int| 0 <= j < first_newline(s) implies s[j] != '\n' by {
            if j > 0 {
                assert(s.skip(1)[j - 1] != '\n');
            }
        }
        if first_newline(s) < s.len() {
            assert(s[first_newline(s)] == s.skip(1)[first_newline(s) - 1]);
        }
    }
}

/// A line with one carriage return stripped from its end, so that a
/// line ending in a carriage-return-line-feed pair reads the same as
/// one ending in a bare line feed.
pub open spec fn strip_cr(line: Seq<char>) -> Seq<char> {
    if line.len() > 0 && line.last() == '\r' {
        line.drop_last()
    } else {
        line
    }
}

/// The lines of a corpus text: the text is split at every line feed, a
/// carriage return directly before a line feed belongs to the line
/// ending, and the final line ending is optional — it opens no further
/// empty line.
pub open spec fn spec_lines(s: Seq<char>) -> Seq<Seq<char>>
    decreases s.len(),
    via spec_lines_decreases
{
    if s.len() == 0 {
        Seq::empty()
    } else {
        let i = first_newline(s);
        if i == s.len() {
            seq![s]
        } else {
            seq![strip_cr(s.take(i))] + spec_lines(s.skip(i + 1))
        }
    }
}

#[via_fn]
proof fn spec_lines_decreases(s: Seq<char>) {
    lemma_first_newline(s);
}

/// Split a corpus text into its lines, as [`spec_lines`] describes
/// them: one password per line, newline-delimited, with no quoting or
/// escaping.
pub fn split_lines(s: &str) -> (lines: Vec<String>)
    ensures
        lines@.map_values(|line: String| line@) == spec_lines(s@),
{
    let n = s.unicode_len();
    let mut lines: Vec<String> = Vec::new();
    let mut start: usize = 0;
    let mut i: usize = 0;
    proof {
        assert(s@.skip(0) =~= s@);
        assert(lines@.map_values(|line: String| line@) + spec_lines(s@) =~~= spec_lines(s@));
    }
    while i < n
        invariant
            n == s@.len(),
            start <= i <= n,
            forall|j: int| start <= j < i ==> s@[j] != '\n',
            lines@.map_values(|line: String| line@) + spec_lines(s@.skip(start as int))
                == spec_lines(s@),
        decreases n - i,
    {
        if s.get_char(i) == '\n' {
            let piece: &str = if i > start && s.get_char(i - 1) == '\r' {
                s.substring_char(start, i - 1)
            } else {
                s.substring_char(start, i)
            };
            let ghost old_lines = lines@;
            lines.push(piece.to_owned());
            proof {
                let rest = s@.skip(start as int);
                lemma_first_newline(rest);
                let found = first_newline(rest);
                assert(rest[i - start as int] == '\n');
                if found < i - start as int {
                    assert(rest[found] == s@[start + found]);
                    assert(s@[start + found] != '\n');
                }
                if found > i - start as int {
                    assert(rest[i - start as int] != '\n');
                }
                assert(found == i - start as int);
                assert(rest.take(found) =~= s@.subrange(start as int, i as int));
                assert(rest.skip(found + 1) =~= s@.skip(i + 1));
                assert(piece@ == strip_cr(s@.subrange(start as int, i as int)));
                assert(spec_lines(rest) == seq![piece@] + spec_lines(s@.skip(i + 1)));
                assert(lines@.map_values(|line: String| line@) =~~= old_lines.map_values(
                    |line: String| line@,
                ).push(piece@));
                assert(old_lines.map_values(|line: String| line@) + (seq![piece@] + spec_lines(
                    s@.skip(i + 1),
                )) =~~= lines@.map_values(|line: String| line@) + spec_lines(s@.skip(i + 1)));
            }
            start = i + 1;
        }
        i += 1;
    }
    let ghost rest = s@.skip(start as int);
    proof {
        lemma_first_newline(rest);
        if first_newline(rest) < rest.len() {
            assert(rest[first_newline(rest)] == s@[start + first_newline(rest)]);
        }
        assert(first_newline(rest) == rest.len());
    }
    if start < n {
        let piece = s.substring_char(start, n);
        let ghost old_lines = lines@;
        lines.push(piece.to_owned());
        proof {
            assert(piece@ =~= rest);
            assert(spec_lines(rest) == seq![rest]);
            assert(lines@.map_values(|line: String| line@) =~~= old_lines.map_values(
                |line: String| line@,
            ).push(rest));
            assert(old_lines.map_values(|line: String| line@) + seq![rest] =~~= lines@.map_values(
                |line: String| line@,
            ));
        }
    } else {
        proof {
            assert(rest =~= Seq::<char>::empty());
            assert(lines@.map_values(|line: String| line@) + spec_lines(rest) =~~= lines@
                .map_values(|line: String| line@));
        }
    }
    lines
}

/// The set of passwords named by a sequence of corpus lines, by exact
/// character equality: no normalization, no trimming beyond the line
/// boundaries themselves.
pub open spec fn line_set(lines: Seq<Seq<char>>) -> Set<Seq<char>> {
    Set::new(|password: Seq<char>| lines.contains(password))
}

/// An immutable set of known-common password strings. It is built once,
/// never mutated afterwards, and safe for unsynchronized concurrent
/// reads; its view is the set of corpus passwords as character
/// sequences.
pub struct Corpus {
    entries: StringHashSet,
}

impl View for Corpus {
    type V = Set<Seq<char>>;

    closed spec fn view(&self) -> Set<Seq<char>> {
        self.entries@
    }
}

impl Corpus {
    /// Build the corpus from its lines, one password per line, indexed
    /// by exact character equality.
    pub fn from_lines(lines: &Vec<String>) -> (corpus: Corpus)
        ensures
            corpus@ == line_set(lines@.map_values(|line: String| line@)),
    {
        let mut entries = StringHashSet::with_capacity(lines.len());
        let mut i: usize = 0;
        while i < lines.len()
            invariant
                i <= lines@.len(),
                forall|password: Seq<char>| #[trigger]
                    entries@.contains(password) <==> exists|j: int|
                        0 <= j < i && lines@[j]@ == password,
            decreases lines@.len() - i,
        {
            let line = lines[i].clone();
            let ghost before = entries@;
            entries.insert(line);
            proof {
                assert forall|password: Seq<char>| #[trigger] entries@.contains(password) implies
                    exists|j: int| 0 <= j < i + 1 && lines@[j]@ == password by {
                    if before.contains(password) {
                        let j = choose|j: int| 0 <= j < i && lines@[j]@ == password;
                        assert(0 <= j < i + 1 && lines@[j]@ == password);
                    } else {
                        assert(0 <= (i as int) < i + 1 && lines@[i as int]@ == password);
                    }
                }
                assert forall|password: Seq<char>|
                    (exists|j: int| 0 <= j < i + 1 && lines@[j]@ == password) implies #[trigger]
                    entries@.contains(password) by {
                    let j = choose|j: int| 0 <= j < i + 1 && lines@[j]@ == password;
                    if j < i as int {
                        assert(before.contains(password));
                    } else {
                        assert(lines@[i as int]@ == password);
                    }
                }
            }
            i += 1;
        }
        proof {
            let views = lines@.map_values(|line: String| line@);
            assert forall|password: Seq<char>|
                entries@.contains(password) == line_set(views).contains(password) by {
                if entries@.contains(password) {
                    let j = choose|j: int| 0 <= j < lines@.len() && lines@[j]@ == password;
                    assert(views[j] == password);
                    assert(views.contains(password));
                }
                if views.contains(password) {
                    let j = choose|j: int| 0 <= j < views.len() && views[j] == password;
                    assert(lines@[j]@ == password);
                }
            }
            assert(entries@ =~= line_set(views));
        }
        Corpus { entries }
    }

    /// Build the corpus from the full corpus text: one password per
    /// line, newline-delimited, with no quoting or escaping, indexed by
    /// exact character equality.
    pub fn from_text(contents: &str) -> (corpus: Corpus)
        ensures
            corpus@ == line_set(spec_lines(contents@)),
    {
        let lines = split_lines(contents);
        Corpus::from_lines(&lines)
    }

    /// Average O(1) membership test: is this password in the corpus,
    /// by exact character equality? A password differing by even one
    /// character from a corpus entry is not a member.
    pub fn contains(&self, password: &str) -> (present: bool)
        ensures
            present == self@.contains(password@),
    {
        self.entries.contains(password)
    }
}

} // verus!
