//! Splitting incoming text into buffer lines.
//!
//! Every piece of text handed to the pager (body content, header, footer) is
//! broken on line boundaries before it is stored: a line ends at `'\n'`, a
//! `'\r'` directly before the `'\n'` belongs to the terminator, and a final
//! line without a terminator is kept as it is.

use vstd::prelude::*;

verus! {

/// Index of the first `'\n'` in `s`, or `s.len()` if there is none.
pub open spec fn first_newline(s: Seq<char>) -> nat
    decreases s.len(),
{
    if s.len() == 0 || s[0] == '\n' {
        0
    } else {
        (1 + first_newline(s.drop_first())) as nat
    }
}

/// `first_newline` points at the first `'\n'`: nothing before it is a
/// `'\n'`, and the index itself holds one unless it is `s.len()`.
pub proof fn lemma_first_newline(s: Seq<char>)
    ensures
        first_newline(s) <= s.len(),
        forall|k: int| 0 <= k < first_newline(s) ==> s[k] != '\n',
        first_newline(s) < s.len() ==> s[first_newline(s) as int] == '\n',
    decreases s.len(),
{
    if s.len() == 0 || s[0] == '\n' {
    } else {
        lemma_first_newline(s.drop_first());
        assert forall|k: int| 0 <= k < first_newline(s) implies s[k] != '\n' by {
            if k >= 1 {
                assert(s.drop_first()[k - 1] == s[k]);
            }
        }
        if first_newline(s) < s.len() {
            assert(s.drop_first()[first_newline(s.drop_first()) as int] == '\n');
        }
    }
}

/// An index that holds a `'\n'` and has none before it is `first_newline`.
pub proof fn lemma_first_newline_at(s: Seq<char>, j: int)
    requires
        0 <= j < s.len(),
        s[j] == '\n',
        forall|k: int| 0 <= k < j ==> s[k] != '\n',
    ensures
        first_newline(s) == j,
    decreases s.len(),
{
    if j > 0 {
        assert forall|k: int| 0 <= k < j - 1 implies s.drop_first()[k] != '\n' by {
            assert(s.drop_first()[k] == s[k + 1]);
        }
        assert(s.drop_first()[j - 1] == s[j]);
        lemma_first_newline_at(s.drop_first(), j - 1);
    }
}

/// The content of a terminated line: the piece before the `'\n'`, with one
/// trailing `'\r'` removed so that a `"\r\n"` terminator leaves no `'\r'`.
pub open spec fn strip_carriage_return(s: Seq<char>) -> Seq<char> {
    if s.len() > 0 && s[s.len() - 1] == '\r' {
        s.drop_last()
    } else {
        s
    }
}

/// The lines of `s`: the pieces between `'\n'` terminators (a `'\r'`
/// directly before a `'\n'` belongs to the terminator), with no empty piece
/// after a final `'\n'` and the last piece kept verbatim when `s` does not
/// end in a terminator.
pub open spec fn spec_lines(s: Seq<char>) -> Seq<Seq<char>>
    decreases s.len(),
{
    if s.len() == 0 {
        Seq::empty()
    } else {
        let i = first_newline(s) as int;
        if i < s.len() {
            seq![strip_carriage_return(s.subrange(0, i))] + spec_lines(
                s.subrange(i + 1, s.len() as int),
            )
        } else {
            seq![s]
        }
    }
}

/// A piece with no `'\n'` at all is a single line, or no line if empty.
pub proof fn lemma_spec_lines_no_newline(s: Seq<char>)
    requires
        forall|k: int| 0 <= k < s.len() ==> s[k] != '\n',
    ensures
        s.len() == 0 ==> spec_lines(s) == Seq::<Seq<char>>::empty(),
        s.len() > 0 ==> spec_lines(s) == seq![s],
{
    if s.len() > 0 {
        lemma_first_newline(s);
        if first_newline(s) < s.len() {
            assert(s[first_newline(s) as int] == '\n');
        }
    }
}

/// Splits `text` into its lines, exactly as `spec_lines` describes.
pub fn split_lines(text: &str) -> (lines: Vec<String>)
    ensures
        lines.deep_view() == spec_lines(text@),
{
    let n: usize = text.unicode_len();
    let mut lines: Vec<String> = Vec::new();
    let mut start: usize = 0;
    let mut i: usize = 0;
    proof {
        assert(text@.subrange(0, n as int) =~= text@);
        assert(lines.deep_view() + spec_lines(text@) =~= spec_lines(text@));
    }
    while i < n
        invariant
            n == text@.len(),
            start <= i <= n,
            forall|k: int| start <= k < i ==> text@[k] != '\n',
            spec_lines(text@) == lines.deep_view() + spec_lines(
                text@.subrange(start as int, n as int),
            ),
        decreases n - i,
    {
        let c = text.get_char(i);
        if c == '\n' {
            let end: usize = if i > start && text.get_char(i - 1) == '\r' {
                i - 1
            } else {
                i
            };
            let piece = text.substring_char(start, end);
            let owned = piece.to_owned();
            let ghost prev = lines.deep_view();
            let ghost st = start as int;
            let ghost ii = i as int;
            let ghost rest = text@.subrange(st, n as int);
            proof {
                assert forall|k: int| 0 <= k < ii - st implies rest[k] != '\n' by {
                    assert(rest[k] == text@[k + st]);
                }
                assert(rest[ii - st] == text@[ii]);
                lemma_first_newline_at(rest, ii - st);
                assert(rest.subrange(0, ii - st) =~= text@.subrange(st, ii));
                assert(rest.subrange(ii - st + 1, rest.len() as int) =~= text@.subrange(
                    ii + 1,
                    n as int,
                ));
                assert(owned@ =~= strip_carriage_return(text@.subrange(st, ii)));
            }
            lines.push(owned);
            proof {
                assert(lines.deep_view() =~= prev.push(owned@));
                assert(spec_lines(rest) == seq![strip_carriage_return(rest.subrange(0, ii - st))]
                    + spec_lines(rest.subrange(ii - st + 1, rest.len() as int)));
                assert(prev + spec_lines(rest) =~= lines.deep_view() + spec_lines(
                    text@.subrange(ii + 1, n as int),
                ));
            }
            start = i + 1;
        }
        i += 1;
    }
    proof {
        lemma_spec_lines_no_newline(text@.subrange(start as int, n as int));
    }
    if start < n {
        let piece = text.substring_char(start, n);
        let owned = piece.to_owned();
        let ghost prev = lines.deep_view();
        lines.push(owned);
        proof {
            assert(lines.deep_view() =~= prev.push(owned@));
            assert(lines.deep_view() =~= prev + seq![text@.subrange(start as int, n as int)]);
        }
    }
    lines
}

} // verus!
