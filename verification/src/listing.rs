//! The asset-listing parser: turns the large-file listing — one entry per
//! line, the filename following the first `-` separator — into the ordered
//! list of asset names to fetch.
use vstd::prelude::*;

use crate::text::{
    ends_with_char, find_char, spec_split_once, spec_trim, split_once_char, str_ends_with_char,
    trim_blanks,
};

verus! {

/// A line without its one trailing carriage return, if it has one.
pub open spec fn spec_strip_cr(l: Seq<char>) -> Seq<char> {
    if ends_with_char(l, '\r') {
        l.take(l.len() - 1)
    } else {
        l
    }
}

/// The text split at every newline, keeping carriage returns; no trailing
/// empty line when the text ends in a newline.
pub open spec fn spec_lines_raw(s: Seq<char>) -> Seq<Seq<char>>
    decreases s.len(),
{
    if s.len() == 0 {
        Seq::empty()
    } else if s[0] == '\n' {
        seq![Seq::<char>::empty()] + spec_lines_raw(s.skip(1))
    } else {
        let rest = spec_lines_raw(s.skip(1));
        if rest.len() == 0 {
            seq![seq![s[0]]]
        } else {
            seq![seq![s[0]] + rest[0]] + rest.skip(1)
        }
    }
}

/// The lines of the text: split at newlines, each without a trailing
/// carriage return.
pub open spec fn spec_lines(s: Seq<char>) -> Seq<Seq<char>> {
    spec_lines_raw(s).map_values(|l: Seq<char>| spec_strip_cr(l))
}

proof fn lemma_lines_raw_no_newline(s: Seq<char>)
    requires
        s.len() > 0,
        forall|j: int| 0 <= j < s.len() ==> s[j] != '\n',
    ensures
        spec_lines_raw(s) == seq![s],
    decreases s.len(),
{
    if s.len() == 1 {
        assert(s.skip(1) =~= Seq::<char>::empty());
        assert(spec_lines_raw(s.skip(1)).len() == 0);
        assert(seq![s[0]] =~= s);
        assert(spec_lines_raw(s) =~= seq![s]);
    } else {
        lemma_lines_raw_no_newline(s.skip(1));
        let rest = spec_lines_raw(s.skip(1));
        assert(rest == seq![s.skip(1)]);
        assert(rest.len() == 1);
        assert(seq![s[0]] + rest[0] =~= s);
        assert(rest.skip(1) =~= Seq::<Seq<char>>::empty());
        assert(spec_lines_raw(s) =~= seq![s]);
    }
}

proof fn lemma_lines_raw_split_at(s: Seq<char>, i: int)
    requires
        0 <= i < s.len(),
        s[i] == '\n',
        forall|j: int| 0 <= j < i ==> s[j] != '\n',
    ensures
        spec_lines_raw(s) == seq![s.take(i)] + spec_lines_raw(s.skip(i + 1)),
    decreases i,
{
    if i == 0 {
        assert(s.take(0) =~= Seq::<char>::empty());
        assert(spec_lines_raw(s) =~= seq![s.take(0)] + spec_lines_raw(s.skip(1)));
    } else {
        lemma_lines_raw_split_at(s.skip(1), i - 1);
        let rest = spec_lines_raw(s.skip(1));
        let tail = spec_lines_raw(s.skip(1).skip(i));
        assert(rest == seq![s.skip(1).take(i - 1)] + tail);
        assert(rest.len() == 1 + tail.len());
        assert(rest[0] == s.skip(1).take(i - 1));
        assert(rest.skip(1) =~= tail);
        assert(seq![s[0]] + s.skip(1).take(i - 1) =~= s.take(i));
        assert(s.skip(1).skip(i) =~= s.skip(i + 1));
        assert(spec_lines_raw(s) =~= seq![s.take(i)] + spec_lines_raw(s.skip(i + 1)));
    }
}

/// A line without its trailing carriage return, if it has one.
pub fn strip_cr_line(l: &str) -> (r: String)
    ensures
        r@ == spec_strip_cr(l@),
{
    let n: usize = l.unicode_len();
    if str_ends_with_char(l, '\r') {
        String::from_str(l.substring_char(0, n - 1))
    } else {
        String::from_str(l)
    }
}

/// Split a text into its lines, as `spec_lines` describes them.
pub fn split_lines(s: &str) -> (r: Vec<String>)
    ensures
        r.deep_view() == spec_lines(s@),
{
    let mut rest: String = String::from_str(s);
    let mut out: Vec<String> = Vec::new();
    proof {
        assert(out.deep_view() + spec_lines(s@) =~= spec_lines(s@));
    }
    loop
        invariant
            spec_lines(s@) == out.deep_view() + spec_lines(rest@),
        decreases rest@.len(),
    {
        let ghost old_out = out.deep_view();
        match find_char(rest.as_str(), '\n') {
            Some(i) => {
                let n: usize = rest.as_str().unicode_len();
                let line = strip_cr_line(rest.as_str().substring_char(0, i));
                let new_rest = String::from_str(rest.as_str().substring_char(i + 1, n));
                out.push(line);
                proof {
                    lemma_lines_raw_split_at(rest@, i as int);
                    assert(rest@.subrange(0, i as int) =~= rest@.take(i as int));
                    assert(rest@.subrange(i + 1, rest@.len() as int) =~= rest@.skip(i + 1));
                    assert(spec_lines(rest@) =~= seq![spec_strip_cr(rest@.take(i as int))]
                        + spec_lines(rest@.skip(i + 1)));
                    assert(out.deep_view() =~= old_out.push(line@));
                    assert(spec_lines(s@) =~= out.deep_view() + spec_lines(new_rest@));
                }
                rest = new_rest;
            },
            None => {
                if rest.as_str().unicode_len() > 0 {
                    let line = strip_cr_line(rest.as_str());
                    out.push(line);
                    proof {
                        lemma_lines_raw_no_newline(rest@);
                        assert(spec_lines(rest@) =~= seq![spec_strip_cr(rest@)]);
                        assert(out.deep_view() =~= old_out.push(line@));
                        assert(out.deep_view() =~= spec_lines(s@));
                    }
                } else {
                    proof {
                        assert(spec_lines(rest@) =~= Seq::<Seq<char>>::empty());
                        assert(out.deep_view() =~= spec_lines(s@));
                    }
                }
                return out;
            },
        }
    }
}

/// The asset name an entry line denotes: the text following the first `-`
/// separator, trimmed of blanks — or nothing, for a line with no separator.
pub open spec fn spec_parse_entry(line: Seq<char>) -> Option<Seq<char>> {
    match spec_split_once(line, '-') {
        None => None,
        Some(p) => Some(spec_trim(p.1)),
    }
}

/// Extract the asset name from one entry line.
pub fn parse_entry(line: &str) -> (r: Option<String>)
    ensures
        match r {
            Some(name) => spec_parse_entry(line@) == Some(name@),
            None => spec_parse_entry(line@) is None,
        },
{
    match split_once_char(line, '-') {
        Some(p) => Some(trim_blanks(p.1.as_str())),
        None => None,
    }
}

/// The asset names a whole listing denotes, when every line parses.
pub open spec fn spec_parse_listing(text: Seq<char>) -> Option<Seq<Seq<char>>> {
    let lines = spec_lines(text);
    if forall|i: int| 0 <= i < lines.len() ==> (#[trigger] spec_parse_entry(lines[i])) is Some {
        Some(Seq::new(lines.len(), |i: int| spec_parse_entry(lines[i]).unwrap()))
    } else {
        None
    }
}

/// Parse a whole listing into the ordered list of asset names, one per
/// line. A listing with an entry line that has no separator does not parse.
pub fn parse_listing(text: &str) -> (r: Option<Vec<String>>)
    ensures
        match r {
            Some(names) => spec_parse_listing(text@) == Some(names.deep_view()),
            None => spec_parse_listing(text@) is None,
        },
{
    let lines = split_lines(text);
    let mut names: Vec<String> = Vec::new();
    let n: usize = lines.len();
    let mut i: usize = 0;
    while i < n
        invariant
            i <= n,
            n == lines@.len(),
            lines.deep_view() == spec_lines(text@),
            names@.len() == i,
            forall|k: int|
                0 <= k < i ==> (#[trigger] spec_parse_entry(lines.deep_view()[k])) == Some(
                    names.deep_view()[k],
                ),
        decreases n - i,
    {
        match parse_entry(lines[i].as_str()) {
            Some(name) => {
                names.push(name);
            },
            None => {
                proof {
                    assert(spec_parse_entry(spec_lines(text@)[i as int]) is None);
                }
                return None;
            },
        }
        i = i + 1;
    }
    proof {
        let lv = spec_lines(text@);
        assert(forall|k: int| 0 <= k < lv.len() ==> (#[trigger] spec_parse_entry(lv[k])) is Some);
        assert(names.deep_view() =~= Seq::new(lv.len(), |k: int| spec_parse_entry(lv[k]).unwrap()));
    }
    Some(names)
}

} // verus!
