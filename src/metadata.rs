//! The jailer's `key:value` report.
use vstd::prelude::*;
use crate::text::{chars_of, same_text, slice_chars, string_of, unicode_trim, unicode_trim_chars};

verus! {

/// One parsed entry: a trimmed key and a trimmed value.
pub type EntryView = (Seq<char>, Seq<char>);

/// The view of an optional text.
pub open spec fn opt_view(o: Option<String>) -> Option<Seq<char>> {
    match o {
        Some(s) => Some(s@),
        None => None,
    }
}

/// The value of the last entry with key `key`: later entries overwrite
/// earlier ones.
pub open spec fn lookup(entries: Seq<EntryView>, key: Seq<char>) -> Option<Seq<char>>
    decreases entries.len(),
{
    if entries.len() == 0 {
        None
    } else if entries.last().0 == key {
        Some(entries.last().1)
    } else {
        lookup(entries.drop_last(), key)
    }
}

/// The index of the first `:` of `s`, or `s.len()` where there is none.
pub open spec fn colon_index(s: Seq<char>) -> nat
    decreases s.len(),
{
    if s.len() == 0 || s[0] == ':' {
        0
    } else {
        1 + colon_index(s.drop_first())
    }
}

/// What one report line contributes: nothing without a `:`, else the
/// text before the first `:` and the text after it, both trimmed of
/// Unicode whitespace.
pub open spec fn line_entries(line: Seq<char>) -> Seq<EntryView> {
    let i = colon_index(line) as int;
    if i >= line.len() {
        Seq::empty()
    } else {
        seq![
            (
                unicode_trim(line.subrange(0, i)),
                unicode_trim(line.subrange(i + 1, line.len() as int)),
            ),
        ]
    }
}

/// Reading `s` from the left: the entries of its completed lines, and the
/// text of the line still open.
pub open spec fn scan(s: Seq<char>) -> (Seq<EntryView>, Seq<char>)
    decreases s.len(),
{
    if s.len() == 0 {
        (Seq::empty(), Seq::empty())
    } else {
        let (done, open) = scan(s.drop_last());
        if s.last() == '\n' {
            (done + line_entries(open), Seq::empty())
        } else {
            (done, open.push(s.last()))
        }
    }
}

/// The entries of a whole report, line by line, in order.
pub open spec fn report_entries(s: Seq<char>) -> Seq<EntryView> {
    scan(s).0 + line_entries(scan(s).1)
}

/// A parsed jailer report: its entries in the order of their lines.
#[derive(Clone, Debug)]
pub struct Metadata {
    pub entries: Vec<(String, String)>,
}

impl View for Metadata {
    type V = Seq<EntryView>;

    open spec fn view(&self) -> Seq<EntryView> {
        self.entries@.map_values(|e: (String, String)| (e.0@, e.1@))
    }
}

impl Metadata {
    /// A report with no entries.
    pub fn new() -> (m: Metadata)
        ensures
            m@ == Seq::<EntryView>::empty(),
    {
        Metadata { entries: Vec::new() }
    }

    /// Records `value` under `key`, over any earlier value of that key.
    pub fn insert(&mut self, key: String, value: String)
        ensures
            final(self)@ == old(self)@.push((key@, value@)),
    {
        self.entries.push((key, value));
        assert(final(self)@ =~= old(self)@.push((key@, value@)));
    }

    /// The value recorded last under `key`.
    pub fn get(&self, key: &str) -> (r: Option<String>)
        ensures
            opt_view(r) == lookup(self@, key@),
    {
        let mut i: usize = self.entries.len();
        assert(self@.subrange(0, i as int) =~= self@);
        while i > 0
            invariant
                i <= self.entries@.len(),
                lookup(self@, key@) == lookup(self@.subrange(0, i as int), key@),
            decreases i,
        {
            let ghost pre = self@.subrange(0, i as int);
            assert(pre.drop_last() =~= self@.subrange(0, i - 1));
            assert(pre.last() == (self.entries@[i - 1].0@, self.entries@[i - 1].1@));
            if same_text(self.entries[i - 1].0.as_str(), key) {
                return Some(self.entries[i - 1].1.clone());
            }
            i = i - 1;
        }
        None
    }

    /// Parses a jailer report: each line `key:value`, split at its first
    /// `:`, with both sides trimmed; lines without `:` are skipped.
    pub fn parse(text: &str) -> (m: Metadata)
        ensures
            m@ == report_entries(text@),
    {
        let v = chars_of(text);
        let mut m = Metadata::new();
        let mut line: Vec<char> = Vec::new();
        let mut i: usize = 0;
        assert(v@.subrange(0, 0) =~= Seq::<char>::empty());
        while i < v.len()
            invariant
                i <= v@.len(),
                v@ == text@,
                (m@, line@) == scan(v@.subrange(0, i as int)),
            decreases v@.len() - i,
        {
            assert(v@.subrange(0, i + 1).drop_last() =~= v@.subrange(0, i as int));
            if v[i] == '\n' {
                Self::add_line(&mut m, &line);
                line = Vec::new();
            } else {
                line.push(v[i]);
            }
            i = i + 1;
        }
        assert(v@.subrange(0, i as int) =~= v@);
        Self::add_line(&mut m, &line);
        m
    }

    fn add_line(m: &mut Metadata, line: &Vec<char>)
        ensures
            final(m)@ == old(m)@ + line_entries(line@),
    {
        let n = line.len();
        let mut i: usize = 0;
        assert(line@.subrange(0, n as int) =~= line@);
        while i < n && line[i] != ':'
            invariant
                i <= n == line@.len(),
                colon_index(line@) == i + colon_index(line@.subrange(i as int, n as int)),
            decreases n - i,
        {
            assert(line@.subrange(i as int, n as int).drop_first() =~= line@.subrange(
                i + 1,
                n as int,
            ));
            i = i + 1;
        }
        if i == n {
            assert(line@.subrange(i as int, n as int).len() == 0);
            assert(line_entries(line@) =~= Seq::<EntryView>::empty());
            assert(final(m)@ =~= old(m)@ + line_entries(line@));
            return;
        }
        assert(line@.subrange(i as int, n as int)[0] == ':');
        let key = unicode_trim_chars(&slice_chars(line, 0, i));
        let value = unicode_trim_chars(&slice_chars(line, i + 1, n));
        m.insert(string_of(&key), string_of(&value));
        assert(final(m)@ =~= old(m)@ + line_entries(line@));
    }
}

} // verus!
