//! A set of paths that name fields of a message.

use vstd::prelude::*;

use crate::text::{chars_of, join_strings, joined, owned, str_equal, texts};

verus! {

/// Whether a character has the Unicode property `White_Space`.
pub uninterp spec fn is_white_space(c: char) -> bool;

/// `char::is_whitespace` of the standard library tells whether a character
/// has the Unicode property `White_Space`.
pub assume_specification[ char::is_whitespace ](c: char) -> (r: bool)
    ensures
        r == is_white_space(c),
;

/// The pieces of a text between its separators. A text without separator
/// is one piece; the empty text is one empty piece.
pub open spec fn pieces(s: Seq<char>, separator: char) -> Seq<Seq<char>>
    decreases s.len(),
{
    if s.len() == 0 {
        seq![Seq::<char>::empty()]
    } else if s.last() == separator {
        pieces(s.drop_last(), separator).push(Seq::<char>::empty())
    } else {
        pieces(s.drop_last(), separator).drop_last().push(
            pieces(s.drop_last(), separator).last().push(s.last()),
        )
    }
}

/// The text without the white space at its start.
pub open spec fn trim_start(s: Seq<char>) -> Seq<char>
    decreases s.len(),
{
    if s.len() > 0 && is_white_space(s[0]) {
        trim_start(s.drop_first())
    } else {
        s
    }
}

/// The text without the white space at its end.
pub open spec fn trim_end(s: Seq<char>) -> Seq<char>
    decreases s.len(),
{
    if s.len() > 0 && is_white_space(s.last()) {
        trim_end(s.drop_last())
    } else {
        s
    }
}

/// The text without the white space at its start and at its end.
pub open spec fn trimmed(s: Seq<char>) -> Seq<char> {
    trim_end(trim_start(s))
}

/// The paths that a text of paths with commas between them names: none
/// for the empty text, else each piece without the white space around it.
pub open spec fn paths_of(s: Seq<char>) -> Seq<Seq<char>> {
    if s.len() == 0 {
        Seq::<Seq<char>>::empty()
    } else {
        pieces(s, ',').map_values(|piece: Seq<char>| trimmed(piece))
    }
}

/// The characters of a sequence of vectors.
pub open spec fn views(vectors: Seq<Vec<char>>) -> Seq<Seq<char>> {
    vectors.map_values(|v: Vec<char>| v@)
}

/// The pieces of the characters between commas.
pub fn split_on_commas(chars: &Vec<char>) -> (r: Vec<Vec<char>>)
    ensures
        views(r@) == pieces(chars@, ','),
{
    let mut done: Vec<Vec<char>> = Vec::new();
    let mut current: Vec<char> = Vec::new();
    let mut i: usize = 0;
    assert(chars@.subrange(0, 0) =~= Seq::<char>::empty());
    assert(views(done@).push(current@) =~= pieces(chars@.subrange(0, 0), ','));
    while i < chars.len()
        invariant
            i <= chars.len(),
            views(done@).push(current@) == pieces(chars@.subrange(0, i as int), ','),
        decreases chars.len() - i,
    {
        let ghost before = chars@.subrange(0, i as int);
        let ghost after = chars@.subrange(0, i + 1);
        assert(after.drop_last() =~= before);
        assert(after.last() == chars@[i as int]);
        let ghost done_before = views(done@);
        let ghost current_before = current@;
        let c = chars[i];
        if c == ',' {
            done.push(current);
            current = Vec::new();
            assert(views(done@) =~= done_before.push(current_before));
            assert(views(done@).push(current@) =~= pieces(after, ','));
        } else {
            current.push(c);
            assert(done_before.push(current_before).drop_last() =~= done_before);
            assert(views(done@).push(current@) =~= pieces(after, ','));
        }
        i = i + 1;
    }
    assert(chars@.subrange(0, i as int) =~= chars@);
    let ghost done_before = views(done@);
    let ghost last = current@;
    done.push(current);
    assert(views(done@) =~= done_before.push(last));
    done
}

/// The characters without the white space around them, as a string.
pub fn trimmed_string(chars: &Vec<char>) -> (r: String)
    ensures
        r@ == trimmed(chars@),
{
    let n = chars.len();
    let mut start: usize = 0;
    assert(chars@.subrange(0, n as int) =~= chars@);
    while start < n && chars[start].is_whitespace()
        invariant
            start <= n,
            n == chars.len(),
            trim_start(chars@) == trim_start(chars@.subrange(start as int, n as int)),
        decreases n - start,
    {
        assert(chars@.subrange(start as int, n as int).drop_first() =~= chars@.subrange(
            start + 1,
            n as int,
        ));
        start = start + 1;
    }
    let mut end: usize = n;
    assert(trim_start(chars@) == chars@.subrange(start as int, n as int));
    while end > start && chars[end - 1].is_whitespace()
        invariant
            start <= end <= n,
            n == chars.len(),
            trimmed(chars@) == trim_end(chars@.subrange(start as int, end as int)),
        decreases end - start,
    {
        assert(chars@.subrange(start as int, end as int).drop_last() =~= chars@.subrange(
            start as int,
            end - 1,
        ));
        end = end - 1;
    }
    assert(trimmed(chars@) == chars@.subrange(start as int, end as int));
    let mut out = String::new();
    let mut i: usize = start;
    while i < end
        invariant
            start <= i <= end <= chars.len(),
            out@ == chars@.subrange(start as int, i as int),
        decreases end - i,
    {
        out.push(chars[i]);
        i = i + 1;
        assert(out@ =~= chars@.subrange(start as int, i as int));
    }
    out
}

/// A list of field paths, such as `user.name`.
#[derive(Clone, Debug, PartialEq, Eq, Hash, Default)]
pub struct FieldMask {
    pub paths: Vec<String>,
}

impl FieldMask {
    /// A mask of the given paths.
    #[must_use]
    pub fn new(paths: Vec<String>) -> (r: Self)
        ensures
            r.paths == paths,
    {
        Self { paths }
    }

    /// Whether `path` is one of the paths.
    #[must_use]
    pub fn contains_path(&self, path: &str) -> (r: bool)
        ensures
            r == texts(self.paths@).contains(path@),
    {
        let mut i: usize = 0;
        while i < self.paths.len()
            invariant
                i <= self.paths@.len(),
                forall|j: int| 0 <= j < i ==> texts(self.paths@)[j] != path@,
            decreases self.paths.len() - i,
        {
            if str_equal(self.paths[i].as_str(), path) {
                assert(texts(self.paths@)[i as int] == path@);
                return true;
            }
            i = i + 1;
        }
        false
    }

    /// Adds `path` at the end of the list.
    pub fn add_path(&mut self, path: &str)
        ensures
            texts(final(self).paths@) == texts(old(self).paths@).push(path@),
    {
        self.paths.push(owned(path));
        assert(texts(self.paths@) =~= texts(old(self).paths@).push(path@));
    }

    /// The mask that a text of paths with commas between them names: the
    /// inverse of [`FieldMask::to_joined`], lenient about white space around
    /// the paths.
    #[must_use]
    pub fn from_joined(value: &str) -> (r: Self)
        ensures
            texts(r.paths@) == paths_of(value@),
    {
        let chars = chars_of(value);
        let mut paths: Vec<String> = Vec::new();
        if chars.len() == 0 {
            assert(texts(paths@) =~= paths_of(value@));
            return Self { paths };
        }
        let parts = split_on_commas(&chars);
        let mut i: usize = 0;
        while i < parts.len()
            invariant
                i <= parts.len(),
                views(parts@) == pieces(value@, ','),
                texts(paths@) == paths_of(value@).subrange(0, i as int),
                value@.len() > 0,
            decreases parts.len() - i,
        {
            let ghost before = texts(paths@);
            let path = trimmed_string(&parts[i]);
            paths.push(path);
            assert(views(parts@)[i as int] == parts@[i as int]@);
            assert(texts(paths@) =~= before.push(path@));
            assert(texts(paths@) =~= paths_of(value@).subrange(0, i + 1));
            i = i + 1;
        }
        assert(paths_of(value@).subrange(0, parts@.len() as int) =~= paths_of(value@));
        Self { paths }
    }

    /// The paths in a row with commas between them: the form in which a
    /// mask is written in JSON.
    #[must_use]
    pub fn to_joined(&self) -> (r: String)
        ensures
            r@ == joined(texts(self.paths@), seq![',']),
    {
        proof {
            reveal_strlit(",");
            assert(","@ =~= seq![',']);
        }
        join_strings(&self.paths, ",")
    }
}

} // verus!
