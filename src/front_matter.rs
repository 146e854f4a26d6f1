//! Splitting a template file into its front matter and its body.
//!
//! A file that contains the marker `---` is read as `header --- body --- ...`:
//! the header holds `key: value` lines and the body is the text between the
//! first and the second marker. A file without the marker is all body.
use crate::attributes::Attributes;
use crate::text::{
    chars_of, find_char, lemma_next_pos_least, lemma_next_pos_none, next_pos, substring, trim,
    trim_bounds,
};
use vstd::prelude::*;

verus! {

/// The front-matter marker.
pub open spec fn marker() -> Seq<char> {
    seq!['-', '-', '-']
}

/// The key under which every document carries its file stem.
pub open spec fn name_key() -> Seq<char> {
    seq!['n', 'a', 'm', 'e']
}

pub open spec fn marker_at(s: Seq<char>, i: int) -> bool {
    0 <= i && i + 3 <= s.len() && s.subrange(i, i + 3) == marker()
}

/// Start of the first marker at or after `i`, or -1 when there is none.
pub open spec fn next_marker(s: Seq<char>, i: int) -> int
    decreases s.len() - i,
{
    if i < 0 || i + 3 > s.len() {
        -1
    } else if marker_at(s, i) {
        i
    } else {
        next_marker(s, i + 1)
    }
}

/// The body of a file: all of it when it has no marker, the text between the
/// first two markers when it has two or more, and nothing (a malformed file)
/// when it has only one.
pub open spec fn body_of(s: Seq<char>) -> Option<Seq<char>> {
    let a = next_marker(s, 0);
    if a < 0 {
        Some(s)
    } else {
        let b = next_marker(s, a + 3);
        if b < 0 {
            None
        } else {
            Some(s.subrange(a + 3, b))
        }
    }
}

/// The lines of `s`, split on `'\n'` (an empty text is one empty line).
pub open spec fn lines(s: Seq<char>) -> Seq<Seq<char>>
    decreases s.len(),
{
    let p = next_pos(s, '\n', 0);
    if p < 0 || p >= s.len() {
        seq![s]
    } else {
        seq![s.take(p)] + lines(s.skip(p + 1))
    }
}

/// What one header line does to the attributes: with a colon, the trimmed
/// text before the first colon is set to the trimmed text after it; without
/// one, nothing.
pub open spec fn apply_line(m: Map<Seq<char>, Seq<char>>, line: Seq<char>) -> Map<
    Seq<char>,
    Seq<char>,
> {
    let c = next_pos(line, ':', 0);
    if c < 0 {
        m
    } else {
        m.insert(trim(line.take(c)), trim(line.skip(c + 1)))
    }
}

/// The header lines applied in order.
pub open spec fn apply_lines(m: Map<Seq<char>, Seq<char>>, ls: Seq<Seq<char>>) -> Map<
    Seq<char>,
    Seq<char>,
>
    decreases ls.len(),
{
    if ls.len() == 0 {
        m
    } else {
        apply_lines(apply_line(m, ls[0]), ls.skip(1))
    }
}

/// The attributes of a file with stem `stem`: `name` is the stem, then each
/// header line is applied, when the file has a marker.
pub open spec fn attributes_of(stem: Seq<char>, s: Seq<char>) -> Map<Seq<char>, Seq<char>> {
    let base = Map::<Seq<char>, Seq<char>>::empty().insert(name_key(), stem);
    let a = next_marker(s, 0);
    if a < 0 {
        base
    } else {
        apply_lines(base, lines(s.take(a)))
    }
}

/// The first marker that starts at or after `from`.
pub fn find_marker(v: &Vec<char>, from: usize) -> (r: Option<usize>)
    ensures
        match r {
            Some(p) => p as int == next_marker(v@, from as int) && from <= p && p + 3 <= v@.len()
                <= usize::MAX,
            None => next_marker(v@, from as int) == -1,
        },
{
    let mut i: usize = from;
    while i < v.len() && v.len() - i >= 3
        invariant
            from <= i,
            next_marker(v@, from as int) == next_marker(v@, i as int),
        decreases v.len() - i,
    {
        if v[i] == '-' && v[i + 1] == '-' && v[i + 2] == '-' {
            assert(v@.subrange(i as int, i + 3) =~= marker());
            return Some(i);
        }
        assert(!marker_at(v@, i as int)) by {
            if marker_at(v@, i as int) {
                assert(v@.subrange(i as int, i + 3)[0] == v@[i as int]);
                assert(v@.subrange(i as int, i + 3)[1] == v@[i + 1]);
                assert(v@.subrange(i as int, i + 3)[2] == v@[i + 2]);
            }
        }
        i = i + 1;
    }
    None
}

/// The body of a template file: all of `text` when it holds no marker, the
/// text between the first and the second marker when it holds two or more,
/// and `None` when it holds exactly one.
pub fn extract_content(text: &str) -> (r: Option<String>)
    ensures
        match body_of(text@) {
            Some(b) => r is Some && r->0@ == b,
            None => r is None,
        },
{
    let v = chars_of(text);
    match find_marker(&v, 0) {
        None => Some(String::from_str(text)),
        Some(a) => match find_marker(&v, a + 3) {
            None => None,
            Some(b) => Some(substring(&v, a + 3, b)),
        },
    }
}

/// Applies the header line `h[lo..hi]` to `attrs`.
fn read_attribute_line(attrs: &mut Attributes, h: &Vec<char>, lo: usize, hi: usize)
    requires
        lo <= hi <= h@.len(),
    ensures
        final(attrs)@ == apply_line(old(attrs)@, h@.subrange(lo as int, hi as int)),
{
    let ghost line = h@.subrange(lo as int, hi as int);
    match find_char(h, ':', lo, hi) {
        None => {},
        Some(p) => {
            let (ka, kb) = trim_bounds(h, lo, p);
            let (va, vb) = trim_bounds(h, p + 1, hi);
            assert(line.take(p - lo) =~= h@.subrange(lo as int, p as int));
            assert(line.skip(p - lo + 1) =~= h@.subrange(p + 1, hi as int));
            attrs.insert(substring(h, ka, kb), substring(h, va, vb));
        },
    }
}

/// The attributes of a template file with stem `stem`: `name` is the stem,
/// overridden by the `key: value` lines of the header when there is one.
pub fn extract_attributes(stem: &str, text: &str) -> (r: Attributes)
    ensures
        r@ == attributes_of(stem@, text@),
{
    let v = chars_of(text);
    let mut attrs = Attributes::new();
    let key = String::from_str("name");
    proof {
        reveal_strlit("name");
        assert(key@ =~= name_key());
    }
    attrs.insert(key, String::from_str(stem));
    let a = match find_marker(&v, 0) {
        None => {
            return attrs;
        },
        Some(a) => a,
    };
    let header = substring(&v, 0, a);
    let h = chars_of(header.as_str());
    assert(h@ =~= text@.take(a as int));
    let ghost base = attrs@;
    let mut start: usize = 0;
    let mut done = false;
    assert(h@.skip(0) =~= h@);
    while !done
        invariant
            start <= h@.len(),
            !done ==> apply_lines(base, lines(h@)) == apply_lines(attrs@, lines(h@.skip(start as int))),
            done ==> attrs@ == apply_lines(base, lines(h@)),
        decreases (if done { 0 } else { h@.len() - start + 1 }),
    {
        let ghost rest = h@.skip(start as int);
        assert(rest =~= h@.subrange(start as int, h@.len() as int));
        match find_char(&h, '\n', start, h.len()) {
            Some(p) => {
                assert(rest.take(p - start) =~= h@.subrange(start as int, p as int));
                assert(rest.skip(p - start + 1) =~= h@.skip(p + 1));
                let ghost ls = lines(rest);
                assert(ls[0] == h@.subrange(start as int, p as int));
                assert(ls.skip(1) =~= lines(h@.skip(p + 1)));
                read_attribute_line(&mut attrs, &h, start, p);
                start = p + 1;
            },
            None => {
                let ghost ls = lines(rest);
                assert(ls =~= seq![rest]);
                assert(ls.skip(1) =~= Seq::<Seq<char>>::empty());
                read_attribute_line(&mut attrs, &h, start, h.len());
                assert(apply_lines(attrs@, ls.skip(1)) == attrs@);
                done = true;
            },
        }
    }
    attrs
}

proof fn lemma_next_marker_least(s: Seq<char>, from: int, k: int)
    requires
        0 <= from <= k,
        marker_at(s, k),
        forall|i: int| from <= i < k ==> !marker_at(s, i),
    ensures
        next_marker(s, from) == k,
    decreases k - from,
{
    if from < k {
        lemma_next_marker_least(s, from + 1, k);
    }
}

proof fn lemma_next_marker_none(s: Seq<char>, from: int)
    requires
        0 <= from,
        forall|i: int| from <= i ==> !marker_at(s, i),
    ensures
        next_marker(s, from) == -1,
    decreases s.len() - from,
{
    if from + 3 <= s.len() {
        lemma_next_marker_none(s, from + 1);
    }
}

/// A file without the marker is all body, and its one attribute is `name`,
/// set to the file stem.
pub proof fn law_no_marker_all_body(stem: Seq<char>, text: Seq<char>)
    requires
        forall|i: int| !marker_at(text, i),
    ensures
        body_of(text) == Some(text),
        attributes_of(stem, text) == map![name_key() => stem],
{
    lemma_next_marker_none(text, 0);
    assert(attributes_of(stem, text) =~= map![name_key() => stem]);
}

/// With a marker at `a`, a marker at `b` and no other marker before `b`, the
/// body is the text strictly between the two.
pub proof fn law_body_between_markers(text: Seq<char>, a: int, b: int)
    requires
        marker_at(text, a),
        marker_at(text, b),
        a + 3 <= b,
        forall|i: int| 0 <= i < b && i != a ==> !marker_at(text, i),
    ensures
        body_of(text) == Some(text.subrange(a + 3, b)),
{
    lemma_next_marker_least(text, 0, a);
    lemma_next_marker_least(text, a + 3, b);
}

/// A file with exactly one marker has no body: it is malformed.
pub proof fn law_single_marker_malformed(text: Seq<char>, a: int)
    requires
        marker_at(text, a),
        forall|i: int| i != a ==> !marker_at(text, i),
    ensures
        body_of(text) is None,
{
    lemma_next_marker_least(text, 0, a);
    lemma_next_marker_none(text, a + 3);
}

/// A header line whose first colon is at `c` sets the text before it to the
/// text after it, both without their surrounding spaces.
pub proof fn law_attribute_line(m: Map<Seq<char>, Seq<char>>, line: Seq<char>, c: int)
    requires
        0 <= c < line.len(),
        line[c] == ':',
        forall|j: int| 0 <= j < c ==> line[j] != ':',
    ensures
        apply_line(m, line) == m.insert(trim(line.take(c)), trim(line.skip(c + 1))),
{
    lemma_next_pos_least(line, ':', 0, c);
}

/// A header line without a colon sets nothing.
pub proof fn law_line_without_colon(m: Map<Seq<char>, Seq<char>>, line: Seq<char>)
    requires
        forall|j: int| 0 <= j < line.len() ==> line[j] != ':',
    ensures
        apply_line(m, line) == m,
{
    lemma_next_pos_none(line, ':', 0);
}

/// Of two header lines that set the same key, the later one decides its value.
pub proof fn law_later_line_wins(
    m: Map<Seq<char>, Seq<char>>,
    l1: Seq<char>,
    c1: int,
    l2: Seq<char>,
    c2: int,
)
    requires
        0 <= c1 < l1.len(),
        l1[c1] == ':',
        forall|j: int| 0 <= j < c1 ==> l1[j] != ':',
        0 <= c2 < l2.len(),
        l2[c2] == ':',
        forall|j: int| 0 <= j < c2 ==> l2[j] != ':',
        trim(l1.take(c1)) == trim(l2.take(c2)),
    ensures
        apply_lines(m, seq![l1, l2]).contains_key(trim(l2.take(c2))),
        apply_lines(m, seq![l1, l2])[trim(l2.take(c2))] == trim(l2.skip(c2 + 1)),
{
    law_attribute_line(m, l1, c1);
    law_attribute_line(apply_line(m, l1), l2, c2);
    let ls = seq![l1, l2];
    assert(ls.skip(1) =~= seq![l2]);
    assert(ls.skip(1).skip(1) =~= Seq::<Seq<char>>::empty());
    let m1 = apply_line(m, l1);
    assert(apply_lines(m, ls) == apply_lines(m1, ls.skip(1)));
    assert(apply_lines(m1, ls.skip(1)) == apply_lines(apply_line(m1, l2), ls.skip(1).skip(1)));
}

} // verus!
