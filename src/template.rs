use vstd::prelude::*;

use crate::compiler::{find_record, shape_of, Registry};
use crate::model::{text_result, DefinitionError, ErrorView, RecordView};

verus! {

/// Unicode white space: the characters with the `White_Space` property.
pub open spec fn is_space(c: char) -> bool {
    let v = c as u32;
    (0x09 <= v && v <= 0x0D) || v == 0x20 || v == 0x85 || v == 0xA0 || v == 0x1680 || (0x2000 <= v
        && v <= 0x200A) || v == 0x2028 || v == 0x2029 || v == 0x202F || v == 0x205F || v == 0x3000
}

/// The text that opens a placeholder; the record type's name follows it.
pub open spec fn marker() -> Seq<char> {
    seq!['s', 'h', 'a', 'p', 'e', ':', ':']
}

/// The number of characters in [`marker`].
pub const MARKER_LEN: usize = 7;

/// Whether a placeholder starts at `i`: the marker, then at least one
/// character that is not white space.
pub open spec fn placeholder_at(t: Seq<char>, i: int) -> bool {
    0 <= i && i + 7 < t.len() && t.subrange(i, i + 7) == marker() && !is_space(t[i + 7])
}

/// The end of the run of non-space characters that starts at `j`.
pub open spec fn name_end(t: Seq<char>, j: int) -> int
    decreases t.len() - j,
{
    if j < 0 || j >= t.len() || is_space(t[j]) {
        j
    } else {
        name_end(t, j + 1)
    }
}

pub open spec fn prepend(p: Seq<char>, r: Result<Seq<char>, ErrorView>) -> Result<Seq<char>, ErrorView> {
    match r {
        Ok(s) => Ok(p + s),
        Err(e) => Err(e),
    }
}

/// The expansion of `t` from position `i` on: each placeholder is replaced,
/// marker included, by the shape of the record type it names; all other
/// characters are kept. Inserted shapes are not scanned again.
pub open spec fn expand_from(reg: Seq<RecordView>, t: Seq<char>, i: int) -> Result<Seq<char>, ErrorView>
    decreases t.len() - i,
    via expand_from_decreases
{
    if i < 0 || i >= t.len() {
        Ok(Seq::empty())
    } else if placeholder_at(t, i) {
        let e = name_end(t, i + 7);
        match shape_of(reg, t.subrange(i + 7, e)) {
            Err(x) => Err(x),
            Ok(s) => prepend(s, expand_from(reg, t, e)),
        }
    } else {
        prepend(seq![t[i]], expand_from(reg, t, i + 1))
    }
}

#[via_fn]
proof fn expand_from_decreases(reg: Seq<RecordView>, t: Seq<char>, i: int) {
    if 0 <= i < t.len() && placeholder_at(t, i) {
        lemma_name_end(t, i + 7);
    }
}

/// The full expansion of the template `t`.
pub open spec fn expansion(reg: Seq<RecordView>, t: Seq<char>) -> Result<Seq<char>, ErrorView> {
    expand_from(reg, t, 0)
}

proof fn lemma_error_reaches_back(reg: Seq<RecordView>, t: Seq<char>, k: int, i: int)
    requires
        0 <= k <= i < t.len(),
        forall|j: int| k <= j < i ==> !placeholder_at(t, j),
        expand_from(reg, t, i) is Err,
    ensures
        expand_from(reg, t, k) is Err,
    decreases i - k,
{
    if k < i {
        lemma_error_reaches_back(reg, t, k + 1, i);
    }
}

/// A template whose first placeholder names no registered record type
/// fails to expand.
pub proof fn unknown_placeholder_fails(reg: Seq<RecordView>, t: Seq<char>, i: int)
    requires
        placeholder_at(t, i),
        forall|j: int| 0 <= j < i ==> !placeholder_at(t, j),
        find_record(reg, t.subrange(i + 7, name_end(t, i + 7))) is None,
    ensures
        expansion(reg, t) is Err,
{
    lemma_error_reaches_back(reg, t, 0, i);
}

proof fn lemma_name_end(t: Seq<char>, j: int)
    requires
        0 <= j <= t.len(),
    ensures
        j <= name_end(t, j) <= t.len(),
    decreases t.len() - j,
{
    if j < t.len() && !is_space(t[j]) {
        lemma_name_end(t, j + 1);
    }
}

proof fn lemma_prepend_twice(a: Seq<char>, b: Seq<char>, r: Result<Seq<char>, ErrorView>)
    ensures
        prepend(a, prepend(b, r)) == prepend(a + b, r),
{
    if let Ok(s) = r {
        assert(a + (b + s) =~= (a + b) + s);
    }
}

/// Whether `c` is Unicode white space.
pub fn is_space_char(c: char) -> (r: bool)
    ensures
        r == is_space(c),
{
    let v = c as u32;
    (0x09 <= v && v <= 0x0D) || v == 0x20 || v == 0x85 || v == 0xA0 || v == 0x1680 || (0x2000 <= v
        && v <= 0x200A) || v == 0x2028 || v == 0x2029 || v == 0x202F || v == 0x205F || v == 0x3000
}

fn placeholder_starts(t: &str, len: usize, i: usize) -> (r: bool)
    requires
        len == t@.len(),
        i < len,
    ensures
        r == placeholder_at(t@, i as int),
{
    if len <= MARKER_LEN || i >= len - MARKER_LEN {
        return false;
    }
    let m: Vec<char> = vec!['s', 'h', 'a', 'p', 'e', ':', ':'];
    assert(m@ == marker());
    let mut k: usize = 0;
    while k < MARKER_LEN
        invariant
            i + 7 < len,
            len == t@.len(),
            m@ == marker(),
            k <= 7,
            forall|q: int| 0 <= q < k ==> t@[i + q] == m@[q],
        decreases 7 - k,
    {
        if t.get_char(i + k) != m[k] {
            assert(t@.subrange(i as int, i + 7)[k as int] != marker()[k as int]);
            return false;
        }
        k = k + 1;
    }
    assert(t@.subrange(i as int, i + 7) =~= marker());
    !is_space_char(t.get_char(i + MARKER_LEN))
}

/// Expands the query template `template`: every placeholder `shape::Name`
/// is replaced by the compiled shape of the record type `Name`, scanning
/// once from left to right.
pub fn derive_shaped_query(template: &str, reg: &Registry) -> (r: Result<String, DefinitionError>)
    ensures
        text_result(r) == expansion(reg@, template@),
{
    let ghost t = template@;
    let len = template.unicode_len();
    let mut out = String::new();
    let mut i: usize = 0;
    while i < len
        invariant
            t == template@,
            len == t.len(),
            i <= len,
            expansion(reg@, t) == prepend(out@, expand_from(reg@, t, i as int)),
        decreases len - i,
    {
        if placeholder_starts(template, len, i) {
            let start = i + MARKER_LEN;
            let mut j: usize = start;
            while j < len && !is_space_char(template.get_char(j))
                invariant
                    t == template@,
                    len == t.len(),
                    start <= j <= len,
                    name_end(t, start as int) == name_end(t, j as int),
                decreases len - j,
            {
                j = j + 1;
            }
            let name = template.substring_char(start, j);
            match reg.shape(name) {
                Err(e) => {
                    return Err(e);
                },
                Ok(s) => {
                    proof {
                        lemma_prepend_twice(out@, s@, expand_from(reg@, t, j as int));
                    }
                    out.append(s.as_str());
                },
            }
            i = j;
        } else {
            proof {
                lemma_prepend_twice(out@, seq![t[i as int]], expand_from(reg@, t, i + 1));
                assert(t.subrange(i as int, i + 1) =~= seq![t[i as int]]);
            }
            out.append(template.substring_char(i, i + 1));
            i = i + 1;
        }
    }
    assert(out@ + Seq::<char>::empty() =~= out@);
    Ok(out)
}

} // verus!
