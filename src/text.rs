use vstd::prelude::*;

verus! {

/// The lower-case form of a text, as Rust's `str::to_lowercase` gives it.
pub uninterp spec fn lower_of(s: Seq<char>) -> Seq<char>;

/// Whether `needle` occurs as a contiguous run of characters in `hay`.
pub open spec fn is_infix(needle: Seq<char>, hay: Seq<char>) -> bool {
    exists|i: int|
        0 <= i && i + needle.len() <= hay.len() && #[trigger] hay.subrange(i, i + needle.len())
            == needle
}

/// Relies on `str::to_lowercase`: the lower-case form of `s`, which depends
/// on its characters alone.
#[verifier::external_body]
pub(crate) fn fold_case(s: &String) -> (r: Vec<char>)
    ensures
        r@ == lower_of(s@),
{
    s.to_lowercase().chars().collect()
}

/// Whether the (already case-folded) fragment `term` occurs in the
/// (already case-folded) name `name`.
pub fn matches_folded(term: &Vec<char>, name: &Vec<char>) -> (r: bool)
    ensures
        r == is_infix(term@, name@),
{
    let m = term.len();
    let n = name.len();
    if m > n {
        return false;
    }
    let mut i: usize = 0;
    while i <= n - m
        invariant
            m == term@.len(),
            n == name@.len(),
            m <= n,
            i <= n - m + 1,
            forall|p: int| 0 <= p < i ==> #[trigger] name@.subrange(p, p + m) != term@,
        decreases n - m + 1 - i,
    {
        let mut j: usize = 0;
        while j < m && name[i + j] == term[j]
            invariant
                m == term@.len(),
                n == name@.len(),
                i + m <= n,
                j <= m,
                forall|k: int| 0 <= k < j ==> name@[i + k] == term@[k],
            decreases m - j,
        {
            j = j + 1;
        }
        if j == m {
            assert(name@.subrange(i as int, i + m) =~= term@);
            return true;
        }
        assert(name@.subrange(i as int, i + m)[j as int] != term@[j as int]);
        i = i + 1;
    }
    assert forall|p: int| 0 <= p && p + term@.len() <= name@.len() implies #[trigger] name@.subrange(
        p,
        p + term@.len(),
    ) != term@ by {
        assert(p < i);
    }
    false
}

/// The characters `key==value, ` that describe one field of a filter.
pub open spec fn field_text(field: (Seq<char>, Seq<char>)) -> Seq<char> {
    field.0 + "=="@ + field.1 + ", "@
}

/// The description of a filter: each of its fields in turn.
pub open spec fn filter_text(fields: Seq<(Seq<char>, Seq<char>)>) -> Seq<char>
    decreases fields.len(),
{
    if fields.len() == 0 {
        Seq::empty()
    } else {
        filter_text(fields.drop_last()) + field_text(fields.last())
    }
}

} // verus!
