use vstd::prelude::*;
use crate::decl::{Attribute, DeriveError};

verus! {

/// What one item of a `repr(...)` list says about packing.
#[derive(PartialEq, Eq, Structural, Clone, Copy, Debug)]
pub enum ReprItem {
    /// `packed` or `packed(1)`: no padding at all.
    Unpadded,
    /// `packed(N)` with `N > 1`: trailing padding may remain.
    AlignedPacking,
    /// Anything else (`C`, `u8`, `align(4)`, ...).
    Other,
}

pub open spec fn is_space(c: char) -> bool {
    c == ' ' || c == '\t' || c == '\n' || c == '\r'
}

/// `s` without its whitespace, so that `packed (1)` reads as `packed(1)`.
pub open spec fn strip_spaces(s: Seq<char>) -> Seq<char>
    decreases s.len(),
{
    if s.len() == 0 {
        Seq::empty()
    } else {
        let rest = strip_spaces(s.drop_last());
        if is_space(s.last()) {
            rest
        } else {
            rest.push(s.last())
        }
    }
}

pub open spec fn repr_word() -> Seq<char> {
    seq!['r', 'e', 'p', 'r']
}

pub open spec fn packed_word() -> Seq<char> {
    seq!['p', 'a', 'c', 'k', 'e', 'd']
}

pub open spec fn packed_one() -> Seq<char> {
    seq!['p', 'a', 'c', 'k', 'e', 'd', '(', '1', ')']
}

pub open spec fn packed_open() -> Seq<char> {
    seq!['p', 'a', 'c', 'k', 'e', 'd', '(']
}

/// The meaning of an item whose whitespace has been removed.
pub open spec fn classify(t: Seq<char>) -> ReprItem {
    if t == packed_word() || t == packed_one() {
        ReprItem::Unpadded
    } else if t.len() >= packed_open().len() && t.subrange(0, packed_open().len() as int)
        == packed_open() {
        ReprItem::AlignedPacking
    } else {
        ReprItem::Other
    }
}

pub open spec fn item_kind(s: String) -> ReprItem {
    classify(strip_spaces(s@))
}

/// `a` is a list attribute whose path is the single identifier `repr`.
pub open spec fn is_repr_list(a: Attribute) -> bool {
    a.path@ == repr_word() && a.args is Some
}

/// `a` is a `repr(...)` attribute with an item of kind `k`.
pub open spec fn attr_has(a: Attribute, k: ReprItem) -> bool {
    is_repr_list(a) && exists|j: int|
        0 <= j < a.args->Some_0@.len() && #[trigger] item_kind(a.args->Some_0@[j]) == k
}

/// Some attribute of `attrs` is a `repr(...)` with an item of kind `k`.
pub open spec fn attrs_have(attrs: Seq<Attribute>, k: ReprItem) -> bool {
    exists|i: int| 0 <= i < attrs.len() && #[trigger] attr_has(attrs[i], k)
}

/// The characters of `s`, with whitespace removed.
fn compact_chars(s: &String) -> (r: Vec<char>)
    ensures
        r@ == strip_spaces(s@),
{
    let t = s.as_str();
    let n = t.unicode_len();
    let mut r: Vec<char> = Vec::new();
    let mut i: usize = 0;
    while i < n
        invariant
            t@ == s@,
            n == s@.len(),
            i <= n,
            r@ == strip_spaces(s@.subrange(0, i as int)),
        decreases n - i,
    {
        let c = t.get_char(i);
        proof {
            assert(s@.subrange(0, i + 1).drop_last() =~= s@.subrange(0, i as int));
        }
        if !(c == ' ' || c == '\t' || c == '\n' || c == '\r') {
            r.push(c);
        }
        i = i + 1;
    }
    assert(s@.subrange(0, i as int) =~= s@);
    r
}

/// The characters of `s`.
fn chars_of(s: &String) -> (r: Vec<char>)
    ensures
        r@ == s@,
{
    let t = s.as_str();
    let n = t.unicode_len();
    let mut r: Vec<char> = Vec::new();
    let mut i: usize = 0;
    while i < n
        invariant
            t@ == s@,
            n == s@.len(),
            i <= n,
            r@ == s@.subrange(0, i as int),
        decreases n - i,
    {
        r.push(t.get_char(i));
        i = i + 1;
    }
    assert(r@ =~= s@);
    r
}

/// Whether `t` begins with `w`.
fn starts_with_chars(t: &Vec<char>, w: &Vec<char>) -> (r: bool)
    ensures
        r == (w@.len() <= t@.len() && t@.subrange(0, w@.len() as int) == w@),
{
    if w.len() > t.len() {
        return false;
    }
    let mut i: usize = 0;
    while i < w.len()
        invariant
            w@.len() <= t@.len(),
            i <= w@.len(),
            forall|k: int| 0 <= k < i ==> t@[k] == w@[k],
        decreases w@.len() - i,
    {
        if t[i] != w[i] {
            assert(t@.subrange(0, w@.len() as int)[i as int] != w@[i as int]);
            return false;
        }
        i = i + 1;
    }
    assert(t@.subrange(0, w@.len() as int) =~= w@);
    true
}

/// Whether `t` is exactly `w`.
fn equals_chars(t: &Vec<char>, w: &Vec<char>) -> (r: bool)
    ensures
        r == (t@ == w@),
{
    let p = starts_with_chars(t, w);
    if p && t.len() == w.len() {
        assert(t@ =~= t@.subrange(0, w@.len() as int));
        true
    } else {
        proof {
            if t@ == w@ {
                assert(t@.subrange(0, w@.len() as int) =~= t@);
            }
        }
        false
    }
}

/// The meaning of one item of a `repr(...)` list.
pub fn classify_repr_item(item: &String) -> (r: ReprItem)
    ensures
        r == item_kind(*item),
{
    let t = compact_chars(item);
    let word: Vec<char> = vec!['p', 'a', 'c', 'k', 'e', 'd'];
    let one: Vec<char> = vec!['p', 'a', 'c', 'k', 'e', 'd', '(', '1', ')'];
    let open: Vec<char> = vec!['p', 'a', 'c', 'k', 'e', 'd', '('];
    assert(word@ =~= packed_word());
    assert(one@ =~= packed_one());
    assert(open@ =~= packed_open());
    if equals_chars(&t, &word) || equals_chars(&t, &one) {
        ReprItem::Unpadded
    } else if starts_with_chars(&t, &open) {
        ReprItem::AlignedPacking
    } else {
        ReprItem::Other
    }
}

/// Whether `a` is a list attribute named `repr`.
pub fn is_repr_attribute(a: &Attribute) -> (r: bool)
    ensures
        r == is_repr_list(*a),
{
    let word: Vec<char> = vec!['r', 'e', 'p', 'r'];
    assert(word@ =~= repr_word());
    if a.args.is_some() {
        let p = chars_of(&a.path);
        equals_chars(&p, &word)
    } else {
        false
    }
}

/// Which packing items the attribute `a` holds: `(unpadded, aligned)`.
fn repr_packing_items(a: &Attribute) -> (r: (bool, bool))
    ensures
        r.0 == attr_has(*a, ReprItem::Unpadded),
        r.1 == attr_has(*a, ReprItem::AlignedPacking),
{
    if !is_repr_attribute(a) {
        return (false, false);
    }
    let items = a.args.as_ref().unwrap();
    let mut unpadded = false;
    let mut aligned = false;
    let mut j: usize = 0;
    while j < items.len()
        invariant
            a.args == Some(*items),
            j <= items@.len(),
            unpadded == exists|k: int|
                0 <= k < j && #[trigger] item_kind(items@[k]) == ReprItem::Unpadded,
            aligned == exists|k: int|
                0 <= k < j && #[trigger] item_kind(items@[k]) == ReprItem::AlignedPacking,
        decreases items@.len() - j,
    {
        let kind = classify_repr_item(&items[j]);
        match kind {
            ReprItem::Unpadded => {
                unpadded = true;
            },
            ReprItem::AlignedPacking => {
                aligned = true;
            },
            ReprItem::Other => {},
        }
        j = j + 1;
    }
    (unpadded, aligned)
}

/// Whether the attributes ask for a layout without padding: `Ok(true)` where a
/// `repr` item `packed` or `packed(1)` stands, `Ok(false)` where no packing is
/// asked for, and an error where some item asks for `packed(N)` with `N > 1`.
pub fn has_repr_packed(attrs: &Vec<Attribute>) -> (r: Result<bool, DeriveError>)
    ensures
        attrs_have(attrs@, ReprItem::AlignedPacking) ==> r matches Err(
            DeriveError::UnsupportedPackedAlignment,
        ),
        !attrs_have(attrs@, ReprItem::AlignedPacking) ==> r == Ok::<bool, DeriveError>(
            attrs_have(attrs@, ReprItem::Unpadded),
        ),
{
    let mut unpadded = false;
    let mut aligned = false;
    let mut i: usize = 0;
    while i < attrs.len()
        invariant
            i <= attrs@.len(),
            unpadded == exists|k: int|
                0 <= k < i && #[trigger] attr_has(attrs@[k], ReprItem::Unpadded),
            aligned == exists|k: int|
                0 <= k < i && #[trigger] attr_has(attrs@[k], ReprItem::AlignedPacking),
        decreases attrs@.len() - i,
    {
        let (u, a) = repr_packing_items(&attrs[i]);
        unpadded = unpadded || u;
        aligned = aligned || a;
        i = i + 1;
    }
    if aligned {
        Err(DeriveError::UnsupportedPackedAlignment)
    } else {
        Ok(unpadded)
    }
}

} // verus!
