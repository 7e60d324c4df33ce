//! The order of texts by their UTF-8 bytes.

use vstd::prelude::*;
use vstd::utf8::*;

verus! {

/// `a` and `b` agree up to `at`, where `a` ends first or has the smaller byte.
pub open spec fn first_difference(a: Seq<u8>, b: Seq<u8>, at: int) -> bool {
    &&& 0 <= at < b.len()
    &&& at <= a.len()
    &&& forall|i: int| 0 <= i < at ==> a[i] == b[i]
    &&& at == a.len() || a[at] < b[at]
}

/// `a` comes strictly before `b` in lexicographic order.
pub open spec fn bytes_before(a: Seq<u8>, b: Seq<u8>) -> bool {
    exists|at: int| first_difference(a, b, at)
}

/// The text `a` comes strictly before the text `b`: its UTF-8 bytes do.
pub open spec fn text_before(a: Seq<char>, b: Seq<char>) -> bool {
    bytes_before(encode_utf8(a), encode_utf8(b))
}

/// Texts in strictly ascending order.
pub open spec fn ascending(texts: Seq<Seq<char>>) -> bool {
    forall|i: int, j: int|
        0 <= i < j < texts.len() ==> text_before(#[trigger] texts[i], #[trigger] texts[j])
}

/// How one text stands to another.
#[derive(Clone, Copy, PartialEq, Eq, Structural)]
pub enum Place {
    Before,
    Same,
    After,
}

/// Compare two texts by their UTF-8 bytes.
pub(crate) fn place(a: &str, b: &str) -> (res: Place)
    ensures
        match res {
            Place::Before => text_before(a@, b@) && a@ != b@,
            Place::Same => a@ == b@,
            Place::After => text_before(b@, a@) && a@ != b@,
        },
{
    let left = a.as_bytes();
    let right = b.as_bytes();
    proof {
        encode_utf8_decode_utf8(a@);
        encode_utf8_decode_utf8(b@);
    }
    let mut i: usize = 0;
    while i < left.len() && i < right.len()
        invariant
            i <= left@.len(),
            i <= right@.len(),
            left@ == encode_utf8(a@),
            right@ == encode_utf8(b@),
            forall|j: int| 0 <= j < i ==> left@[j] == right@[j],
        decreases left@.len() - i,
    {
        if left[i] < right[i] {
            assert(first_difference(left@, right@, i as int));
            return Place::Before;
        }
        if left[i] > right[i] {
            assert(first_difference(right@, left@, i as int));
            return Place::After;
        }
        i = i + 1;
    }
    if i < right.len() {
        assert(first_difference(left@, right@, i as int));
        Place::Before
    } else if i < left.len() {
        assert(first_difference(right@, left@, i as int));
        Place::After
    } else {
        assert(left@ =~= right@);
        Place::Same
    }
}

/// No text comes before itself.
pub proof fn before_is_irreflexive(a: Seq<char>)
    ensures
        !text_before(a, a),
{
}

/// If `a` comes before `b`, and `b` before `c`, then `a` comes before `c`.
pub proof fn before_is_transitive(a: Seq<char>, b: Seq<char>, c: Seq<char>)
    requires
        text_before(a, b),
        text_before(b, c),
    ensures
        text_before(a, c),
{
    let (x, y, z) = (encode_utf8(a), encode_utf8(b), encode_utf8(c));
    let i = choose|at: int| first_difference(x, y, at);
    let j = choose|at: int| first_difference(y, z, at);
    if i < j {
        assert(first_difference(x, z, i));
    } else {
        assert(first_difference(x, z, j));
    }
}

/// A text put in its place keeps the texts in order.
pub proof fn insert_keeps_ascending(texts: Seq<Seq<char>>, at: int, text: Seq<char>)
    requires
        ascending(texts),
        0 <= at <= texts.len(),
        forall|i: int| 0 <= i < at ==> text_before(#[trigger] texts[i], text),
        forall|i: int| at <= i < texts.len() ==> text_before(text, #[trigger] texts[i]),
    ensures
        ascending(texts.insert(at, text)),
{
    let grown = texts.insert(at, text);
    assert forall|i: int, j: int| 0 <= i < j < grown.len() implies text_before(
        #[trigger] grown[i],
        #[trigger] grown[j],
    ) by {
        let from = |k: int| if k < at { k } else { k - 1 };
        assert(i != at ==> grown[i] == texts[from(i)]);
        assert(j != at ==> grown[j] == texts[from(j)]);
    }
}

/// A text taken out leaves the others in order.
pub proof fn remove_keeps_ascending(texts: Seq<Seq<char>>, at: int)
    requires
        ascending(texts),
        0 <= at < texts.len(),
    ensures
        ascending(texts.remove(at)),
{
    let shrunk = texts.remove(at);
    assert forall|i: int, j: int| 0 <= i < j < shrunk.len() implies text_before(
        #[trigger] shrunk[i],
        #[trigger] shrunk[j],
    ) by {
        let from = |k: int| if k < at { k } else { k + 1 };
        assert(shrunk[i] == texts[from(i)]);
        assert(shrunk[j] == texts[from(j)]);
    }
}

} // verus!
