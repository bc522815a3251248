//! Text: comparing names and finding one text inside another.

use vstd::prelude::*;
use vstd::string::*;
use vstd::utf8::*;

verus! {

/// `name` stands in `text` as one unbroken run of characters.
pub open spec fn names(text: Seq<char>, name: Seq<char>) -> bool {
    exists|at: int|
        0 <= at <= text.len() - name.len() && #[trigger] text.subrange(at, at + name.len())
            == name
}

/// A text that is put together from three parts names the part in the middle.
pub proof fn lemma_names_middle(before: Seq<char>, name: Seq<char>, after: Seq<char>)
    ensures
        names(before + name + after, name),
{
    let text = before + name + after;
    let at = before.len() as int;
    assert(text.subrange(at, at + name.len()) =~= name);
}

/// Two names are the same text: exact and case-sensitive, character by
/// character.
pub fn same_text(a: &str, b: &str) -> (same: bool)
    ensures
        same == (a@ == b@),
{
    let x = a.as_bytes();
    let y = b.as_bytes();
    proof {
        encode_utf8_decode_utf8(a@);
        encode_utf8_decode_utf8(b@);
    }
    if x.len() != y.len() {
        return false;
    }
    let mut i: usize = 0;
    while i < x.len()
        invariant
            i <= x.len(),
            x.len() == y.len(),
            x@ == a.spec_bytes(),
            y@ == b.spec_bytes(),
            forall|j: int| 0 <= j < i ==> x@[j] == y@[j],
        decreases x.len() - i,
    {
        if x[i] != y[i] {
            return false;
        }
        i = i + 1;
    }
    assert(x@ =~= y@);
    true
}

} // verus!
