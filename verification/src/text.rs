//! Text helpers: comparing and joining strings by their characters.

use vstd::prelude::*;
use vstd::string::*;

verus! {

/// The texts of a list, by their characters.
pub open spec fn texts(list: Seq<String>) -> Seq<Seq<char>> {
    list.map_values(|item: String| item@)
}

/// Whether `text` begins with `prefix`.
pub fn starts_with(text: &str, prefix: &str) -> (b: bool)
    ensures
        b == prefix@.is_prefix_of(text@),
{
    let mut wanted = prefix.chars();
    let mut given = text.chars();
    let ghost mut n: int = 0;
    loop
        invariant
            vstd::std_specs::iter::IteratorSpec::obeys_prophetic_iter_laws(&wanted),
            vstd::std_specs::iter::IteratorSpec::obeys_prophetic_iter_laws(&given),
            0 <= n <= prefix@.len(),
            n <= text@.len(),
            vstd::std_specs::iter::IteratorSpec::remaining(&wanted) == prefix@.skip(n),
            vstd::std_specs::iter::IteratorSpec::remaining(&given) == text@.skip(n),
            forall|i: int| 0 <= i < n ==> prefix@[i] == text@[i],
        decreases prefix@.len() - n,
    {
        let p = wanted.next();
        match p {
            None => {
                return true;
            },
            Some(p) => {
                let c = given.next();
                match c {
                    None => {
                        return false;
                    },
                    Some(c) => {
                        if c != p {
                            return false;
                        }
                        proof {
                            n = n + 1;
                        }
                    },
                }
            },
        }
    }
}

/// Whether two texts hold the same characters.
pub fn same_text(a: &str, b: &str) -> (same: bool)
    ensures
        same == (a@ == b@),
{
    let same = starts_with(a, b) && starts_with(b, a);
    proof {
        if same {
            assert(a@ =~= b@);
        }
    }
    same
}

/// `head` followed by `tail`.
pub fn joined(head: &str, tail: &str) -> (text: String)
    ensures
        text@ == head@ + tail@,
{
    let mut text = head.to_owned();
    text.append(tail);
    text
}

/// A list of texts shows each of its texts in its place, and no other.
pub proof fn texts_keep_their_places(list: Seq<String>)
    ensures
        texts(list).len() == list.len(),
        forall|i: int| 0 <= i < list.len() ==> #[trigger] texts(list)[i] == list[i]@,
{
}

} // verus!
