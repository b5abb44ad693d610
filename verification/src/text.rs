//! Small operations on text.

use vstd::prelude::*;
use vstd::string::StringExecFns;

verus! {

/// Whether two texts are the same.
pub fn str_eq(a: &str, b: &str) -> (same: bool)
    ensures
        same == (a@ == b@),
{
    let x = String::from_str(a);
    let y = String::from_str(b);
    x == y
}

/// Two texts, one after the other.
pub fn join2(a: &str, b: &str) -> (joined: String)
    ensures
        joined@ == a@ + b@,
{
    let mut joined = String::from_str(a);
    joined.append(b);
    joined
}

/// Three texts, one after the other.
pub fn join3(a: &str, b: &str, c: &str) -> (joined: String)
    ensures
        joined@ == a@ + b@ + c@,
{
    let mut joined = String::from_str(a);
    joined.append(b);
    joined.append(c);
    joined
}

/// The texts of a list, one after the other, with a separator between each
/// two.
pub open spec fn spec_join(items: Seq<Seq<char>>, separator: Seq<char>) -> Seq<char>
    decreases items.len(),
{
    if items.len() == 0 {
        Seq::empty()
    } else if items.len() == 1 {
        items[0]
    } else {
        spec_join(items.drop_last(), separator) + separator + items.last()
    }
}

/// The texts of a list, one after the other, with a separator between each
/// two.
pub fn join(items: &Vec<String>, separator: &str) -> (joined: String)
    ensures
        joined@ == spec_join(items.deep_view(), separator@),
{
    let ghost texts = items.deep_view();
    let mut joined = String::new();
    if items.len() == 0 {
        return joined;
    }
    joined.append(items[0].as_str());
    let mut i: usize = 1;
    proof {
        assert(texts.take(1).len() == 1);
        assert(texts.take(1)[0] == items[0]@);
        assert(joined@ =~= items[0]@);
    }
    while i < items.len()
        invariant
            1 <= i <= items.len(),
            texts == items.deep_view(),
            joined@ == spec_join(texts.take(i as int), separator@),
        decreases items.len() - i,
    {
        proof {
            assert(texts.take(i + 1).drop_last() =~= texts.take(i as int));
            assert(texts.take(i + 1).last() == items[i as int]@);
        }
        joined.append(separator);
        joined.append(items[i].as_str());
        i += 1;
    }
    assert(texts.take(i as int) =~= texts);
    joined
}

} // verus!
