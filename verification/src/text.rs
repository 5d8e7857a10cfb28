//! Small text utilities shared by the other modules.

use vstd::prelude::*;

verus! {

/// The items separated by `separator`: nothing for no items, no separator
/// before the first item or after the last.
pub open spec fn joined(items: Seq<Seq<char>>, separator: Seq<char>) -> Seq<char>
    decreases items.len(),
{
    if items.len() == 0 {
        Seq::empty()
    } else if items.len() == 1 {
        items[0]
    } else {
        joined(items.drop_last(), separator) + separator + items.last()
    }
}

/// Joins `items` with `separator` between neighbours.
pub fn join(items: &Vec<String>, separator: &str) -> (text: String)
    ensures
        text@ == joined(items.deep_view(), separator@),
        items.len() == 0 ==> text@ == Seq::<char>::empty(),
        items.len() == 1 ==> text@ == items[0]@,
        items.len() == 2 ==> text@ == items[0]@ + separator@ + items[1]@,
{
    let mut text = String::new();
    let mut i: usize = 0;
    while i < items.len()
        invariant
            i <= items.len(),
            text@ == joined(items.deep_view().take(i as int), separator@),
        decreases items.len() - i,
    {
        let ghost before = items.deep_view().take(i as int);
        let ghost after = items.deep_view().take(i + 1);
        proof {
            assert(after.drop_last() =~= before);
        }
        if i > 0 {
            text.append(separator);
        }
        text.append(items[i].as_str());
        i = i + 1;
    }
    proof {
        let all = items.deep_view();
        assert(all.take(i as int) =~= all);
        if all.len() == 2 {
            assert(joined(all.drop_last(), separator@) == all[0]);
        }
    }
    text
}

/// Joining nothing gives the empty text, joining one item gives the item, and
/// each further item is added after a separator.
pub proof fn lemma_joined_unfolds(items: Seq<Seq<char>>, item: Seq<char>, separator: Seq<char>)
    ensures
        joined(Seq::empty(), separator) == Seq::<char>::empty(),
        joined(seq![item], separator) == item,
        items.len() > 0 ==> joined(items.push(item), separator) == joined(items, separator)
            + separator + item,
{
    assert(items.push(item).drop_last() =~= items);
}

/// The text `first` followed by `second`.
pub fn followed_by(first: &str, second: &str) -> (text: String)
    ensures
        text@ == first@ + second@,
{
    let mut text = first.to_owned();
    text.append(second);
    text
}

} // verus!
