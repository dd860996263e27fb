//! Lists of names: membership, removal and display.

use vstd::prelude::*;
use vstd::string::*;

verus! {

/// The names in a list of strings, each as its sequence of characters.
pub open spec fn names_of(list: Seq<String>) -> Seq<Seq<char>> {
    list.map_values(|s: String| s@)
}

/// The test that a name is another one than `name`.
pub open spec fn is_other_than(name: Seq<char>) -> spec_fn(Seq<char>) -> bool {
    |n: Seq<char>| n != name
}

/// `names` without every occurrence of `name`; the others keep their order.
pub open spec fn without(names: Seq<Seq<char>>, name: Seq<char>) -> Seq<Seq<char>> {
    names.filter(is_other_than(name))
}

/// Removing a name removes that name and no other: `name` is gone, and
/// every other name occurs afterwards exactly if it occurred before.
pub proof fn without_removes_one_name(names: Seq<Seq<char>>, name: Seq<char>)
    ensures
        !without(names, name).contains(name),
        forall|other: Seq<char>|
            other != name ==> (#[trigger] without(names, name).contains(other) <==> names.contains(
                other,
            )),
        !names.contains(name) ==> without(names, name) == names,
    decreases names.len(),
{
    let keep = is_other_than(name);
    reveal(Seq::filter);
    if names.len() > 0 {
        let front = names.drop_last();
        let last = names.last();
        let shorter = without(front, name);
        let whole = without(names, name);
        without_removes_one_name(front, name);
        assert(whole == if keep(last) {
            shorter.push(last)
        } else {
            shorter
        });
        assert forall|other: Seq<char>| other != name implies (#[trigger] whole.contains(other)
            <==> names.contains(other)) by {
            if names.contains(other) {
                let i = choose|i: int| 0 <= i < names.len() && names[i] == other;
                if i < front.len() {
                    assert(front[i] == other);
                    assert(shorter.contains(other));
                    let j = choose|j: int| 0 <= j < shorter.len() && shorter[j] == other;
                    assert(whole[j] == other);
                } else {
                    assert(whole.last() == other);
                }
            }
            if whole.contains(other) {
                let j = choose|j: int| 0 <= j < whole.len() && whole[j] == other;
                if j < shorter.len() {
                    assert(shorter[j] == other);
                    assert(shorter.contains(other));
                    assert(front.contains(other));
                    let i = choose|i: int| 0 <= i < front.len() && front[i] == other;
                    assert(names[i] == other);
                } else {
                    assert(names.last() == other);
                }
            }
        }
        if whole.contains(name) {
            let j = choose|j: int| 0 <= j < whole.len() && whole[j] == name;
            if j < shorter.len() {
                assert(shorter[j] == name);
                assert(shorter.contains(name));
            }
        }
        if !names.contains(name) {
            assert(last != name);
            assert(forall|i: int| 0 <= i < front.len() ==> front[i] == names[i]);
            assert(!front.contains(name));
            assert(whole =~= names);
        }
    }
}

/// All `names` written one after the other, with nothing between them.
pub open spec fn concatenated(names: Seq<Seq<char>>) -> Seq<char>
    decreases names.len(),
{
    if names.len() == 0 {
        Seq::empty()
    } else {
        concatenated(names.drop_last()) + names.last()
    }
}

/// All `names` in order, with `separator` between each two neighbours.
pub open spec fn joined(names: Seq<Seq<char>>, separator: Seq<char>) -> Seq<char>
    decreases names.len(),
{
    if names.len() == 0 {
        Seq::empty()
    } else if names.len() == 1 {
        names[0]
    } else {
        joined(names.drop_last(), separator) + separator + names.last()
    }
}

/// Whether `name` occurs in `list`, by exact comparison.
pub fn contains(list: &Vec<String>, name: &String) -> (res: bool)
    ensures
        res == names_of(list@).contains(name@),
{
    let mut i: usize = 0;
    while i < list.len()
        invariant
            i <= list.len(),
            forall|j: int| 0 <= j < i ==> names_of(list@)[j] != name@,
        decreases list.len() - i,
    {
        if list[i] == *name {
            assert(names_of(list@)[i as int] == name@);
            return true;
        }
        i += 1;
    }
    false
}

/// A copy of `list` without every occurrence of `name`.
pub fn remove_all(list: &Vec<String>, name: &String) -> (res: Vec<String>)
    ensures
        names_of(res@) == without(names_of(list@), name@),
{
    let mut kept: Vec<String> = Vec::new();
    let mut i: usize = 0;
    assert(list@.take(0) =~= Seq::empty());
    assert(names_of(list@.take(0)) =~= Seq::empty());
    while i < list.len()
        invariant
            i <= list.len(),
            names_of(kept@) == without(names_of(list@.take(i as int)), name@),
        decreases list.len() - i,
    {
        let ghost before = names_of(list@.take(i as int));
        let ghost keep = is_other_than(name@);
        proof {
            let step = names_of(list@.take(i as int + 1));
            assert(step.drop_last() =~= before);
            assert(step.last() == list@[i as int]@);
            reveal(Seq::filter);
            assert(step.filter(keep) == if keep(step.last()) {
                step.drop_last().filter(keep).push(step.last())
            } else {
                step.drop_last().filter(keep)
            });
        }
        if !(list[i] == *name) {
            let ghost old_kept = kept@;
            kept.push(list[i].clone());
            assert(names_of(kept@) =~= names_of(old_kept).push(list@[i as int]@));
        }
        i += 1;
    }
    assert(list@.take(list.len() as int) =~= list@);
    kept
}

/// A copy of `list` with `name` added at the end.
pub fn with_appended(list: &Vec<String>, name: &String) -> (res: Vec<String>)
    ensures
        names_of(res@) == names_of(list@).push(name@),
{
    let mut all: Vec<String> = clone_names(list);
    let ghost before = all@;
    all.push(name.clone());
    assert(names_of(all@) =~= names_of(before).push(name@));
    all
}

/// A copy of `list`, name for name.
pub fn clone_names(list: &Vec<String>) -> (res: Vec<String>)
    ensures
        names_of(res@) == names_of(list@),
{
    let mut copy: Vec<String> = Vec::new();
    let mut i: usize = 0;
    while i < list.len()
        invariant
            i <= list.len(),
            copy@.len() == i,
            forall|j: int| 0 <= j < i ==> copy@[j]@ == list@[j]@,
        decreases list.len() - i,
    {
        copy.push(list[i].clone());
        i += 1;
    }
    assert(names_of(copy@) =~= names_of(list@));
    copy
}

/// The names of `list` in order, with `separator` between each two.
pub fn join(list: &Vec<String>, separator: &str) -> (res: String)
    ensures
        res@ == joined(names_of(list@), separator@),
{
    let mut out = String::new();
    let mut i: usize = 0;
    assert(names_of(list@.take(0)) =~= Seq::empty());
    while i < list.len()
        invariant
            i <= list.len(),
            out@ == joined(names_of(list@.take(i as int)), separator@),
        decreases list.len() - i,
    {
        proof {
            let step = names_of(list@.take(i as int + 1));
            assert(step.drop_last() =~= names_of(list@.take(i as int)));
            assert(step.last() == list@[i as int]@);
            if i == 0 {
                assert(out@ + list@[0]@ =~= list@[0]@);
            }
        }
        if i > 0 {
            out.append(separator);
        }
        out.append(list[i].as_str());
        i += 1;
    }
    assert(list@.take(list.len() as int) =~= list@);
    out
}

} // verus!
