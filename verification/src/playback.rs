//! Which of the music service's devices playback starts on.

use vstd::prelude::*;
use vstd::string::StringExecFns;

verus! {

/// The index of the device to play on, among the names as the service lists
/// them: the last one that bears the wanted name.
pub open spec fn chosen_device(names: Seq<Seq<char>>, wanted: Seq<char>) -> Option<int>
    decreases names.len(),
{
    if names.len() == 0 {
        None
    } else if names.last() == wanted {
        Some(names.len() - 1)
    } else {
        chosen_device(names.drop_last(), wanted)
    }
}

/// The names of `names`, each as a sequence of characters.
pub open spec fn name_views(names: Seq<String>) -> Seq<Seq<char>> {
    Seq::new(names.len(), |i: int| names[i]@)
}

/// The last device that bears the wanted name, if any does.
pub fn choose_device(names: &Vec<String>, wanted: &str) -> (r: Option<usize>)
    ensures
        r is Some <==> exists|i: int| 0 <= i < names@.len() && (#[trigger] names@[i])@ == wanted@,
        r matches Some(i) ==> i < names@.len() && names@[i as int]@ == wanted@ && forall|j: int|
            i < j < names@.len() ==> (#[trigger] names@[j])@ != wanted@,
        match r {
            Some(i) => chosen_device(name_views(names@), wanted@) == Some(i as int),
            None => chosen_device(name_views(names@), wanted@) is None,
        },
{
    let target = String::from_str(wanted);
    let mut k: usize = names.len();
    proof {
        lemma_chosen_skips_tail(name_views(names@), wanted@, names@.len() as int);
    }
    while k > 0
        invariant
            k <= names@.len(),
            target@ == wanted@,
            forall|j: int| k <= j < names@.len() ==> (#[trigger] names@[j])@ != wanted@,
            chosen_device(name_views(names@), wanted@) == chosen_device(
                name_views(names@).take(k as int),
                wanted@,
            ),
        decreases k,
    {
        let ghost head = name_views(names@).take(k as int);
        assert(head.last() == names@[k - 1]@);
        if names[k - 1] == target {
            return Some(k - 1);
        }
        assert(head.drop_last() =~= name_views(names@).take(k - 1));
        k -= 1;
    }
    assert(name_views(names@).take(0).len() == 0);
    None
}

/// Cutting a list of names at its own length changes nothing.
proof fn lemma_chosen_skips_tail(names: Seq<Seq<char>>, wanted: Seq<char>, n: int)
    requires
        n == names.len(),
    ensures
        chosen_device(names, wanted) == chosen_device(names.take(n), wanted),
{
    assert(names.take(n) =~= names);
}

} // verus!
