use vstd::prelude::*;

verus! {

/// `pairs` is the flat action list `actions` folded into (key, label)
/// pairs: element 2i becomes the key of pair i and element 2i+1 its label,
/// with an empty label supplied when the list ends on a key.
pub open spec fn actions_paired(pairs: Seq<(String, String)>, actions: Seq<String>) -> bool {
    &&& pairs.len() == (actions.len() + 1) / 2
    &&& forall|i: int|
        #![trigger pairs[i]]
        0 <= i < pairs.len() ==> {
            &&& pairs[i].0@ == actions[2 * i]@
            &&& pairs[i].1@ == if 2 * i + 1 < actions.len() {
                actions[2 * i + 1]@
            } else {
                Seq::<char>::empty()
            }
        }
}

/// Fold a flat list of action strings into (key, label) pairs, two
/// consecutive elements at a time; a trailing key is paired with an empty
/// label.
pub fn pair_actions(actions: &Vec<String>) -> (pairs: Vec<(String, String)>)
    ensures
        actions_paired(pairs@, actions@),
{
    let mut pairs: Vec<(String, String)> = Vec::new();
    let n: usize = actions.len();
    let half: usize = n / 2;
    let mut i: usize = 0;
    while i < half
        invariant
            n == actions@.len(),
            half == n / 2,
            i <= half,
            pairs@.len() == i,
            forall|j: int|
                #![trigger pairs@[j]]
                0 <= j < pairs@.len() ==> {
                    &&& pairs@[j].0@ == actions@[2 * j]@
                    &&& pairs@[j].1@ == actions@[2 * j + 1]@
                },
        decreases half - i,
    {
        let key = actions[2 * i].clone();
        let label = actions[2 * i + 1].clone();
        pairs.push((key, label));
        i = i + 1;
    }
    if actions.len() % 2 == 1 {
        let key = actions[actions.len() - 1].clone();
        pairs.push((key, String::new()));
    }
    pairs
}

} // verus!
