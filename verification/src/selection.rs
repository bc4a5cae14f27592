use vstd::prelude::*;

verus! {

/// `i` is the first position among the selected ones whose key is minimal:
/// no selected key is smaller, and every selected position before `i`
/// has a strictly larger key.
pub open spec fn is_first_min(selected: Seq<bool>, keys: Seq<u32>, i: int) -> bool {
    &&& 0 <= i < selected.len()
    &&& selected[i]
    &&& forall|j: int| 0 <= j < selected.len() && selected[j] ==> keys[i] <= keys[j]
    &&& forall|j: int| 0 <= j < i && selected[j] ==> keys[i] < keys[j]
}

/// Some position is selected.
pub open spec fn any_selected(selected: Seq<bool>) -> bool {
    exists|j: int| 0 <= j < selected.len() && selected[j]
}

/// The contract of a selection of the first minimum: `None` exactly when
/// nothing is selected, otherwise the first selected position of minimal key.
pub open spec fn first_min_result(selected: Seq<bool>, keys: Seq<u32>, r: Option<usize>) -> bool {
    match r {
        None => !any_selected(selected),
        Some(i) => is_first_min(selected, keys, i as int),
    }
}

/// Among the selected positions, the first one whose key is smallest, or
/// `None` when no position is selected. This is how `Iterator::min_by` picks
/// among equal minima: the first one wins.
pub fn first_min_index(selected: &Vec<bool>, keys: &Vec<u32>) -> (r: Option<usize>)
    requires
        selected.len() == keys.len(),
    ensures
        first_min_result(selected@, keys@, r),
{
    let mut best: Option<usize> = None;
    let mut i: usize = 0;
    while i < selected.len()
        invariant
            selected.len() == keys.len(),
            0 <= i <= selected.len(),
            best is None ==> forall|j: int| 0 <= j < i ==> !selected@[j],
            best matches Some(b) ==> {
                &&& b < i
                &&& selected@[b as int]
                &&& forall|j: int| 0 <= j < i && selected@[j] ==> keys@[b as int] <= keys@[j]
                &&& forall|j: int| 0 <= j < b && selected@[j] ==> keys@[b as int] < keys@[j]
            },
        decreases selected.len() - i,
    {
        if selected[i] {
            match best {
                None => {
                    best = Some(i);
                },
                Some(b) => {
                    if keys[i] < keys[b] {
                        best = Some(i);
                    }
                },
            }
        }
        i = i + 1;
    }
    best
}

} // verus!
