use vstd::prelude::*;

verus! {

/// The largest primitive count the hierarchy builder leaves in one leaf.
pub const MAX_PER_LEAF: usize = 256;

/// The bounding-volume hierarchy builder's one discrete decision: a set of
/// fewer than [`MAX_PER_LEAF`] primitives becomes a leaf, and a larger set
/// is cut at its median into two strictly smaller, together exhaustive
/// halves, which bounds the build recursion.
pub fn bvh_split(count: usize) -> (r: Option<(usize, usize)>)
    ensures
        count < MAX_PER_LEAF ==> r.is_none(),
        count >= MAX_PER_LEAF ==> (r matches Some((left, right)) && {
            &&& left == count / 2
            &&& left + right == count
            &&& 0 < left < count
            &&& 0 < right < count
        }),
{
    if count < MAX_PER_LEAF {
        None
    } else {
        let left = count / 2;
        Some((left, count - left))
    }
}

} // verus!
