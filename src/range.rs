use vstd::prelude::*;
use vstd::std_specs::cmp::PartialOrdSpec;

verus! {

/// The bound of a closed range that an entry violated.
#[derive(Clone, Copy, Debug, PartialEq, Eq, Structural)]
pub enum Bound {
    /// The entry does not lie at or above the range's minimum.
    Min,
    /// The entry does not lie at or below the range's maximum.
    Max,
}

/// `value` compares as greater than or equal to `bound`.
pub open spec fn at_least<T: PartialOrd>(value: &T, bound: &T) -> bool {
    value.partial_cmp_spec(bound) matches Some(
        core::cmp::Ordering::Greater
        | core::cmp::Ordering::Equal,
    )
}

/// `value` compares as less than or equal to `bound`.
pub open spec fn at_most<T: PartialOrd>(value: &T, bound: &T) -> bool {
    value.partial_cmp_spec(bound) matches Some(
        core::cmp::Ordering::Less
        | core::cmp::Ordering::Equal,
    )
}

/// Checks that `min <= value <= max`, naming the violated bound otherwise.
///
/// The minimum is checked first. An entry that compares with neither bound
/// (a NaN) is not at or above the minimum, so it is rejected there.
pub fn check_range<T: PartialOrd>(value: &T, min: &T, max: &T) -> (r: Result<(), Bound>)
    ensures
        r == Err::<(), Bound>(Bound::Min) ==> call_ensures(T::ge, (value, min), false),
        r == Err::<(), Bound>(Bound::Max) ==> call_ensures(T::ge, (value, min), true)
            && call_ensures(T::le, (value, max), false),
        r is Ok ==> call_ensures(T::ge, (value, min), true) && call_ensures(
            T::le,
            (value, max),
            true,
        ),
        T::obeys_partial_cmp_spec() ==> {
            &&& (r is Ok <==> at_least(value, min) && at_most(value, max))
            &&& (r == Err::<(), Bound>(Bound::Min) <==> !at_least(value, min))
            &&& (r == Err::<(), Bound>(Bound::Max) <==> at_least(value, min) && !at_most(
                value,
                max,
            ))
        },
{
    if !T::ge(value, min) {
        Err(Bound::Min)
    } else if !T::le(value, max) {
        Err(Bound::Max)
    } else {
        Ok(())
    }
}

} // verus!
