use vstd::prelude::*;

verus! {

/// The variant of a field-less enum with `count` variants, numbered from zero in order of
/// definition, whose discriminant is `value`; `None` when no variant has it.
pub fn discriminant_index(value: i64, count: usize) -> (r: Option<usize>)
    ensures
        r == (if 0 <= value < count {
            Some(value as usize)
        } else {
            None::<usize>
        }),
{
    if value < 0 {
        None
    } else if (value as u64) < (count as u64) {
        Some(value as usize)
    } else {
        None
    }
}

} // verus!
