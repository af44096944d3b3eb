//! Conversion of the daemon's wire rows into the library's typed records.
use vstd::prelude::*;

verus! {

/// Every row of `rows` converted by `T::from`, in order.
pub open spec fn converted<R, T: From<R>>(rows: Seq<R>) -> Seq<T> {
    rows.map_values(|row: R| <T as vstd::std_specs::convert::FromSpec<R>>::from_spec(row))
}

/// Converts a list of wire rows into typed records, keeping their order.
pub fn convert_rows<R, T: From<R>>(rows: Vec<R>) -> (r: Vec<T>)
    requires
        <T as vstd::std_specs::convert::FromSpec<R>>::obeys_from_spec(),
    ensures
        r@ == converted::<R, T>(rows@),
{
    let mut out: Vec<T> = Vec::new();
    for row in it: rows.into_iter()
        invariant
            <T as vstd::std_specs::convert::FromSpec<R>>::obeys_from_spec(),
            it.seq() == rows@,
            out@.len() == it.index(),
            forall|j: int|
                0 <= j < it.index() ==> out@[j] == <T as vstd::std_specs::convert::FromSpec<
                    R,
                >>::from_spec(#[trigger] rows@[j]),
    {
        out.push(T::from(row));
    }
    assert(out@ =~= converted::<R, T>(rows@));
    out
}

} // verus!
