//! Data for a stand-in device on the bench.

use vstd::prelude::*;

verus! {

/// The samples that the stand-in device sends for a scan of `lines` lines
/// of `points` points: the numbers from 1 up to one more than their
/// product.
pub open spec fn data_points(lines: u8, points: u8) -> Seq<u32> {
    Seq::new((lines * points + 1) as nat, |i: int| (i + 1) as u32)
}

pub fn gen_data_points(lines: u8, points: u8) -> (data: Vec<u32>)
    ensures
        data@ == data_points(lines, points),
{
    assert(lines * points <= 255 * 255) by (nonlinear_arith)
        requires
            lines <= 255,
            points <= 255,
    ;
    let last: u32 = (lines as u32) * (points as u32) + 1;
    let mut data: Vec<u32> = Vec::new();
    let mut next: u32 = 1;
    while next <= last
        invariant
            1 <= next <= last + 1,
            last == lines * points + 1,
            last <= 65026,
            data@.len() == next - 1,
            forall|i: int| 0 <= i < data@.len() ==> data@[i] == (i + 1) as u32,
        decreases last + 1 - next,
    {
        data.push(next);
        next = next + 1;
    }
    assert(data@ =~= data_points(lines, points));
    data
}

} // verus!
