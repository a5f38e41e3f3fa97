//! Fonts: which code points a font is loaded with.
use vstd::prelude::*;

verus! {

/// The code points `lo..=hi`, in order; none when `lo > hi`.
pub open spec fn code_range(lo: int, hi: int) -> Seq<i32> {
    Seq::new(if lo <= hi { (hi - lo + 1) as nat } else { 0 }, |k: int| (lo + k) as i32)
}

/// The code points of every range, range after range.
pub open spec fn code_points_spec(ranges: Seq<(i32, i32)>) -> Seq<i32>
    decreases ranges.len(),
{
    if ranges.len() == 0 {
        Seq::empty()
    } else {
        code_points_spec(ranges.drop_last()) + code_range(
            ranges.last().0 as int,
            ranges.last().1 as int,
        )
    }
}

/// The code points that a font is loaded with, from the inclusive ranges a script gives.
pub fn code_points(ranges: &Vec<(i32, i32)>) -> (points: Vec<i32>)
    ensures
        points@ == code_points_spec(ranges@),
{
    let mut points: Vec<i32> = Vec::new();
    let mut r: usize = 0;
    while r < ranges.len()
        invariant
            r <= ranges.len(),
            points@ == code_points_spec(ranges@.take(r as int)),
        decreases ranges.len() - r,
    {
        let (lo, hi) = ranges[r];
        let ghost before = points@;
        if lo <= hi {
            let mut v = lo;
            loop
                invariant_except_break
                    points@ == before + code_range(lo as int, v - 1),
                invariant
                    lo <= v <= hi,
                ensures
                    points@ == before + code_range(lo as int, hi as int),
                decreases hi - v,
            {
                points.push(v);
                assert(points@ =~= before + code_range(lo as int, v as int));
                if v == hi {
                    break;
                }
                v = v + 1;
            }
        }
        proof {
            assert(ranges@.take(r + 1).drop_last() =~= ranges@.take(r as int));
            assert(ranges@.take(r + 1).last() == ranges@[r as int]);
            if lo > hi {
                assert(points@ =~= before + code_range(lo as int, hi as int));
            }
        }
        r = r + 1;
    }
    assert(ranges@.take(ranges@.len() as int) =~= ranges@);
    points
}

} // verus!
