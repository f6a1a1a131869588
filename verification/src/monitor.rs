use vstd::prelude::*;
use crate::errors::Error;

verus! {

/// One monitor's active rectangle, in screen pixel coordinates, as one
/// display-controller query reported it.
#[derive(Clone, Copy, Debug, PartialEq, Eq, Structural)]
pub struct MonitorRect {
    pub x: i16,
    pub y: i16,
    pub width: u16,
    pub height: u16,
}

/// Pixel area of a monitor rectangle.
pub open spec fn area(r: MonitorRect) -> int {
    r.width * r.height
}

/// `rects[i]` is the monitor the resolver must pick: it has a nonzero area,
/// no rectangle has a larger area, and every earlier rectangle has a strictly
/// smaller one (ties keep the first found).
pub open spec fn is_first_largest(rects: Seq<MonitorRect>, i: int) -> bool {
    &&& 0 <= i < rects.len()
    &&& area(rects[i]) > 0
    &&& forall|j: int| 0 <= j < rects.len() ==> area(rects[j]) <= area(rects[i])
    &&& forall|j: int| 0 <= j < i ==> area(rects[j]) < area(rects[i])
}

/// Pick the monitor with the largest pixel area; ties keep the first found.
/// Rectangles with zero area never qualify: when every candidate is empty (or
/// there is none at all) the resolver reports `NoScreenFound`.
pub fn select_largest(rects: &Vec<MonitorRect>) -> (r: Result<MonitorRect, Error>)
    ensures
        match r {
            Ok(m) => exists|i: int| is_first_largest(rects@, i) && m == rects@[i],
            Err(e) => {
                &&& e == Error::NoScreenFound
                &&& forall|j: int| 0 <= j < rects@.len() ==> area(rects@[j]) == 0
            },
        },
{
    let mut best: Option<MonitorRect> = None;
    let ghost mut best_at: int = 0;
    let mut size: u64 = 0;
    let mut k: usize = 0;
    while k < rects.len()
        invariant
            0 <= k <= rects@.len(),
            match best {
                Some(m) => {
                    &&& 0 <= best_at < k
                    &&& m == rects@[best_at]
                    &&& size == area(rects@[best_at])
                    &&& size > 0
                    &&& forall|j: int| 0 <= j < k ==> area(rects@[j]) <= area(rects@[best_at])
                    &&& forall|j: int| 0 <= j < best_at ==> area(rects@[j]) < area(
                        rects@[best_at],
                    )
                },
                None => {
                    &&& size == 0
                    &&& forall|j: int| 0 <= j < k ==> area(rects@[j]) == 0
                },
            },
        decreases rects@.len() - k,
    {
        let rect = rects[k];
        proof {
            assert(rect.width as int * rect.height as int <= 0xffff * 0xffff)
                by (nonlinear_arith)
                requires
                    rect.width <= 0xffff,
                    rect.height <= 0xffff,
            ;
        }
        let pixels: u64 = rect.width as u64 * rect.height as u64;
        if pixels > size {
            size = pixels;
            best = Some(rect);
            proof {
                best_at = k as int;
            }
        }
        k = k + 1;
    }
    match best {
        Some(m) => Ok(m),
        None => Err(Error::NoScreenFound),
    }
}

} // verus!
