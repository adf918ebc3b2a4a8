use vstd::prelude::*;

verus! {

/// One of the two roots of a ray-sphere intersection: the near root
/// `(h - sqrt(disc)) / a` or the far root `(h + sqrt(disc)) / a`.
#[derive(Clone, Copy, Debug, PartialEq, Eq, Structural)]
pub enum Root {
    Near,
    Far,
}

/// The root a sphere reports: the near one when it lies strictly inside the
/// search interval, else the far one when that does, else none.
pub open spec fn chosen_root(near_surrounded: bool, far_surrounded: bool) -> Option<Root> {
    if near_surrounded {
        Some(Root::Near)
    } else if far_surrounded {
        Some(Root::Far)
    } else {
        None
    }
}

/// Picks the root of a ray-sphere intersection to report, given whether each
/// root lies strictly inside the search interval.
pub fn choose_root(near_surrounded: bool, far_surrounded: bool) -> (r: Option<Root>)
    ensures
        r == chosen_root(near_surrounded, far_surrounded),
        near_surrounded ==> r == Some(Root::Near),
        r is None <==> !near_surrounded && !far_surrounded,
{
    if near_surrounded {
        Some(Root::Near)
    } else if far_surrounded {
        Some(Root::Far)
    } else {
        None
    }
}

} // verus!
