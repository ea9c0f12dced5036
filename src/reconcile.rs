use vstd::prelude::*;

verus! {

/// Number of pixels covered by a `(width, height)` pair.
pub open spec fn area(d: (u32, u32)) -> nat {
    (d.0 as nat) * (d.1 as nat)
}

/// The pair with the smaller area; on equal areas the first pair wins.
pub open spec fn smaller_dims(a: (u32, u32), b: (u32, u32)) -> (u32, u32) {
    if area(b) < area(a) {
        b
    } else {
        a
    }
}

/// Which of the two images has to be resized to reach the common size.
#[derive(Clone, Copy, Debug, PartialEq, Eq, Structural)]
pub enum ResizeTarget {
    First,
    Second,
    Neither,
}

/// The common working size of two images and the image that must be resized to it.
#[derive(Clone, Copy, Debug, PartialEq, Eq, Structural)]
pub struct Reconciliation {
    pub width: u32,
    pub height: u32,
    pub resize: ResizeTarget,
}

pub open spec fn resize_target_of(a: (u32, u32), b: (u32, u32)) -> ResizeTarget {
    if a == b {
        ResizeTarget::Neither
    } else if smaller_dims(a, b) == a {
        ResizeTarget::Second
    } else {
        ResizeTarget::First
    }
}

pub open spec fn reconciliation_of(a: (u32, u32), b: (u32, u32)) -> Reconciliation {
    Reconciliation {
        width: smaller_dims(a, b).0,
        height: smaller_dims(a, b).1,
        resize: resize_target_of(a, b),
    }
}

fn area_of(d: (u32, u32)) -> (r: u64)
    ensures
        r as nat == area(d),
{
    assert((d.0 as nat) * (d.1 as nat) <= u64::MAX) by (nonlinear_arith)
        requires
            d.0 <= u32::MAX,
            d.1 <= u32::MAX,
    ;
    (d.0 as u64) * (d.1 as u64)
}

/// The dimensions with the smaller pixel area; the first pair when the areas are equal.
pub fn get_smallest_dimensions(dim_1: (u32, u32), dim_2: (u32, u32)) -> (r: (u32, u32))
    ensures
        r == smaller_dims(dim_1, dim_2),
        area(r) <= area(dim_1),
        area(r) <= area(dim_2),
        area(dim_2) < area(dim_1) ==> r == dim_2,
        area(dim_1) <= area(dim_2) ==> r == dim_1,
{
    let pix_1 = area_of(dim_1);
    let pix_2 = area_of(dim_2);
    if pix_2 < pix_1 {
        dim_2
    } else {
        dim_1
    }
}

/// Picks the common size of two images and says which one must be resized to it.
/// Equal dimensions (not merely equal areas) need no resize.
pub fn reconcile(dims_a: (u32, u32), dims_b: (u32, u32)) -> (r: Reconciliation)
    ensures
        r == reconciliation_of(dims_a, dims_b),
        (r.width, r.height) == smaller_dims(dims_a, dims_b),
        r.resize == ResizeTarget::Neither <==> dims_a == dims_b,
        r.resize == ResizeTarget::First ==> dims_b == (r.width, r.height) && dims_a != dims_b,
        r.resize == ResizeTarget::Second ==> dims_a == (r.width, r.height) && dims_a != dims_b,
{
    let (width, height) = get_smallest_dimensions(dims_a, dims_b);
    let resize = if dims_a.0 == dims_b.0 && dims_a.1 == dims_b.1 {
        ResizeTarget::Neither
    } else if width == dims_a.0 && height == dims_a.1 {
        ResizeTarget::Second
    } else {
        ResizeTarget::First
    };
    Reconciliation { width, height, resize }
}

/// The reconciled size has the strictly smaller area of the two, and is the first
/// operand's size whenever the areas are equal.
pub proof fn lemma_reconcile_picks_smaller(dims_a: (u32, u32), dims_b: (u32, u32))
    ensures
        area(dims_b) < area(dims_a) ==> (reconciliation_of(dims_a, dims_b).width,
            reconciliation_of(dims_a, dims_b).height) == dims_b,
        area(dims_a) < area(dims_b) ==> (reconciliation_of(dims_a, dims_b).width,
            reconciliation_of(dims_a, dims_b).height) == dims_a,
        area(dims_a) == area(dims_b) ==> (reconciliation_of(dims_a, dims_b).width,
            reconciliation_of(dims_a, dims_b).height) == dims_a,
{
}

} // verus!
