//! Shipment tracking reports orders by the same statuses as ordering.

use vstd::prelude::*;

pub use crate::order::OrderStatus;
use crate::error::{is_bad_request, AppError, AppResult};
use crate::order::order_code_of;

verus! {

/// The status filter that a listing's `status` parameter asks for: absent
/// or 0 for all orders, 1 to 4 for one status by its code; any other value
/// is `BadRequest`.
pub fn status_filter(code: Option<i32>) -> (r: AppResult<Option<OrderStatus>>)
    ensures
        (code is None || code == Some(0i32)) ==> r == Ok::<Option<OrderStatus>, AppError>(None),
        (code matches Some(c) && 1 <= c <= 4) ==> (r matches Ok(Some(s)) && order_code_of(s) == code->0),
        (code matches Some(c) && (c < 0 || c > 4)) ==> is_bad_request(r),
{
    match code {
        None | Some(0) => Ok(None),
        Some(1) => Ok(Some(OrderStatus::PENDING)),
        Some(2) => Ok(Some(OrderStatus::SHIPPING)),
        Some(3) => Ok(Some(OrderStatus::CANCELED)),
        Some(4) => Ok(Some(OrderStatus::SUCCESS)),
        Some(_) => Err(AppError::BadRequest("unknown status filter".to_string())),
    }
}

/// Whether an order with status code `status_code` passes `filter`.
pub fn passes_filter(status_code: i32, filter: Option<OrderStatus>) -> (r: bool)
    ensures
        r == code_passes(status_code, filter),
{
    match filter {
        None => true,
        Some(f) => status_code == f.code(),
    }
}

/// Whether status code `code` passes `filter`.
pub open spec fn code_passes(code: i32, filter: Option<OrderStatus>) -> bool {
    match filter {
        None => true,
        Some(f) => code == order_code_of(f),
    }
}

/// Whether the order at position `j` of `codes` passes `filter`, as a predicate.
pub open spec fn passes_at(codes: Seq<i32>, filter: Option<OrderStatus>) -> spec_fn(usize) -> bool {
    |j: usize| code_passes(codes[j as int], filter)
}

/// The positions, in order, of the orders whose status codes pass `filter`.
pub fn orders_passing(codes: &Vec<i32>, filter: Option<OrderStatus>) -> (r: Vec<usize>)
    ensures
        r@ == Seq::new(codes@.len(), |j: int| j as usize).filter(passes_at(codes@, filter)),
{
    let ghost pred = passes_at(codes@, filter);
    let mut out: Vec<usize> = Vec::new();
    let mut j: usize = 0;
    while j < codes.len()
        invariant
            j <= codes@.len(),
            pred == passes_at(codes@, filter),
            out@ == Seq::new(j as nat, |x: int| x as usize).filter(pred),
        decreases codes@.len() - j,
    {
        proof {
            let ids = Seq::new(j as nat, |x: int| x as usize);
            assert(pred(j) == code_passes(codes@[j as int], filter));
            assert(Seq::new((j + 1) as nat, |x: int| x as usize) =~= ids.push(j));
            ids.lemma_filter_push(j, pred);
        }
        if passes_filter(codes[j], filter) {
            out.push(j);
        }
        j = j + 1;
    }
    out
}

} // verus!
