use vstd::prelude::*;

use crate::error::{is_bad_request, AppError, AppResult};
use crate::text::same_text;

verus! {

/// Where a medicine order stands.
#[allow(non_camel_case_types)]
#[derive(Debug, Clone, Copy, PartialEq, Eq, Hash, Structural)]
pub enum OrderStatus {
    PENDING,
    SHIPPING,
    CANCELED,
    SUCCESS,
}

/// The number an order status is reported with.
pub open spec fn order_code_of(s: OrderStatus) -> i32 {
    match s {
        OrderStatus::PENDING => 1,
        OrderStatus::SHIPPING => 2,
        OrderStatus::CANCELED => 3,
        OrderStatus::SUCCESS => 4,
    }
}

/// The label an order status is stored and reported with.
pub open spec fn order_label_of(s: OrderStatus) -> Seq<char> {
    match s {
        OrderStatus::PENDING => "PENDING"@,
        OrderStatus::SHIPPING => "SHIPPING"@,
        OrderStatus::CANCELED => "CANCELED"@,
        OrderStatus::SUCCESS => "SUCCESS"@,
    }
}

impl OrderStatus {
    /// The number this status is reported with.
    pub fn code(self) -> (r: i32)
        ensures
            r == order_code_of(self),
    {
        match self {
            OrderStatus::PENDING => 1,
            OrderStatus::SHIPPING => 2,
            OrderStatus::CANCELED => 3,
            OrderStatus::SUCCESS => 4,
        }
    }

    /// The status stored under `label`, if any.
    pub fn from_label(label: &str) -> (r: Option<OrderStatus>)
        ensures
            r matches Some(s) ==> order_label_of(s) == label@,
            r is None ==> forall|s: OrderStatus| order_label_of(s) != label@,
    {
        if same_text(label, "PENDING") {
            Some(OrderStatus::PENDING)
        } else if same_text(label, "SHIPPING") {
            Some(OrderStatus::SHIPPING)
        } else if same_text(label, "CANCELED") {
            Some(OrderStatus::CANCELED)
        } else if same_text(label, "SUCCESS") {
            Some(OrderStatus::SUCCESS)
        } else {
            None
        }
    }

    /// The label this status is stored and reported with.
    pub fn label(self) -> (r: &'static str)
        ensures
            r@ == order_label_of(self),
    {
        match self {
            OrderStatus::PENDING => "PENDING",
            OrderStatus::SHIPPING => "SHIPPING",
            OrderStatus::CANCELED => "CANCELED",
            OrderStatus::SUCCESS => "SUCCESS",
        }
    }
}

/// Whether position `j` of `keys` holds `key`, as a predicate.
pub open spec fn holds_key(keys: Seq<i32>, key: i32) -> spec_fn(usize) -> bool {
    |j: usize| keys[j as int] == key
}

/// The positions, in order, at which `key` occurs in `keys`.
pub open spec fn positions_of(keys: Seq<i32>, key: i32) -> Seq<usize> {
    Seq::new(keys.len(), |j: int| j as usize).filter(holds_key(keys, key))
}

/// Groups order items under their orders: for each order identifier in
/// `order_ids`, the positions in `item_order_ids` of the items that belong
/// to it, in their original order.
pub fn group_items(order_ids: &Vec<i32>, item_order_ids: &Vec<i32>) -> (r: Vec<Vec<usize>>)
    ensures
        r@.len() == order_ids@.len(),
        forall|k: int|
            0 <= k < r@.len() ==> #[trigger] r@[k]@ == positions_of(item_order_ids@, order_ids@[k]),
{
    let mut groups: Vec<Vec<usize>> = Vec::new();
    let mut k: usize = 0;
    while k < order_ids.len()
        invariant
            k <= order_ids@.len(),
            groups@.len() == k,
            forall|x: int|
                0 <= x < k ==> #[trigger] groups@[x]@ == positions_of(item_order_ids@, order_ids@[x]),
        decreases order_ids@.len() - k,
    {
        let key = order_ids[k];
        let ghost keys = item_order_ids@;
        let ghost pred = holds_key(keys, key);
        let mut found: Vec<usize> = Vec::new();
        let mut j: usize = 0;
        while j < item_order_ids.len()
            invariant
                j <= item_order_ids@.len(),
                keys == item_order_ids@,
                pred == holds_key(keys, key),
                found@ == Seq::new(j as nat, |x: int| x as usize).filter(pred),
            decreases item_order_ids@.len() - j,
        {
            proof {
                let ids = Seq::new(j as nat, |x: int| x as usize);
                assert(pred(j) == (keys[j as int] == key));
                assert(Seq::new((j + 1) as nat, |x: int| x as usize) =~= ids.push(j));
                ids.lemma_filter_push(j, pred);
            }
            if item_order_ids[j] == key {
                found.push(j);
            }
            j = j + 1;
        }
        assert(Seq::new(j as nat, |x: int| x as usize) =~= Seq::new(keys.len(), |x: int| x as usize));
        groups.push(found);
        assert(groups@[k as int]@ == positions_of(item_order_ids@, order_ids@[k as int]));
        k = k + 1;
    }
    groups
}

/// Checks the items of a new order: every amount must be positive, else
/// the order is `BadRequest`.
pub fn validate_order_amounts(amounts: &Vec<i32>) -> (r: AppResult<()>)
    ensures
        (forall|i: int| 0 <= i < amounts@.len() ==> #[trigger] amounts@[i] > 0) ==> r is Ok,
        (exists|i: int| 0 <= i < amounts@.len() && #[trigger] amounts@[i] <= 0) ==> is_bad_request(r),
{
    let mut i: usize = 0;
    while i < amounts.len()
        invariant
            i <= amounts@.len(),
            forall|j: int| 0 <= j < i ==> #[trigger] amounts@[j] > 0,
        decreases amounts@.len() - i,
    {
        if amounts[i] <= 0 {
            return Err(AppError::BadRequest("amount must be positive".to_string()));
        }
        i = i + 1;
    }
    Ok(())
}

/// The identifier of a newly placed order.
#[derive(Debug, Clone, Copy, PartialEq, Eq, Structural)]
pub struct CreateOrderResp {
    pub order_id: i32,
}

} // verus!
