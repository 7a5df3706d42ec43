use vstd::prelude::*;
use vstd::string::*;

use crate::text::{bool_text, decimal, push_bool, push_decimal};

verus! {

/// A limit order as the venue takes it. `price` is in hundredths.
#[derive(Debug, Clone)]
pub struct Order {
    pub order_type: String,
    pub contract_id: u64,
    pub is_ask: bool,
    pub swap_purpose: String,
    pub size: u64,
    pub price: u64,
    pub volatile: bool,
}

/// The venue's acknowledgment of an order: the order's id.
#[derive(Debug, Clone)]
pub struct OrderResponse {
    pub order_id: String,
}

/// A change of price and size to a resting order.
#[derive(Debug)]
pub struct OrderEdit {
    pub order_id: String,
    pub contract_id: u64,
    pub price: u64,
    pub size: u64,
}

/// A cancellation: of one order (its id and contract), or of all orders.
#[derive(Debug)]
pub struct Cancel(pub Option<(String, u64)>);

impl Order {
    /// A limit order at `price` whole currency units, stored in hundredths,
    /// with an undisclosed swap purpose and no auto-cancel.
    pub fn new(contract_id: u64, is_ask: bool, price: u64, size: u64) -> (r: Order)
        requires
            price * 100 <= u64::MAX,
        ensures
            r.order_type@ == "limit"@,
            r.contract_id == contract_id,
            r.is_ask == is_ask,
            r.swap_purpose@ == "undisclosed"@,
            r.size == size,
            r.price == price * 100,
            !r.volatile,
    {
        Order {
            order_type: String::from_str("limit"),
            contract_id,
            is_ask,
            swap_purpose: String::from_str("undisclosed"),
            size,
            price: price * 100,
            volatile: false,
        }
    }

    /// Denotes whether this trade is a bona-fide hedge or not.
    pub fn swap_purpose(&mut self, arg: &str)
        ensures
            final(self).swap_purpose@ == arg@,
            final(self).order_type == old(self).order_type,
            final(self).contract_id == old(self).contract_id,
            final(self).is_ask == old(self).is_ask,
            final(self).size == old(self).size,
            final(self).price == old(self).price,
            final(self).volatile == old(self).volatile,
    {
        self.swap_purpose = String::from_str(arg);
    }

    /// Whether the order cancels itself at the end of the trading day.
    pub fn auto_cancel(&mut self, arg: bool)
        ensures
            final(self).volatile == arg,
            final(self).order_type == old(self).order_type,
            final(self).contract_id == old(self).contract_id,
            final(self).is_ask == old(self).is_ask,
            final(self).swap_purpose == old(self).swap_purpose,
            final(self).size == old(self).size,
            final(self).price == old(self).price,
    {
        self.volatile = arg;
    }
}

impl OrderEdit {
    pub fn new(order_id: String, contract_id: u64, price: u64, size: u64) -> (r: OrderEdit)
        ensures
            r.order_id == order_id,
            r.contract_id == contract_id,
            r.price == price,
            r.size == size,
    {
        OrderEdit { order_id, contract_id, price, size }
    }
}

impl Cancel {
    /// Cancels the order `order_id` on contract `contract_id`.
    pub fn one(order_id: String, contract_id: u64) -> (r: Cancel)
        ensures
            r.0 == Some((order_id, contract_id)),
    {
        Cancel(Some((order_id, contract_id)))
    }

    /// Cancels every open order.
    pub fn all() -> (r: Cancel)
        ensures
            r.0 is None,
    {
        Cancel(None)
    }
}

/// The JSON body that places order `o`; text fields are written verbatim.
pub open spec fn order_payload(o: Order) -> Seq<char> {
    "{\"order_type\": \""@ + o.order_type@ + "\", \"contract_id\": "@ + decimal(
        o.contract_id as nat,
    ) + ", \"is_ask\": "@ + bool_text(o.is_ask) + ", \"swap_purpose\": \""@ + o.swap_purpose@
        + "\", \"size\": "@ + decimal(o.size as nat) + ", \"price\": "@ + decimal(
        o.price as nat,
    ) + ", \"volatile\": "@ + bool_text(o.volatile) + "}"@
}

/// The JSON body that edits an order as `e` says.
pub open spec fn edit_payload(e: OrderEdit) -> Seq<char> {
    "{\"contract_id\": "@ + decimal(e.contract_id as nat) + ", \"size\": "@ + decimal(
        e.size as nat,
    ) + ", \"price\": "@ + decimal(e.price as nat) + "}"@
}

/// The JSON body that cancels one order on contract `contract_id`.
pub open spec fn cancel_payload(contract_id: u64) -> Seq<char> {
    "{\"contract_id\": "@ + decimal(contract_id as nat) + "}"@
}

impl Order {
    /// The request body that places this order.
    pub fn payload(&self) -> (r: String)
        ensures
            r@ == order_payload(*self),
    {
        let mut out = String::from_str("{\"order_type\": \"");
        out.append(self.order_type.as_str());
        out.append("\", \"contract_id\": ");
        push_decimal(&mut out, self.contract_id);
        out.append(", \"is_ask\": ");
        push_bool(&mut out, self.is_ask);
        out.append(", \"swap_purpose\": \"");
        out.append(self.swap_purpose.as_str());
        out.append("\", \"size\": ");
        push_decimal(&mut out, self.size);
        out.append(", \"price\": ");
        push_decimal(&mut out, self.price);
        out.append(", \"volatile\": ");
        push_bool(&mut out, self.volatile);
        out.append("}");
        assert(out@ =~= order_payload(*self));
        out
    }
}

impl OrderEdit {
    /// The request body of this edit.
    pub fn payload(&self) -> (r: String)
        ensures
            r@ == edit_payload(*self),
    {
        let mut out = String::from_str("{\"contract_id\": ");
        push_decimal(&mut out, self.contract_id);
        out.append(", \"size\": ");
        push_decimal(&mut out, self.size);
        out.append(", \"price\": ");
        push_decimal(&mut out, self.price);
        out.append("}");
        assert(out@ =~= edit_payload(*self));
        out
    }
}

impl Cancel {
    /// The request body of this cancellation: one for a single order, none
    /// for cancelling every order.
    pub fn payload(&self) -> (r: Option<String>)
        ensures
            r is Some <==> self.0 is Some,
            self.0 matches Some((_, contract_id)) ==> r->0@ == cancel_payload(contract_id),
    {
        match &self.0 {
            Some((_, contract_id)) => {
                let mut out = String::from_str("{\"contract_id\": ");
                push_decimal(&mut out, *contract_id);
                out.append("}");
                assert(out@ =~= cancel_payload(*contract_id));
                Some(out)
            },
            None => None,
        }
    }
}

} // verus!
