//! The order book: one balance per product.
use vstd::prelude::*;

use crate::order::{Order, order_product};
use crate::transaction::{Product, Transaction};

verus! {

/// The balance of one product. A positive value counts the sellers that wait
/// for a buyer, a negative one the buyers that wait for a seller.
pub type ProductLedger = i64;

/// The balances of all products on the market.
pub struct Ledger {
    apples: ProductLedger,
    pears: ProductLedger,
    tomatoes: ProductLedger,
    potatoes: ProductLedger,
    onions: ProductLedger,
}

/// Whether the order is a buy.
pub open spec fn is_buy(o: Order) -> bool {
    o is Buy
}

/// Whether `order` can be applied to a product whose balance is `b` without
/// leaving the range of the balance.
pub open spec fn order_fits(b: int, order: Order) -> bool {
    if is_buy(order) {
        b > i64::MIN
    } else {
        b < i64::MAX
    }
}

impl Ledger {
    /// The balance of product `p`.
    pub closed spec fn balance(&self, p: Product) -> int {
        match p {
            Product::Apple => self.apples as int,
            Product::Pear => self.pears as int,
            Product::Tomato => self.tomatoes as int,
            Product::Potato => self.potatoes as int,
            Product::Onion => self.onions as int,
        }
    }

    /// Every balance lies in the range of `ProductLedger`.
    pub proof fn lemma_balance_in_range(&self, p: Product)
        ensures
            i64::MIN <= self.balance(p) <= i64::MAX,
    {
    }

    /// An empty ledger: every balance is zero.
    pub fn new() -> (r: Ledger)
        ensures
            forall|p: Product| r.balance(p) == 0,
    {
        Ledger { apples: 0, pears: 0, tomatoes: 0, potatoes: 0, onions: 0 }
    }

    /// The balance of product `p`.
    pub fn get_balance(&self, p: Product) -> (r: i64)
        ensures
            r == self.balance(p),
    {
        match p {
            Product::Apple => self.apples,
            Product::Pear => self.pears,
            Product::Tomato => self.tomatoes,
            Product::Potato => self.potatoes,
            Product::Onion => self.onions,
        }
    }

    /// Applies a user's order to the balance of its product: a buy takes one
    /// from it, a sell adds one. When the order meets a waiting order of the
    /// other side (a buy while sellers wait, a sell while buyers wait), the
    /// trade is returned.
    pub fn handle_user_order(&mut self, order: Order) -> (r: Option<Transaction>)
        requires
            order_fits(old(self).balance(order_product(order)), order),
        ensures
            ({
                let p = order_product(order);
                let b = old(self).balance(p);
                &&& is_buy(order) ==> final(self).balance(p) == b - 1 && (r is Some <==> b > 0)
                &&& !is_buy(order) ==> final(self).balance(p) == b + 1 && (r is Some <==> b < 0)
                &&& r is Some ==> r == Some(Transaction(p))
                &&& forall|q: Product| q != p ==> final(self).balance(q) == old(self).balance(q)
            }),
    {
        match order {
            Order::Buy(_, product) => match product {
                Product::Apple => {
                    self.apples -= 1;
                    if self.apples >= 0 {
                        return Some(Transaction(Product::Apple));
                    }
                },
                Product::Pear => {
                    self.pears -= 1;
                    if self.pears >= 0 {
                        return Some(Transaction(Product::Pear));
                    }
                },
                Product::Tomato => {
                    self.tomatoes -= 1;
                    if self.tomatoes >= 0 {
                        return Some(Transaction(Product::Tomato));
                    }
                },
                Product::Potato => {
                    self.potatoes -= 1;
                    if self.potatoes >= 0 {
                        return Some(Transaction(Product::Potato));
                    }
                },
                Product::Onion => {
                    self.onions -= 1;
                    if self.onions >= 0 {
                        return Some(Transaction(Product::Onion));
                    }
                },
            },
            Order::Sell(_, product) => match product {
                Product::Apple => {
                    self.apples += 1;
                    if self.apples <= 0 {
                        return Some(Transaction(Product::Apple));
                    }
                },
                Product::Pear => {
                    self.pears += 1;
                    if self.pears <= 0 {
                        return Some(Transaction(Product::Pear));
                    }
                },
                Product::Tomato => {
                    self.tomatoes += 1;
                    if self.tomatoes <= 0 {
                        return Some(Transaction(Product::Tomato));
                    }
                },
                Product::Potato => {
                    self.potatoes += 1;
                    if self.potatoes <= 0 {
                        return Some(Transaction(Product::Potato));
                    }
                },
                Product::Onion => {
                    self.onions += 1;
                    if self.onions <= 0 {
                        return Some(Transaction(Product::Onion));
                    }
                },
            },
        };
        None
    }
}

} // verus!
