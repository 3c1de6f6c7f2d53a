//! One order of a user, and how it is read from a line of input.
use vstd::prelude::*;
use vstd::string::{StrSliceExecFns, StringExecFns};

use crate::transaction::{Product, product_name};

verus! {

/// The identity of a connected user.
pub type UserId = u16;

/// A single order of a user.
#[derive(Debug, Clone, Copy, PartialEq, Eq, Structural)]
pub enum Order {
    Buy(UserId, Product),
    Sell(UserId, Product),
}

/// The line of input that places an order for `p`.
pub open spec fn order_line(buy: bool, p: Product) -> Seq<char> {
    if buy {
        "BUY:"@ + product_name(p)
    } else {
        "SELL:"@ + product_name(p)
    }
}

/// Whether `s` is the line of some order.
pub open spec fn is_order_line(s: Seq<char>) -> bool {
    exists|buy: bool, p: Product| order_line(buy, p) == s
}

/// The text of an order, whoever placed it.
pub open spec fn order_text(o: Order) -> Seq<char> {
    match o {
        Order::Buy(_, p) => order_line(true, p),
        Order::Sell(_, p) => order_line(false, p),
    }
}

/// The error for a line that is no order.
pub open spec fn unknown_order_message(s: Seq<char>) -> Seq<char> {
    "Unknown order: "@ + s
}

pub open spec fn order_user(o: Order) -> UserId {
    match o {
        Order::Buy(u, _) => u,
        Order::Sell(u, _) => u,
    }
}

pub open spec fn order_product(o: Order) -> Product {
    match o {
        Order::Buy(_, p) => p,
        Order::Sell(_, p) => p,
    }
}

/// Whether two strings hold the same characters.
pub fn text_eq(a: &str, b: &str) -> (r: bool)
    ensures
        r == (a@ == b@),
{
    let n = a.unicode_len();
    if n != b.unicode_len() {
        return false;
    }
    let mut i: usize = 0;
    while i < n
        invariant
            n == a@.len(),
            n == b@.len(),
            i <= n,
            a@.subrange(0, i as int) == b@.subrange(0, i as int),
        decreases n - i,
    {
        if a.get_char(i) != b.get_char(i) {
            return false;
        }
        assert(a@.subrange(0, i + 1) =~= a@.subrange(0, i as int).push(a@[i as int]));
        assert(b@.subrange(0, i + 1) =~= b@.subrange(0, i as int).push(b@[i as int]));
        i = i + 1;
    }
    assert(a@ =~= a@.subrange(0, n as int));
    assert(b@ =~= b@.subrange(0, n as int));
    true
}

/// Distinct products have distinct names.
pub proof fn lemma_product_name_injective(p1: Product, p2: Product)
    requires
        product_name(p1) == product_name(p2),
    ensures
        p1 == p2,
{
    reveal_strlit("APPLE");
    reveal_strlit("PEAR");
    reveal_strlit("TOMATO");
    reveal_strlit("POTATO");
    reveal_strlit("ONION");
    let n = product_name(p1);
    assert(n.len() == product_name(p2).len());
    assert(n[0] == product_name(p2)[0]);
    assert(n[1] == product_name(p2)[1]);
    match p1 {
        Product::Apple => assert(n.len() == 5 && n[0] == 'A'),
        Product::Pear => assert(n.len() == 4),
        Product::Tomato => assert(n.len() == 6 && n[0] == 'T'),
        Product::Potato => assert(n.len() == 6 && n[0] == 'P'),
        Product::Onion => assert(n.len() == 5 && n[0] == 'O'),
    }
    match p2 {
        Product::Apple => assert(product_name(p2).len() == 5 && product_name(p2)[0] == 'A'),
        Product::Pear => assert(product_name(p2).len() == 4),
        Product::Tomato => assert(product_name(p2).len() == 6 && product_name(p2)[0] == 'T'),
        Product::Potato => assert(product_name(p2).len() == 6 && product_name(p2)[0] == 'P'),
        Product::Onion => assert(product_name(p2).len() == 5 && product_name(p2)[0] == 'O'),
    }
}

/// The text of an order tells its side and its product: two orders with the
/// same text by the same user are the same order.
pub proof fn lemma_order_text_injective(o1: Order, o2: Order)
    requires
        order_text(o1) == order_text(o2),
        order_user(o1) == order_user(o2),
    ensures
        o1 == o2,
{
    reveal_strlit("BUY:");
    reveal_strlit("SELL:");
    let (b1, p1) = match o1 {
        Order::Buy(_, p) => (true, p),
        Order::Sell(_, p) => (false, p),
    };
    let (b2, p2) = match o2 {
        Order::Buy(_, p) => (true, p),
        Order::Sell(_, p) => (false, p),
    };
    let t = order_text(o1);
    assert(t[0] == if b1 { 'B' } else { 'S' });
    assert(order_text(o2)[0] == if b2 { 'B' } else { 'S' });
    assert(b1 == b2);
    let k: int = if b1 { 4 } else { 5 };
    assert(product_name(p1) =~= t.subrange(k, t.len() as int));
    assert(product_name(p2) =~= order_text(o2).subrange(k, t.len() as int));
    lemma_product_name_injective(p1, p2);
}

impl Order {
    /// Reads the order that `input` places for `user_id`: `BUY:` or `SELL:`
    /// followed by the name of a product, nothing else.
    pub fn new_order_form_str(user_id: UserId, input: &str) -> (r: Result<Order, String>)
        ensures
            r is Ok <==> is_order_line(input@),
            r is Ok ==> order_text(r->Ok_0) == input@ && order_user(r->Ok_0) == user_id,
            r is Err ==> r->Err_0@ == unknown_order_message(input@),
    {
        proof {
            reveal_strlit("BUY:");
            reveal_strlit("SELL:");
            reveal_strlit("APPLE");
            reveal_strlit("PEAR");
            reveal_strlit("TOMATO");
            reveal_strlit("POTATO");
            reveal_strlit("ONION");
            reveal_strlit("BUY:APPLE");
            reveal_strlit("BUY:PEAR");
            reveal_strlit("BUY:TOMATO");
            reveal_strlit("BUY:POTATO");
            reveal_strlit("BUY:ONION");
            reveal_strlit("SELL:APPLE");
            reveal_strlit("SELL:PEAR");
            reveal_strlit("SELL:TOMATO");
            reveal_strlit("SELL:POTATO");
            reveal_strlit("SELL:ONION");
        }
        let (buy, product) = if text_eq(input, "BUY:APPLE") {
            (true, Product::Apple)
        } else if text_eq(input, "BUY:PEAR") {
            (true, Product::Pear)
        } else if text_eq(input, "BUY:TOMATO") {
            (true, Product::Tomato)
        } else if text_eq(input, "BUY:POTATO") {
            (true, Product::Potato)
        } else if text_eq(input, "BUY:ONION") {
            (true, Product::Onion)
        } else if text_eq(input, "SELL:APPLE") {
            (false, Product::Apple)
        } else if text_eq(input, "SELL:PEAR") {
            (false, Product::Pear)
        } else if text_eq(input, "SELL:TOMATO") {
            (false, Product::Tomato)
        } else if text_eq(input, "SELL:POTATO") {
            (false, Product::Potato)
        } else if text_eq(input, "SELL:ONION") {
            (false, Product::Onion)
        } else {
            assert forall|b: bool, p: Product| order_line(b, p) != input@ by {
                match p {
                    Product::Apple => {
                        assert(order_line(b, p) =~= if b { "BUY:APPLE"@ } else { "SELL:APPLE"@ });
                    },
                    Product::Pear => {
                        assert(order_line(b, p) =~= if b { "BUY:PEAR"@ } else { "SELL:PEAR"@ });
                    },
                    Product::Tomato => {
                        assert(order_line(b, p) =~= if b { "BUY:TOMATO"@ } else { "SELL:TOMATO"@ });
                    },
                    Product::Potato => {
                        assert(order_line(b, p) =~= if b { "BUY:POTATO"@ } else { "SELL:POTATO"@ });
                    },
                    Product::Onion => {
                        assert(order_line(b, p) =~= if b { "BUY:ONION"@ } else { "SELL:ONION"@ });
                    },
                }
            }
            let mut message = String::from_str("Unknown order: ");
            message.append(input);
            return Err(message);
        };
        assert(order_line(buy, product) =~= input@);
        if buy {
            Ok(Order::Buy(user_id, product))
        } else {
            Ok(Order::Sell(user_id, product))
        }
    }

    /// The user who placed the order.
    pub fn user_id(&self) -> (r: UserId)
        ensures
            r == order_user(*self),
    {
        match self {
            Order::Buy(u, _) => *u,
            Order::Sell(u, _) => *u,
        }
    }

    /// The product the order is for.
    pub fn product(&self) -> (r: Product)
        ensures
            r == order_product(*self),
    {
        match self {
            Order::Buy(_, p) => *p,
            Order::Sell(_, p) => *p,
        }
    }
}

} // verus!
