//! What is traded on the market.
use vstd::prelude::*;

verus! {

/// The kind of product that a user can buy or sell.
#[derive(Debug, Clone, Copy, PartialEq, Eq, Structural)]
pub enum Product {
    Apple,
    Pear,
    Tomato,
    Potato,
    Onion,
}

/// The name of a product on the wire.
pub open spec fn product_name(p: Product) -> Seq<char> {
    match p {
        Product::Apple => "APPLE"@,
        Product::Pear => "PEAR"@,
        Product::Tomato => "TOMATO"@,
        Product::Potato => "POTATO"@,
        Product::Onion => "ONION"@,
    }
}

impl Product {
    /// The name of the product on the wire.
    pub fn name(&self) -> (r: &'static str)
        ensures
            r@ == product_name(*self),
    {
        match self {
            Product::Apple => "APPLE",
            Product::Pear => "PEAR",
            Product::Tomato => "TOMATO",
            Product::Potato => "POTATO",
            Product::Onion => "ONION",
        }
    }
}

/// A trade between a buyer and a seller of one product.
#[derive(Debug, Clone, Copy, PartialEq, Eq, Structural)]
pub struct Transaction(pub Product);

} // verus!
