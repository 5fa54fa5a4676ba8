//! The record type of the interface contract.
//!
//! A `Product` is passed by value across the host/module boundary; it has no
//! identity beyond field equality, and each side owns its copy independently.
//! Money is held as a whole number of cents so that contracts can speak of
//! prices exactly.

use vstd::prelude::*;

verus! {

/// The mathematical value of a [`Product`]: each field as the
/// specification-level counterpart of its executable type.
pub struct ProductModel {
    pub id: int,
    pub name: Seq<char>,
    pub price_cents: int,
    pub description: Seq<char>,
    pub image: Seq<char>,
}

/// The record that the validation pipeline runs over.
#[derive(Debug)]
pub struct Product {
    pub id: i32,
    pub name: String,
    /// The price in cents: one hundred cents to a currency unit.
    pub price_cents: u64,
    pub description: String,
    pub image: String,
}

impl View for Product {
    type V = ProductModel;

    open spec fn view(&self) -> ProductModel {
        ProductModel {
            id: self.id as int,
            name: self.name@,
            price_cents: self.price_cents as int,
            description: self.description@,
            image: self.image@,
        }
    }
}

impl DeepView for Product {
    type V = ProductModel;

    open spec fn deep_view(&self) -> ProductModel {
        self.view()
    }
}

impl Clone for Product {
    /// A clone carries the same record value.
    fn clone(&self) -> (r: Self)
        ensures
            r@ == self@,
    {
        Product {
            id: self.id,
            name: self.name.clone(),
            price_cents: self.price_cents,
            description: self.description.clone(),
            image: self.image.clone(),
        }
    }
}

/// A reference to a product by its identifier.
pub struct ProductInfo {
    pub product_id: i32,
}

} // verus!
