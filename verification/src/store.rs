//! The in-memory product store the service keeps between requests.
//!
//! The surrounding request handlers only ever parse a record, run it through
//! validation, and then touch the store: new records get the next sequential
//! identifier, and lookups, replacements and removals address the first
//! record carrying the requested identifier.

use vstd::prelude::*;

use crate::model::Product;
use crate::model::ProductModel;

verus! {

/// Some record in the sequence carries this identifier.
pub open spec fn contains_id(s: Seq<ProductModel>, id: int) -> bool {
    exists|i: int| 0 <= i < s.len() && s[i].id == id
}

/// The records held by the service, in insertion order.
pub struct ProductStore {
    products: Vec<Product>,
}

impl ProductStore {
    /// The held records.
    pub closed spec fn view(&self) -> Seq<ProductModel> {
        self.products.deep_view()
    }

    /// An empty store.
    pub fn new() -> (s: Self)
        ensures
            s@ == Seq::<ProductModel>::empty(),
    {
        let s = ProductStore { products: Vec::new() };
        proof {
            assert(s@ =~= Seq::<ProductModel>::empty());
        }
        s
    }

    /// A store seeded with the given records.
    pub fn from_products(products: Vec<Product>) -> (s: Self)
        ensures
            s@ == products.deep_view(),
    {
        ProductStore { products }
    }

    /// How many records are held.
    pub fn count(&self) -> (n: usize)
        ensures
            n == self@.len(),
    {
        self.products.len()
    }

    /// The identifier the next record added will get: one past the count,
    /// numbering records from one.
    pub fn next_id(&self) -> (id: i32)
        requires
            self@.len() < i32::MAX,
        ensures
            id == self@.len() + 1,
    {
        self.products.len() as i32 + 1
    }

    /// Appends a record.
    pub fn add(&mut self, product: Product)
        ensures
            final(self)@ == old(self)@.push(product@),
    {
        let ghost before = self.products.deep_view();
        self.products.push(product);
        proof {
            assert(self.products.deep_view() =~= before.push(self.products@.last()@));
        }
    }

    /// The position of the first record carrying the identifier, if any
    /// record does.
    pub fn position_of(&self, product_id: i32) -> (r: Option<usize>)
        ensures
            r matches Some(i) ==> ({
                &&& i < self@.len()
                &&& self@[i as int].id == product_id
                &&& forall|j: int| 0 <= j < i ==> self@[j].id != product_id
            }),
            r is None <==> !contains_id(self@, product_id as int),
    {
        let mut k: usize = 0;
        while k < self.products.len()
            invariant
                k <= self@.len(),
                forall|j: int| 0 <= j < k ==> self@[j].id != product_id,
            decreases self@.len() - k,
        {
            if self.products[k].id == product_id {
                proof {
                    assert(self@[k as int].id == product_id);
                }
                return Some(k);
            }
            k = k + 1;
        }
        None
    }

    /// The first record carrying the identifier, if any record does.
    pub fn get(&self, product_id: i32) -> (r: Option<&Product>)
        ensures
            r matches Some(p) ==> ({
                &&& contains_id(self@, product_id as int)
                &&& p@.id == product_id
                &&& exists|i: int|
                    0 <= i < self@.len() && self@[i] == p@ && (forall|j: int|
                        0 <= j < i ==> self@[j].id != product_id)
            }),
            r is None <==> !contains_id(self@, product_id as int),
    {
        match self.position_of(product_id) {
            Some(i) => Some(&self.products[i]),
            None => None,
        }
    }

    /// Replaces the first record carrying the given record's identifier.
    pub fn update(&mut self, product: Product)
        requires
            contains_id(old(self)@, product@.id),
        ensures
            exists|i: int|
                {
                    &&& 0 <= i < old(self)@.len()
                    &&& old(self)@[i].id == product@.id
                    &&& forall|j: int| 0 <= j < i ==> old(self)@[j].id != product@.id
                    &&& final(self)@ == old(self)@.update(i, product@)
                },
    {
        let ghost before = self.products.deep_view();
        let index = match self.position_of(product.id) {
            Some(i) => i,
            None => {
                proof {
                    assert(false);
                }
                return ;
            },
        };
        self.products.set(index, product);
        proof {
            assert(self.products.deep_view() =~= before.update(
                index as int,
                self.products@[index as int]@,
            ));
        }
    }

    /// Removes the first record carrying the identifier.
    pub fn remove(&mut self, product_id: i32)
        requires
            contains_id(old(self)@, product_id as int),
        ensures
            exists|i: int|
                {
                    &&& 0 <= i < old(self)@.len()
                    &&& old(self)@[i].id == product_id
                    &&& forall|j: int| 0 <= j < i ==> old(self)@[j].id != product_id
                    &&& final(self)@ == old(self)@.remove(i)
                },
    {
        let ghost before = self.products.deep_view();
        let index = match self.position_of(product_id) {
            Some(i) => i,
            None => {
                proof {
                    assert(false);
                }
                return ;
            },
        };
        self.products.remove(index);
        proof {
            assert(self.products.deep_view() =~= before.remove(index as int));
        }
    }

    /// All held records, for the surrounding program to serve.
    pub fn all(&self) -> (r: &Vec<Product>)
        ensures
            r.deep_view() == self@,
    {
        &self.products
    }
}

} // verus!
