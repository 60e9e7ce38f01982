//! The catalog store: the fixed list of products for sale.

use crate::get_initial_products;
use crate::web::data::{Amount, Product, ProductView};
use vstd::prelude::*;

verus! {

/// The views of a sequence of products, in the same order.
pub open spec fn product_views(products: Seq<Product>) -> Seq<ProductView> {
    products.map_values(|p: Product| p@)
}

/// No two products of the sequence share an identifier.
pub open spec fn distinct_ids(products: Seq<ProductView>) -> bool {
    forall|i: int, j: int|
        0 <= i < j < products.len() ==> (#[trigger] products[i]).id != (#[trigger] products[j]).id
}

/// The four products every freshly started shop sells, in menu order.
pub open spec fn seeded_catalog() -> Seq<ProductView> {
    seq![
        ProductView {
            id: 1,
            name: "Classic Burger"@,
            price: Amount { bits: 0x402F_0000_0000_0000 },
        },
        ProductView {
            id: 2,
            name: "Cheese Burger"@,
            price: Amount { bits: 0x4031_8000_0000_0000 },
        },
        ProductView { id: 3, name: "Fries"@, price: Amount { bits: 0x4018_0000_0000_0000 } },
        ProductView { id: 4, name: "Soda"@, price: Amount { bits: 0x4012_0000_0000_0000 } },
    ]
}

/// True exactly when no two of the products share an identifier.
fn has_distinct_ids(products: &Vec<Product>) -> (distinct: bool)
    ensures
        distinct == distinct_ids(product_views(products@)),
{
    let ghost views = product_views(products@);
    let n: usize = products.len();
    let mut j: usize = 0;
    while j < n
        invariant
            n == products.len(),
            views == product_views(products@),
            j <= n,
            forall|a: int, b: int|
                0 <= a < b < j ==> (#[trigger] views[a]).id != (#[trigger] views[b]).id,
        decreases n - j,
    {
        let mut i: usize = 0;
        while i < j
            invariant
                n == products.len(),
                views == product_views(products@),
                i <= j < n,
                forall|a: int| 0 <= a < i ==> (#[trigger] views[a]).id != views[j as int].id,
            decreases j - i,
        {
            if products[i].id == products[j].id {
                assert(views[i as int].id == views[j as int].id);
                return false;
            }
            i += 1;
        }
        j += 1;
    }
    true
}

/// The catalog store. Its products never change once it is made, and no two
/// of them share an identifier.
pub struct Catalog {
    products: Vec<Product>,
}

impl View for Catalog {
    type V = Seq<ProductView>;

    closed spec fn view(&self) -> Seq<ProductView> {
        product_views(self.products@)
    }
}

impl Catalog {
    #[verifier::type_invariant]
    spec fn unique_identities(self) -> bool {
        distinct_ids(product_views(self.products@))
    }

    /// A catalog of the given products, in the given order, unless two of
    /// them share an identifier. An empty catalog is a valid one.
    pub fn new(products: Vec<Product>) -> (made: Option<Catalog>)
        ensures
            made is Some <==> distinct_ids(product_views(products@)),
            made matches Some(catalog) ==> catalog@ == product_views(products@),
    {
        if has_distinct_ids(&products) {
            Some(Catalog { products })
        } else {
            None
        }
    }

    /// The catalog every freshly started shop has.
    pub fn seeded() -> (catalog: Catalog)
        ensures
            catalog@ == seeded_catalog(),
    {
        let products = get_initial_products();
        assert(distinct_ids(seeded_catalog()));
        Catalog { products }
    }

    /// A snapshot copy of the catalog, in catalog order.
    pub fn list_products(&self) -> (listed: Vec<Product>)
        ensures
            product_views(listed@) == self@,
            distinct_ids(self@),
    {
        proof {
            use_type_invariant(self);
        }
        self.products.clone()
    }
}

} // verus!
