//! Change detection: remembers which products were available at the last poll
//! and reports the ones that have become available since.

use crate::shopify::{available_products, Product, ProductResponse, ProductView};
use std::collections::HashSet;
use vstd::prelude::*;

verus! {

broadcast use vstd::std_specs::hash::group_hash_axioms;

/// The identifiers that occur among `products`.
pub open spec fn product_ids(products: Seq<ProductView>) -> Set<i64> {
    Set::new(|id: i64| exists|i: int| 0 <= i < products.len() && (#[trigger] products[i]).id == id)
}

/// The identifiers of the available products of a catalog.
pub open spec fn available_ids(products: Seq<ProductView>) -> Set<i64> {
    product_ids(available_products(products))
}

/// The predicate that keeps the products whose identifier is not in `seen`.
pub open spec fn is_unseen(seen: Set<i64>) -> spec_fn(ProductView) -> bool {
    |p: ProductView| !seen.contains(p.id)
}

/// What one check reports: the available products of the observed catalog
/// whose identifier was not in the snapshot `seen`, in catalog order.
pub open spec fn newly_available(seen: Set<i64>, observed: Seq<ProductView>) -> Seq<ProductView> {
    available_products(observed).filter(is_unseen(seen))
}

/// The snapshot that one check leaves behind: the identifiers available in the
/// observed catalog and nothing else, whatever the snapshot was before.
pub open spec fn snapshot_after(seen: Set<i64>, observed: Seq<ProductView>) -> Set<i64> {
    available_ids(observed)
}

/// Filtering a list of products by "not seen" removes exactly the seen
/// identifiers from the set of its identifiers.
pub proof fn lemma_unseen_ids(seen: Set<i64>, products: Seq<ProductView>)
    ensures
        product_ids(products.filter(is_unseen(seen))) == product_ids(products).difference(seen),
{
    let kept = products.filter(is_unseen(seen));
    assert forall|id: i64| product_ids(kept).contains(id) implies product_ids(products).difference(
        seen,
    ).contains(id) by {
        let i = choose|i: int| 0 <= i < kept.len() && (#[trigger] kept[i]).id == id;
        products.lemma_filter_pred(is_unseen(seen), i);
        assert(kept.contains(kept[i]));
        products.lemma_filter_contains_rev(is_unseen(seen), kept[i]);
        let j = choose|j: int| 0 <= j < products.len() && products[j] == kept[i];
        assert(products[j].id == id);
    }
    assert forall|id: i64| product_ids(products).difference(seen).contains(
        id,
    ) implies product_ids(kept).contains(id) by {
        let j = choose|j: int| 0 <= j < products.len() && (#[trigger] products[j]).id == id;
        products.lemma_filter_contains(is_unseen(seen), j);
        let i = choose|i: int| 0 <= i < kept.len() && kept[i] == products[j];
        assert(kept[i].id == id);
    }
    assert(product_ids(kept) =~= product_ids(products).difference(seen));
}

/// A check against the snapshot that the check of `first` left reports, of a
/// second catalog, exactly the identifiers available in the second and not in
/// the first. The snapshot before the first check plays no part.
pub proof fn law_second_check_is_set_difference(
    seen: Set<i64>,
    first: Seq<ProductView>,
    second: Seq<ProductView>,
)
    ensures
        product_ids(newly_available(snapshot_after(seen, first), second)) == available_ids(
            second,
        ).difference(available_ids(first)),
{
    lemma_unseen_ids(available_ids(first), available_products(second));
}

/// Checking the same catalog twice in a row reports nothing the second time.
pub proof fn law_repeated_check_reports_nothing(seen: Set<i64>, observed: Seq<ProductView>)
    ensures
        newly_available(snapshot_after(seen, observed), observed) == Seq::<ProductView>::empty(),
{
    let available = available_products(observed);
    let unseen = is_unseen(available_ids(observed));
    assert forall|i: int| 0 <= i < available.len() implies !unseen(#[trigger] available[i]) by {
        assert(product_ids(available).contains(available[i].id));
    }
    available.lemma_all_neg_filter_empty(unseen);
    assert(available.filter(unseen) =~= Seq::<ProductView>::empty());
}

/// Tracks the products that were available at the last completed poll.
pub struct AvailabilityChecker {
    last_available_ids: HashSet<i64>,
}

impl AvailabilityChecker {
    /// The snapshot: the identifiers that were available at the last check.
    pub closed spec fn last_available(&self) -> Set<i64> {
        self.last_available_ids@
    }

    /// A checker that has seen nothing yet.
    pub fn new() -> (checker: Self)
        ensures
            checker.last_available() == Set::<i64>::empty(),
    {
        AvailabilityChecker { last_available_ids: HashSet::new() }
    }

    /// Whether `product_id` was available at the last check.
    pub fn was_available(&self, product_id: i64) -> (seen: bool)
        ensures
            seen == self.last_available().contains(product_id),
    {
        self.last_available_ids.contains(&product_id)
    }

    /// Counts the products of `response` that are available now, and those
    /// among them that were not at the last check. The snapshot stays as it
    /// is.
    pub fn count_newly_available(&self, response: &ProductResponse) -> (counts: (usize, usize))
        ensures
            counts.0 == available_products(response@).len(),
            counts.1 == newly_available(self.last_available(), response@).len(),
    {
        let available = response.get_available_products();
        let ghost seen = self.last_available();
        let ghost all = available.deep_view();
        let mut newly: usize = 0;
        let mut i: usize = 0;
        proof {
            reveal(Seq::filter);
            assert(all.take(0) =~= Seq::<ProductView>::empty());
        }
        while i < available.len()
            invariant
                i <= available.len(),
                all == available.deep_view(),
                seen == self.last_available(),
                newly <= i,
                newly == all.take(i as int).filter(is_unseen(seen)).len(),
            decreases available.len() - i,
        {
            proof {
                reveal(Seq::filter);
                assert(all.take(i + 1).drop_last() =~= all.take(i as int));
                assert(all.take(i + 1).last() == available[i as int]@);
            }
            if !self.last_available_ids.contains(&available[i].id) {
                newly += 1;
            }
            i += 1;
        }
        assert(all.take(i as int) =~= all);
        (available.len(), newly)
    }

    /// Reports the products of `response` that are available now and were not
    /// at the last check, then replaces the snapshot by what is available now.
    pub fn check_newly_available(&mut self, response: &ProductResponse) -> (newly: Vec<Product>)
        ensures
            newly.deep_view() == newly_available(old(self).last_available(), response@),
            product_ids(newly.deep_view()) == available_ids(response@).difference(
                old(self).last_available(),
            ),
            final(self).last_available() == snapshot_after(old(self).last_available(), response@),
    {
        let available = response.get_available_products();
        let ghost seen = self.last_available();
        let ghost all = available.deep_view();
        let mut newly: Vec<Product> = Vec::new();
        let mut i: usize = 0;
        proof {
            reveal(Seq::filter);
            assert(all.take(0) =~= Seq::<ProductView>::empty());
        }
        while i < available.len()
            invariant
                i <= available.len(),
                all == available.deep_view(),
                seen == self.last_available(),
                newly.deep_view() == all.take(i as int).filter(is_unseen(seen)),
            decreases available.len() - i,
        {
            let product = available[i];
            proof {
                reveal(Seq::filter);
                assert(all.take(i + 1).drop_last() =~= all.take(i as int));
                assert(all.take(i + 1).last() == product@);
            }
            let ghost before = newly.deep_view();
            if !self.last_available_ids.contains(&product.id) {
                newly.push(product.clone());
                assert(newly.deep_view() =~= before.push(product@));
            }
            i += 1;
        }
        proof {
            assert(all.take(i as int) =~= all);
            lemma_unseen_ids(seen, all);
        }
        Self::update_last_available(&mut self.last_available_ids, &available);
        newly
    }

    /// Replaces the snapshot by the identifiers of `available_products`.
    fn update_last_available(
        last_available_ids: &mut HashSet<i64>,
        available_products: &Vec<&Product>,
    )
        ensures
            final(last_available_ids)@ == product_ids(available_products.deep_view()),
    {
        let ghost all = available_products.deep_view();
        last_available_ids.clear();
        let mut i: usize = 0;
        assert(last_available_ids@ =~= product_ids(all.take(0)));
        while i < available_products.len()
            invariant
                i <= available_products.len(),
                all == available_products.deep_view(),
                last_available_ids@ == product_ids(all.take(i as int)),
            decreases available_products.len() - i,
        {
            let product = available_products[i];
            let ghost before = last_available_ids@;
            last_available_ids.insert(product.id);
            proof {
                let upto = all.take(i as int);
                let next = all.take(i + 1);
                assert(next[i as int].id == product.id);
                assert forall|id: i64| before.insert(product.id).contains(id) implies product_ids(
                    next,
                ).contains(id) by {
                    if id != product.id {
                        let k = choose|k: int| 0 <= k < upto.len() && (#[trigger] upto[k]).id == id;
                        assert(next[k].id == id);
                    }
                }
                assert forall|id: i64| product_ids(next).contains(id) implies before.insert(
                    product.id,
                ).contains(id) by {
                    let k = choose|k: int| 0 <= k < next.len() && (#[trigger] next[k]).id == id;
                    if k < i {
                        assert(upto[k].id == id);
                    }
                }
                assert(last_available_ids@ =~= product_ids(next));
            }
            i += 1;
        }
        assert(all.take(i as int) =~= all);
    }
}

} // verus!
