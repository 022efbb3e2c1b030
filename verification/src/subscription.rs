//! The operator's subscription: the list of product identifiers to alert on,
//! as it is written in the configuration, and the choice of the products of a
//! poll that it covers.

use crate::shopify::{Product, ProductView};
use std::collections::{HashMap, HashSet};
use vstd::prelude::*;

verus! {

broadcast use vstd::std_specs::hash::group_hash_axioms;

/// White space in the sense of Unicode: what is trimmed from both ends of an
/// entry of the list.
pub open spec fn is_whitespace(c: char) -> bool {
    let code = c as u32;
    ||| 0x09 <= code <= 0x0d
    ||| code == 0x20
    ||| code == 0x85
    ||| code == 0xa0
    ||| code == 0x1680
    ||| 0x2000 <= code <= 0x200a
    ||| code == 0x2028
    ||| code == 0x2029
    ||| code == 0x202f
    ||| code == 0x205f
    ||| code == 0x3000
}

/// `text` without the white space at its start.
pub open spec fn trim_start(text: Seq<char>) -> Seq<char>
    decreases text.len(),
{
    if text.len() > 0 && is_whitespace(text[0]) {
        trim_start(text.skip(1))
    } else {
        text
    }
}

/// `text` without the white space at its end.
pub open spec fn trim_end(text: Seq<char>) -> Seq<char>
    decreases text.len(),
{
    if text.len() > 0 && is_whitespace(text.last()) {
        trim_end(text.drop_last())
    } else {
        text
    }
}

/// `text` without the white space at both ends.
pub open spec fn trim(text: Seq<char>) -> Seq<char> {
    trim_end(trim_start(text))
}

/// Whether `c` is one of the ten decimal digits.
pub open spec fn is_digit(c: char) -> bool {
    '0' <= c <= '9'
}

/// Whether `text` consists of decimal digits only.
pub open spec fn all_digits(text: Seq<char>) -> bool {
    forall|i: int| 0 <= i < text.len() ==> is_digit(#[trigger] text[i])
}

/// The number that the decimal digits `digits` write.
pub open spec fn decimal_value(digits: Seq<char>) -> int
    decreases digits.len(),
{
    if digits.len() == 0 {
        0
    } else {
        decimal_value(digits.drop_last()) * 10 + (digits.last() as u32 - '0' as u32)
    }
}

/// The integer that `text` writes: an optional sign, `+` or `-`, then at
/// least one decimal digit and nothing else.
pub open spec fn signed_decimal(text: Seq<char>) -> Option<int> {
    if text.len() > 0 && (text[0] == '-' || text[0] == '+') {
        let digits = text.skip(1);
        if digits.len() > 0 && all_digits(digits) {
            Some(
                if text[0] == '-' {
                    -decimal_value(digits)
                } else {
                    decimal_value(digits)
                },
            )
        } else {
            None
        }
    } else if text.len() > 0 && all_digits(text) {
        Some(decimal_value(text))
    } else {
        None
    }
}

/// The product identifier that one entry of the list writes: the integer
/// between the white space at its ends, where it fits in 64 bits.
pub open spec fn entry_id(entry: Seq<char>) -> Option<i64> {
    match signed_decimal(trim(entry)) {
        Some(value) => if i64::MIN <= value <= i64::MAX {
            Some(value as i64)
        } else {
            None
        },
        None => None,
    }
}

/// The entries of a list: the stretches of `list` between its commas. A list
/// with n commas has n + 1 entries, empty ones included.
pub open spec fn entries(list: Seq<char>) -> Seq<Seq<char>>
    decreases list.len(),
{
    if list.len() == 0 {
        seq![Seq::empty()]
    } else {
        let before = entries(list.drop_last());
        if list.last() == ',' {
            before.push(Seq::empty())
        } else {
            before.drop_last().push(before.last().push(list.last()))
        }
    }
}

/// The position of the first of `entries` that writes no identifier.
pub open spec fn first_invalid(entries: Seq<Seq<char>>) -> Option<int>
    decreases entries.len(),
{
    if entries.len() == 0 {
        None
    } else {
        match first_invalid(entries.drop_last()) {
            Some(position) => Some(position),
            None => if entry_id(entries.last()) is None {
                Some(entries.len() - 1)
            } else {
                None
            },
        }
    }
}

/// The identifiers that `entries` write, in their order.
pub open spec fn entry_ids(entries: Seq<Seq<char>>) -> Seq<i64> {
    Seq::new(entries.len(), |k: int| entry_id(entries[k])->0)
}

/// An entry of the list writes no product identifier.
#[derive(Debug, Clone, Copy, PartialEq, Eq, Structural)]
pub struct InvalidEntry {
    /// The position of the entry in the list, counted from zero.
    pub position: usize,
}

/// What a list of product identifiers means: the identifiers of its entries,
/// or the position of the first entry that writes none.
pub open spec fn product_id_list(list: Seq<char>) -> Result<Seq<i64>, int> {
    match first_invalid(entries(list)) {
        Some(position) => Err(position),
        None => Ok(entry_ids(entries(list))),
    }
}

/// Whether `c` is white space.
fn char_is_whitespace(c: char) -> (white: bool)
    ensures
        white == is_whitespace(c),
{
    let code = c as u32;
    (0x09 <= code && code <= 0x0d) || code == 0x20 || code == 0x85 || code == 0xa0 || code
        == 0x1680 || (0x2000 <= code && code <= 0x200a) || code == 0x2028 || code == 0x2029 || code
        == 0x202f || code == 0x205f || code == 0x3000
}

/// Appending digits to digits never makes the number they write smaller.
proof fn lemma_decimal_value_grows(digits: Seq<char>, k: int)
    requires
        all_digits(digits),
        0 <= k <= digits.len(),
    ensures
        0 <= decimal_value(digits.take(k)) <= decimal_value(digits),
    decreases digits.len() - k,
{
    if k == digits.len() {
        assert(digits.take(k) =~= digits);
        lemma_decimal_value_nonnegative(digits);
    } else {
        lemma_decimal_value_grows(digits, k + 1);
        assert(digits.take(k + 1).drop_last() =~= digits.take(k));
        assert(is_digit(digits[k]));
        assert(digits.take(k + 1).last() == digits[k]);
        lemma_decimal_value_nonnegative(digits.take(k));
    }
}

/// Digits write no negative number.
proof fn lemma_decimal_value_nonnegative(digits: Seq<char>)
    requires
        all_digits(digits),
    ensures
        0 <= decimal_value(digits),
    decreases digits.len(),
{
    if digits.len() > 0 {
        assert(is_digit(digits.last()));
        lemma_decimal_value_nonnegative(digits.drop_last());
    }
}

/// The identifier that the characters of one entry write.
pub fn parse_entry(entry: &Vec<char>) -> (id: Option<i64>)
    ensures
        id == entry_id(entry@),
{
    let n = entry.len();
    let mut lo: usize = 0;
    assert(entry@.skip(0) =~= entry@);
    while lo < n && char_is_whitespace(entry[lo])
        invariant
            lo <= n,
            n == entry.len(),
            trim_start(entry@) == trim_start(entry@.skip(lo as int)),
        decreases n - lo,
    {
        assert(entry@.skip(lo as int).skip(1) =~= entry@.skip(lo + 1));
        lo += 1;
    }
    let ghost started = entry@.skip(lo as int);
    assert(trim_start(entry@) == started);
    let mut hi: usize = n;
    assert(entry@.subrange(lo as int, hi as int) =~= started);
    while hi > lo && char_is_whitespace(entry[hi - 1])
        invariant
            lo <= hi <= n,
            n == entry.len(),
            trim_end(started) == trim_end(entry@.subrange(lo as int, hi as int)),
        decreases hi,
    {
        assert(entry@.subrange(lo as int, hi as int).drop_last() =~= entry@.subrange(
            lo as int,
            hi - 1,
        ));
        hi -= 1;
    }
    let ghost text = entry@.subrange(lo as int, hi as int);
    assert(trim(entry@) == text);
    if lo == hi {
        return None;
    }
    let negative = entry[lo] == '-';
    let signed = negative || entry[lo] == '+';
    let first: usize = if signed {
        lo + 1
    } else {
        lo
    };
    let ghost digits = entry@.subrange(first as int, hi as int);
    assert(signed ==> digits =~= text.skip(1));
    assert(!signed ==> digits =~= text);
    assert(text[0] == entry[lo as int]);
    if first == hi {
        return None;
    }
    let limit: i128 = 0x8000_0000_0000_0000;
    let mut value: i128 = 0;
    let mut i: usize = first;
    assert(digits.take(0) =~= Seq::<char>::empty());
    assert(!all_digits(digits) ==> entry_id(entry@) is None);
    assert(all_digits(digits) && decimal_value(digits) > limit ==> entry_id(entry@) is None) by {
        if all_digits(digits) {
            lemma_decimal_value_nonnegative(digits);
        }
    }
    while i < hi
        invariant
            first <= i <= hi <= n,
            !all_digits(digits) ==> entry_id(entry@) is None,
            all_digits(digits) && decimal_value(digits) > limit ==> entry_id(entry@) is None,
            n == entry.len(),
            digits == entry@.subrange(first as int, hi as int),
            all_digits(digits.take(i - first)),
            value == decimal_value(digits.take(i - first)),
            0 <= value <= limit,
            limit == 0x8000_0000_0000_0000,
        decreases hi - i,
    {
        let c = entry[i];
        assert(c == digits[i - first]);
        if !('0' <= c && c <= '9') {
            assert(!is_digit(digits[i - first]));
            return None;
        }
        let digit: i128 = (c as u32 - '0' as u32) as i128;
        proof {
            assert(digits.take(i - first + 1).drop_last() =~= digits.take(i - first));
            assert(digits.take(i - first + 1).last() == c);
            assert forall|k: int| 0 <= k < digits.take(i - first + 1).len() implies is_digit(
                #[trigger] digits.take(i - first + 1)[k],
            ) by {
                if k < i - first {
                    assert(is_digit(digits.take(i - first)[k]));
                }
            }
        }
        value = value * 10 + digit;
        if value > limit {
            proof {
                if all_digits(digits) {
                    lemma_decimal_value_grows(digits, i - first + 1);
                }
            }
            return None;
        }
        i += 1;
    }
    assert(digits.take(i - first) =~= digits);
    if negative {
        Some((-value) as i64)
    } else if value == limit {
        None
    } else {
        Some(value as i64)
    }
}

/// A list has at least one entry.
proof fn lemma_entries_nonempty(list: Seq<char>)
    ensures
        entries(list).len() >= 1,
    decreases list.len(),
{
    if list.len() > 0 {
        lemma_entries_nonempty(list.drop_last());
    }
}

/// Takes the entry that has just ended into account: its identifier joins
/// `ids`, unless it or an earlier entry writes none.
fn close_entry(
    ids: &mut Vec<i64>,
    invalid: &mut Option<usize>,
    entry: &Vec<char>,
    Ghost(before): Ghost<Seq<Seq<char>>>,
)
    requires
        match *old(invalid) {
            Some(position) => first_invalid(before) == Some(position as int),
            None => first_invalid(before) is None && old(ids)@ == entry_ids(before),
        },
    ensures
        match *final(invalid) {
            Some(position) => first_invalid(before.push(entry@)) == Some(position as int),
            None => first_invalid(before.push(entry@)) is None && final(ids)@ == entry_ids(
                before.push(entry@),
            ),
        },
{
    let ghost after = before.push(entry@);
    assert(after.drop_last() =~= before);
    if invalid.is_none() {
        match parse_entry(entry) {
            Some(id) => {
                ids.push(id);
                assert(ids@ =~= entry_ids(after));
            },
            None => {
                assert(ids@.len() == before.len());
                *invalid = Some(ids.len());
            },
        }
    }
}

/// Reads the list of subscribed product identifiers as the configuration
/// writes it: entries separated by commas, each an integer that white space
/// may surround.
pub fn parse_product_ids(list: &str) -> (parsed: Result<Vec<i64>, InvalidEntry>)
    ensures
        match parsed {
            Ok(ids) => product_id_list(list@) == Ok::<Seq<i64>, int>(ids@),
            Err(error) => product_id_list(list@) == Err::<Seq<i64>, int>(error.position as int),
        },
{
    let mut ids: Vec<i64> = Vec::new();
    let mut invalid: Option<usize> = None;
    let mut current: Vec<char> = Vec::new();
    proof {
        assert(list@.take(0) =~= Seq::<char>::empty());
        assert(entries(list@.take(0)).drop_last() =~= Seq::<Seq<char>>::empty());
        assert(ids@ =~= entry_ids(Seq::<Seq<char>>::empty()));
    }
    for c in it: list.chars()
        invariant
            it.seq() == list@,
            entries(list@.take(it.index() as int)).len() >= 1,
            entries(list@.take(it.index() as int)).last() == current@,
            match invalid {
                Some(position) => first_invalid(
                    entries(list@.take(it.index() as int)).drop_last(),
                ) == Some(position as int),
                None => first_invalid(entries(list@.take(it.index() as int)).drop_last()) is None
                    && ids@ == entry_ids(entries(list@.take(it.index() as int)).drop_last()),
            },
    {
        let ghost seen = list@.take(it.index() as int);
        let ghost next = list@.take(it.index() + 1);
        proof {
            assert(next.drop_last() =~= seen);
            assert(next.last() == c);
            lemma_entries_nonempty(next);
        }
        if c == ',' {
            close_entry(&mut ids, &mut invalid, &current, Ghost(entries(seen).drop_last()));
            proof {
                assert(entries(seen).drop_last().push(current@) =~= entries(seen));
                assert(entries(next).drop_last() =~= entries(seen));
            }
            current = Vec::new();
        } else {
            current.push(c);
            proof {
                assert(entries(next).drop_last() =~= entries(seen).drop_last());
            }
        }
    }
    let ghost all = entries(list@);
    proof {
        assert(list@.take(list@.len() as int) =~= list@);
        assert(all.drop_last().push(current@) =~= all);
    }
    close_entry(&mut ids, &mut invalid, &current, Ghost(all.drop_last()));
    match invalid {
        Some(position) => Err(InvalidEntry { position }),
        None => Ok(ids),
    }
}

/// The position of the last of `products` that carries `id`.
pub open spec fn last_position(products: Seq<ProductView>, id: i64) -> Option<int>
    decreases products.len(),
{
    if products.len() == 0 {
        None
    } else if products.last().id == id {
        Some(products.len() - 1)
    } else {
        last_position(products.drop_last(), id)
    }
}

/// The last of `products` that carries `id`: where several products carry
/// one identifier, the last one stands for it.
pub open spec fn last_with_id(products: Seq<ProductView>, id: i64) -> Option<ProductView> {
    match last_position(products, id) {
        Some(position) => Some(products[position]),
        None => None,
    }
}

/// The function that finds, for an identifier, the product to alert on.
pub open spec fn product_for(products: Seq<ProductView>) -> spec_fn(i64) -> Option<ProductView> {
    |id: i64| last_with_id(products, id)
}

/// The identifiers of a subscription, each once, at the place where it
/// first stands: a subscription is a set, written down in the operator's
/// order.
pub open spec fn first_places(ids: Seq<i64>) -> Seq<i64>
    decreases ids.len(),
{
    if ids.len() == 0 {
        Seq::empty()
    } else if ids.drop_last().contains(ids.last()) {
        first_places(ids.drop_last())
    } else {
        first_places(ids.drop_last()).push(ids.last())
    }
}

/// The products to alert on: for each subscribed identifier, once, in the
/// order of the subscription, the product that carries it, if there is one.
/// Products that nobody subscribed to are left out.
pub open spec fn subscribed_products(
    subscribed: Seq<i64>,
    products: Seq<ProductView>,
) -> Seq<ProductView> {
    first_places(subscribed).filter_map(product_for(products))
}

/// The first places of a list hold exactly the identifiers of the list, and
/// none of them twice.
pub proof fn lemma_first_places(ids: Seq<i64>)
    ensures
        forall|id: i64| first_places(ids).contains(id) <==> ids.contains(id),
        first_places(ids).no_duplicates(),
        first_places(ids).len() <= ids.len(),
    decreases ids.len(),
{
    if ids.len() > 0 {
        let rest = ids.drop_last();
        let last = ids.last();
        lemma_first_places(rest);
        let before = first_places(rest);
        let places = first_places(ids);
        assert forall|id: i64| places.contains(id) implies ids.contains(id) by {
            let j = choose|j: int| 0 <= j < places.len() && places[j] == id;
            if j < before.len() {
                assert(before[j] == id);
                assert(before.contains(id));
                assert(rest.contains(id));
                let k = choose|k: int| 0 <= k < rest.len() && rest[k] == id;
                assert(ids[k] == id);
            } else {
                assert(ids[ids.len() - 1] == id);
            }
        }
        assert forall|id: i64| ids.contains(id) implies places.contains(id) by {
            let k = choose|k: int| 0 <= k < ids.len() && ids[k] == id;
            if k < rest.len() {
                assert(rest[k] == id);
            }
            if rest.contains(id) {
                assert(before.contains(id));
                let j = choose|j: int| 0 <= j < before.len() && before[j] == id;
                assert(places[j] == id);
            } else {
                assert(id == last);
                assert(places[before.len() as int] == last);
            }
        }
        if !rest.contains(last) {
            assert forall|i: int, j: int|
                0 <= i < before.len() + 1 && 0 <= j < before.len() + 1 && i != j implies before.push(
                last,
            )[i] != before.push(last)[j] by {
                if i == before.len() {
                    assert(before.contains(before[j]));
                } else if j == before.len() {
                    assert(before.contains(before[i]));
                }
            }
        }
    }
}

/// The last position of an identifier is a position that carries it, and no
/// later one does.
pub proof fn lemma_last_position(products: Seq<ProductView>, id: i64)
    ensures
        match last_position(products, id) {
            Some(position) => {
                &&& 0 <= position < products.len()
                &&& products[position].id == id
                &&& forall|k: int| position < k < products.len() ==> (#[trigger] products[k]).id != id
            },
            None => forall|k: int| 0 <= k < products.len() ==> (#[trigger] products[k]).id != id,
        },
    decreases products.len(),
{
    if products.len() > 0 && products.last().id != id {
        lemma_last_position(products.drop_last(), id);
        assert forall|k: int| 0 <= k < products.len() - 1 implies products.drop_last()[k]
            == products[k] by {}
        match last_position(products.drop_last(), id) {
            Some(position) => {
                assert forall|k: int| position < k < products.len() implies (
                #[trigger] products[k]).id != id by {
                    if k < products.len() - 1 {
                        assert(products.drop_last()[k].id != id);
                    }
                }
            },
            None => {
                assert forall|k: int| 0 <= k < products.len() implies (#[trigger] products[k]).id
                    != id by {
                    if k < products.len() - 1 {
                        assert(products.drop_last()[k].id != id);
                    }
                }
            },
        }
    }
}

/// Every product chosen from a list of identifiers carries one of them and
/// is one of the products at hand.
proof fn lemma_chosen_carry_listed(ids: Seq<i64>, products: Seq<ProductView>, i: int)
    requires
        0 <= i < ids.filter_map(product_for(products)).len(),
    ensures
        ids.contains(ids.filter_map(product_for(products))[i].id),
        products.contains(ids.filter_map(product_for(products))[i]),
{
    let chosen = ids.filter_map(product_for(products));
    assert(chosen.contains(chosen[i]));
    ids.lemma_filter_map_contains(product_for(products), chosen[i]);
    let id = choose|id: i64| #[trigger]
        ids.contains(id) && product_for(products)(id) == Some(chosen[i]);
    lemma_last_position(products, id);
}

/// Every listed identifier that one of the products at hand carries has a
/// product chosen for it.
proof fn lemma_listed_are_chosen(ids: Seq<i64>, products: Seq<ProductView>, id: i64)
    requires
        ids.contains(id),
        exists|j: int| 0 <= j < products.len() && (#[trigger] products[j]).id == id,
    ensures
        exists|i: int|
            0 <= i < ids.filter_map(product_for(products)).len() && (#[trigger] ids.filter_map(
                product_for(products),
            )[i]).id == id,
    decreases ids.len(),
{
    let choose_for = product_for(products);
    let chosen = ids.filter_map(choose_for);
    lemma_last_position(products, id);
    lemma_last_position(products, ids.last());
    let rest = ids.drop_last();
    if ids.last() == id {
        assert(choose_for(id) is Some);
        assert(chosen[chosen.len() - 1].id == id);
    } else {
        let k = choose|k: int| 0 <= k < ids.len() && ids[k] == id;
        assert(rest[k] == id);
        lemma_listed_are_chosen(rest, products, id);
        let i = choose|i: int|
            0 <= i < rest.filter_map(choose_for).len() && (#[trigger] rest.filter_map(
                choose_for,
            )[i]).id == id;
        assert(chosen[i].id == id);
    }
}

/// From identifiers that are all different, products with identifiers that
/// are all different are chosen, and no more of them than identifiers.
proof fn lemma_chosen_are_different(ids: Seq<i64>, products: Seq<ProductView>)
    requires
        ids.no_duplicates(),
    ensures
        ids.filter_map(product_for(products)).len() <= ids.len(),
        forall|i: int, j: int|
            0 <= i < j < ids.filter_map(product_for(products)).len() ==> (#[trigger] ids.filter_map(
                product_for(products),
            )[i]).id != (#[trigger] ids.filter_map(product_for(products))[j]).id,
    decreases ids.len(),
{
    if ids.len() > 0 {
        let choose_for = product_for(products);
        let rest = ids.drop_last();
        let before = rest.filter_map(choose_for);
        let chosen = ids.filter_map(choose_for);
        lemma_chosen_are_different(rest, products);
        lemma_last_position(products, ids.last());
        assert forall|i: int, j: int| 0 <= i < j < chosen.len() implies (#[trigger] chosen[i]).id
            != (#[trigger] chosen[j]).id by {
            if j < before.len() {
                assert(before[i].id != before[j].id);
            } else {
                lemma_chosen_carry_listed(rest, products, i);
                let k = choose|k: int| 0 <= k < rest.len() && rest[k] == before[i].id;
                assert(ids[k] == before[i].id);
                assert(chosen[j].id == ids[ids.len() - 1]);
            }
        }
    }
}

/// Every product chosen for an alert carries a subscribed identifier and is
/// one of the products at hand: what nobody subscribed to is never chosen.
pub proof fn law_selected_are_subscribed(
    subscribed: Seq<i64>,
    products: Seq<ProductView>,
    i: int,
)
    requires
        0 <= i < subscribed_products(subscribed, products).len(),
    ensures
        subscribed.contains(subscribed_products(subscribed, products)[i].id),
        products.contains(subscribed_products(subscribed, products)[i]),
{
    lemma_first_places(subscribed);
    lemma_chosen_carry_listed(first_places(subscribed), products, i);
}

/// Every subscribed identifier that one of the products at hand carries has
/// a product chosen for it.
pub proof fn law_subscribed_are_selected(subscribed: Seq<i64>, products: Seq<ProductView>, id: i64)
    requires
        subscribed.contains(id),
        exists|j: int| 0 <= j < products.len() && (#[trigger] products[j]).id == id,
    ensures
        exists|i: int|
            0 <= i < subscribed_products(subscribed, products).len() && (
            #[trigger] subscribed_products(subscribed, products)[i]).id == id,
{
    lemma_first_places(subscribed);
    assert(first_places(subscribed).contains(id));
    lemma_listed_are_chosen(first_places(subscribed), products, id);
    let chosen = first_places(subscribed).filter_map(product_for(products));
    let i = choose|i: int| 0 <= i < chosen.len() && (#[trigger] chosen[i]).id == id;
    assert(subscribed_products(subscribed, products)[i].id == id);
}

/// No identifier is alerted on twice in one batch, however often the
/// subscription names it and however many products carry it; so a batch has
/// no more alerts than the subscription has entries.
pub proof fn law_each_alerted_once(subscribed: Seq<i64>, products: Seq<ProductView>)
    ensures
        subscribed_products(subscribed, products).len() <= subscribed.len(),
        forall|i: int, j: int|
            0 <= i < j < subscribed_products(subscribed, products).len() ==> (
            #[trigger] subscribed_products(subscribed, products)[i]).id != (
            #[trigger] subscribed_products(subscribed, products)[j]).id,
{
    lemma_first_places(subscribed);
    lemma_chosen_are_different(first_places(subscribed), products);
}

/// Chooses, of the products that a poll reported, the ones to alert on.
pub fn select_subscribed(subscribed: &Vec<i64>, products: &Vec<Product>) -> (selected: Vec<
    Product,
>)
    ensures
        selected.deep_view() == subscribed_products(subscribed@, products.deep_view()),
{
    let ghost all = products.deep_view();
    let mut positions: HashMap<i64, usize> = HashMap::new();
    let mut i: usize = 0;
    assert(all.take(0) =~= Seq::<ProductView>::empty());
    while i < products.len()
        invariant
            i <= products.len(),
            all == products.deep_view(),
            forall|id: i64|
                positions@.contains_key(id) <==> (#[trigger] last_position(
                    all.take(i as int),
                    id,
                )) is Some,
            forall|id: i64|
                positions@.contains_key(id) ==> #[trigger] last_position(all.take(i as int), id)
                    == Some(positions@[id] as int),
        decreases products.len() - i,
    {
        proof {
            assert(all.take(i + 1).drop_last() =~= all.take(i as int));
            assert(all.take(i + 1).last().id == products[i as int].id);
        }
        let ghost before = positions@;
        positions.insert(products[i].id, i);
        proof {
            let upto = all.take(i as int);
            let next = all.take(i + 1);
            assert forall|id: i64|
                positions@.contains_key(id) <==> (#[trigger] last_position(next, id)) is Some by {
                assert(before.contains_key(id) <==> last_position(upto, id) is Some);
            }
            assert forall|id: i64| positions@.contains_key(id) implies #[trigger] last_position(
                next,
                id,
            ) == Some(positions@[id] as int) by {
                if id != products[i as int].id {
                    assert(last_position(upto, id) == Some(before[id] as int));
                }
            }
        }
        i += 1;
    }
    assert(all.take(i as int) =~= all);
    let mut selected: Vec<Product> = Vec::new();
    let mut named: HashSet<i64> = HashSet::new();
    let mut k: usize = 0;
    assert(subscribed@.take(0) =~= Seq::<i64>::empty());
    while k < subscribed.len()
        invariant
            k <= subscribed.len(),
            all == products.deep_view(),
            forall|id: i64|
                positions@.contains_key(id) <==> (#[trigger] last_position(all, id)) is Some,
            forall|id: i64|
                positions@.contains_key(id) ==> #[trigger] last_position(all, id) == Some(
                    positions@[id] as int,
                ),
            forall|id: i64| named@.contains(id) <==> subscribed@.take(k as int).contains(id),
            selected.deep_view() == subscribed_products(subscribed@.take(k as int), all),
        decreases subscribed.len() - k,
    {
        let id = subscribed[k];
        let ghost upto = subscribed@.take(k as int);
        let ghost next = subscribed@.take(k + 1);
        proof {
            assert(next.drop_last() =~= upto);
            assert(next.last() == id);
            lemma_last_position(all, id);
        }
        let ghost before = selected.deep_view();
        if !named.contains(&id) {
            proof {
                assert(first_places(next).drop_last() =~= first_places(upto));
                assert(first_places(next).last() == id);
            }
            match positions.get(&id) {
                Some(position) => {
                    assert(last_position(all, id) == Some(*position as int));
                    selected.push(products[*position].clone());
                    assert(selected.deep_view() =~= before + seq![all[*position as int]]);
                },
                None => {
                    assert(last_position(all, id) is None);
                },
            }
            named.insert(id);
        }
        proof {
            assert forall|other: i64| named@.contains(other) <==> next.contains(other) by {
                if next.contains(other) {
                    let j = choose|j: int| 0 <= j < next.len() && next[j] == other;
                    if j < k {
                        assert(upto[j] == other);
                    }
                }
                if upto.contains(other) {
                    let j = choose|j: int| 0 <= j < upto.len() && upto[j] == other;
                    assert(next[j] == other);
                }
                assert(next[k as int] == id);
            }
        }
        k += 1;
    }
    assert(subscribed@.take(k as int) =~= subscribed@);
    selected
}

} // verus!
