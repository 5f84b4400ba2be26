//! A model of the restaurant collection and what the service's steps do to it.
//!
//! A store is the sequence of records in insertion order. A single-record
//! lookup by name finds the first record with that name; an insert appends.
//! Under that model the statements below follow from the contracts of the
//! step functions.
use crate::envelope::{done_reply, failure_reply, success_reply, ReplyView, Status};
use crate::handlers::{
    create_insert_reply, create_lookup_reply, fetch_reply, first_error, hits, list_reply,
    name_filter, name_hit, scanned, search_reply,
};
use crate::model::{empty_histogram, histogram_after, new_record, rating_error, valid_rating, RestaurantView};
use crate::text::{field_text, filter_text, is_infix, lower_of};
use vstd::prelude::*;

verus! {

/// What a lookup by `name` finds in `store`: the first record with that name.
pub open spec fn find_by_name(store: Seq<RestaurantView>, name: Seq<char>) -> Option<RestaurantView>
    decreases store.len(),
{
    if store.len() == 0 {
        None
    } else {
        match find_by_name(store.drop_last(), name) {
            Some(r) => Some(r),
            None => if store.last().name == name {
                Some(store.last())
            } else {
                None
            },
        }
    }
}

/// How many records of `store` carry `name`.
pub open spec fn count_named(store: Seq<RestaurantView>, name: Seq<char>) -> nat
    decreases store.len(),
{
    if store.len() == 0 {
        0
    } else {
        count_named(store.drop_last(), name) + if store.last().name == name {
            1nat
        } else {
            0nat
        }
    }
}

/// The store after one creation of `rest` whose calls all succeed: the
/// lookup's outcome decides whether the new record is appended.
pub open spec fn store_after_create(store: Seq<RestaurantView>, rest: (Seq<char>, Seq<char>)) -> Seq<
    RestaurantView,
> {
    match create_lookup_reply(Ok(find_by_name(store, rest.0))) {
        None => store.push(new_record(rest)),
        Some(_) => store,
    }
}

/// The store after creating each of `rests` in turn.
pub open spec fn create_all(store: Seq<RestaurantView>, rests: Seq<(Seq<char>, Seq<char>)>) -> Seq<
    RestaurantView,
>
    decreases rests.len(),
{
    if rests.len() == 0 {
        store
    } else {
        store_after_create(create_all(store, rests.drop_last()), rests.last())
    }
}

/// What a scan of the whole of `store` yields when no record fails to decode.
pub open spec fn scan_of(store: Seq<RestaurantView>) -> Seq<Result<RestaurantView, Seq<char>>> {
    store.map_values(|r: RestaurantView| Ok(r))
}

/// Names of distinct restaurants.
pub open spec fn distinct_names(rests: Seq<(Seq<char>, Seq<char>)>) -> bool {
    forall|i: int, j: int| 0 <= i < j < rests.len() ==> rests[i].0 != rests[j].0
}

proof fn lemma_find_none(store: Seq<RestaurantView>, name: Seq<char>)
    ensures
        (find_by_name(store, name) is None) == (forall|i: int|
            0 <= i < store.len() ==> (#[trigger] store[i]).name != name),
    decreases store.len(),
{
    if store.len() > 0 {
        lemma_find_none(store.drop_last(), name);
        assert forall|i: int| 0 <= i < store.len() - 1 implies store.drop_last()[i] == store[i] by {}
        if find_by_name(store.drop_last(), name) is Some {
            let i = choose|i: int|
                0 <= i < store.drop_last().len() && (#[trigger] store.drop_last()[i]).name == name;
            assert(store[i].name == name);
        }
    }
}

proof fn lemma_count_none(store: Seq<RestaurantView>, name: Seq<char>)
    requires
        find_by_name(store, name) is None,
    ensures
        count_named(store, name) == 0,
    decreases store.len(),
{
    if store.len() > 0 {
        lemma_count_none(store.drop_last(), name);
    }
}

/// A record created under a name that the store did not hold is what a
/// later lookup by that name returns, with exactly the submitted fields.
pub proof fn law_create_then_fetch(store: Seq<RestaurantView>, rest: (Seq<char>, Seq<char>))
    requires
        find_by_name(store, rest.0) is None,
    ensures
        create_lookup_reply(Ok(find_by_name(store, rest.0))) is None,
        create_insert_reply(Ok(())) == done_reply(Status::Created),
        fetch_reply(name_filter(rest.0), Ok(find_by_name(store_after_create(store, rest), rest.0)))
            == success_reply(Status::Success, seq![new_record(rest)]),
        new_record(rest).name == rest.0,
        new_record(rest).description == rest.1,
{
    assert(store.push(new_record(rest)).drop_last() =~= store);
}

/// Creating twice under one name: the first creation inserts, the second
/// is answered with a conflict and leaves the store as the first left it.
pub proof fn law_create_twice(
    store: Seq<RestaurantView>,
    rest: (Seq<char>, Seq<char>),
    again: (Seq<char>, Seq<char>),
)
    requires
        find_by_name(store, rest.0) is None,
        again.0 == rest.0,
    ensures
        create_lookup_reply(Ok(find_by_name(store, rest.0))) is None,
        store_after_create(store, rest) == store.push(new_record(rest)),
        create_lookup_reply(Ok(find_by_name(store_after_create(store, rest), again.0))) == Some(
            failure_reply(Status::Conflict, "Restaurant already exists"@, None),
        ),
        store_after_create(store_after_create(store, rest), again) == store_after_create(
            store,
            rest,
        ),
        find_by_name(store_after_create(store, rest), rest.0) == Some(new_record(rest)),
{
    assert(store.push(new_record(rest)).drop_last() =~= store);
}

/// A new restaurant's histogram is five zero counters; one review with a
/// valid rating is counted in its own bucket alone.
pub proof fn law_first_review(rest: (Seq<char>, Seq<char>), rating: u32)
    requires
        valid_rating(rating),
    ensures
        new_record(rest).num_star == seq![0i32, 0i32, 0i32, 0i32, 0i32],
        rating_error(new_record(rest).num_star, rating) is None,
        histogram_after(new_record(rest).num_star, rating).len() == 5,
        histogram_after(new_record(rest).num_star, rating)[rating - 1] == 1,
        forall|j: int|
            0 <= j < 5 && j != rating - 1 ==> #[trigger] histogram_after(
                new_record(rest).num_star,
                rating,
            )[j] == 0,
{
}

proof fn lemma_filter_text_append(a: Seq<(Seq<char>, Seq<char>)>, b: Seq<(Seq<char>, Seq<char>)>)
    ensures
        filter_text(a + b) == filter_text(a) + filter_text(b),
    decreases b.len(),
{
    if b.len() == 0 {
        assert(a + b =~= a);
        assert(filter_text(a) + filter_text(b) =~= filter_text(a));
    } else {
        lemma_filter_text_append(a, b.drop_last());
        assert((a + b).drop_last() =~= a + b.drop_last());
        assert(filter_text(a) + filter_text(b) =~= filter_text(a) + filter_text(b.drop_last())
            + field_text(b.last()));
    }
}

/// The message of a lookup that found nothing names every field of its
/// filter and the value it was looked up by.
pub proof fn law_not_found_names_filter(filter: Seq<(Seq<char>, Seq<char>)>, i: int)
    requires
        0 <= i < filter.len(),
    ensures
        fetch_reply(filter, Ok(None)).status == Status::NotFound,
        fetch_reply(filter, Ok(None)).error_message is Some,
        is_infix(filter[i].0, fetch_reply(filter, Ok(None)).error_message->0),
        is_infix(filter[i].1, fetch_reply(filter, Ok(None)).error_message->0),
{
    let head = filter.subrange(0, i);
    let tail = filter.subrange(i + 1, filter.len() as int);
    let f = filter[i];
    assert(filter =~= head + seq![f] + tail);
    lemma_filter_text_append(head + seq![f], tail);
    lemma_filter_text_append(head, seq![f]);
    assert(seq![f].drop_last() =~= Seq::<(Seq<char>, Seq<char>)>::empty());
    assert(seq![f].last() == f);
    assert(filter_text(Seq::<(Seq<char>, Seq<char>)>::empty()) =~= Seq::<char>::empty());
    assert(filter_text(seq![f]) == filter_text(seq![f].drop_last()) + field_text(f));
    assert(filter_text(seq![f]) =~= field_text(f));
    assert(filter_text(filter) == filter_text(head) + field_text(f) + filter_text(tail));
    let pre = "No restaurant exists for given filter: "@ + filter_text(head);
    let msg = fetch_reply(filter, Ok(None)).error_message->0;
    assert(msg =~= pre + (f.0 + "=="@ + f.1 + ", "@) + filter_text(tail));
    reveal_strlit("==");
    let k = pre.len() as int;
    assert(msg.subrange(k, k + f.0.len()) =~= f.0);
    let v = k + f.0.len() + 2;
    assert(msg.subrange(v, v + f.1.len()) =~= f.1);
}

proof fn lemma_scan_of(store: Seq<RestaurantView>)
    ensures
        first_error(scan_of(store)) is None,
        scanned(scan_of(store)) == store,
    decreases store.len(),
{
    if store.len() > 0 {
        assert(scan_of(store).drop_last() =~= scan_of(store.drop_last()));
        lemma_scan_of(store.drop_last());
        assert(store.drop_last().push(store.last()) =~= store);
    }
}

/// Listing the store returns every record it holds, in insertion order.
pub proof fn law_list_all(store: Seq<RestaurantView>)
    ensures
        list_reply(Ok(scan_of(store))) == success_reply(Status::Success, store),
{
    lemma_scan_of(store);
}

/// Creating `n` restaurants with distinct names in an empty store stores
/// `n` records, and listing then returns exactly those `n`.
pub proof fn law_create_distinct_then_list(rests: Seq<(Seq<char>, Seq<char>)>)
    requires
        distinct_names(rests),
    ensures
        create_all(Seq::empty(), rests) == rests.map_values(|r: (Seq<char>, Seq<char>)| new_record(r)),
        create_all(Seq::empty(), rests).len() == rests.len(),
        list_reply(Ok(scan_of(create_all(Seq::empty(), rests)))) == success_reply(
            Status::Success,
            create_all(Seq::empty(), rests),
        ),
    decreases rests.len(),
{
    let made = rests.map_values(|r: (Seq<char>, Seq<char>)| new_record(r));
    if rests.len() > 0 {
        let prev = rests.drop_last();
        assert(distinct_names(prev));
        law_create_distinct_then_list(prev);
        let before = prev.map_values(|r: (Seq<char>, Seq<char>)| new_record(r));
        lemma_find_none(before, rests.last().0);
        assert forall|i: int| 0 <= i < before.len() implies (#[trigger] before[i]).name
            != rests.last().0 by {
            assert(rests[i].0 != rests[rests.len() - 1].0);
        }
        assert(before.push(new_record(rests.last())) =~= made);
    } else {
        assert(made =~= Seq::<RestaurantView>::empty());
    }
    law_list_all(create_all(Seq::empty(), rests));
}

proof fn lemma_hits_of_store(term: Seq<char>, store: Seq<RestaurantView>)
    ensures
        hits(term, scan_of(store)) == store.filter(|r: RestaurantView| name_hit(term, r)),
    decreases store.len(),
{
    reveal(Seq::filter);
    if store.len() > 0 {
        assert(scan_of(store).drop_last() =~= scan_of(store.drop_last()));
        lemma_hits_of_store(term, store.drop_last());
    }
}

/// A search over the store returns exactly the records whose lower-case
/// names hold the lower-case fragment, in insertion order; where there is
/// none, a not-found reply with an empty list.
pub proof fn law_search_store(store: Seq<RestaurantView>, query: Seq<char>)
    ensures
        ({
            let found = store.filter(|r: RestaurantView| name_hit(lower_of(query), r));
            search_reply(lower_of(query), Ok(scan_of(store))) == if found.len() == 0 {
                failure_reply(
                    Status::NotFound,
                    "No restaurants match the keyword"@,
                    Some(Seq::empty()),
                )
            } else {
                success_reply(Status::Success, found)
            }
        }),
{
    lemma_scan_of(store);
    lemma_hits_of_store(lower_of(query), store);
}

/// Two fragments with the same lower-case form get the same reply from a
/// search over the same scan.
pub proof fn law_search_ignores_case(
    query: Seq<char>,
    other: Seq<char>,
    scan: Result<Seq<Result<RestaurantView, Seq<char>>>, Seq<char>>,
)
    requires
        lower_of(query) == lower_of(other),
    ensures
        search_reply(lower_of(query), scan) == search_reply(lower_of(other), scan),
{
}

/// Two creations under one unused name whose lookups both run before
/// either insert both decide to insert, and the store then holds two
/// records with that name: the check before the insert is not atomic.
pub proof fn law_racing_creates(
    store: Seq<RestaurantView>,
    first: (Seq<char>, Seq<char>),
    second: (Seq<char>, Seq<char>),
)
    requires
        find_by_name(store, first.0) is None,
        second.0 == first.0,
    ensures
        create_lookup_reply(Ok(find_by_name(store, first.0))) is None,
        create_lookup_reply(Ok(find_by_name(store, second.0))) is None,
        count_named(store.push(new_record(first)).push(new_record(second)), first.0) == 2,
{
    lemma_count_none(store, first.0);
    assert(store.push(new_record(first)).drop_last() =~= store);
    let one = store.push(new_record(first));
    let two = one.push(new_record(second));
    assert(two.drop_last() =~= one);
    assert(count_named(one, first.0) == 1);
    assert(count_named(two, first.0) == 2);
}

} // verus!
