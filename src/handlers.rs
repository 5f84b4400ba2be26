use crate::envelope::{
    done, done_reply, failure, failure_reply, records_view, success, success_reply,
    Reply, ReplyView, Status,
};
use crate::model::{new_record, Restaurant, RestaurantRecord, RestaurantView};
use crate::text::{filter_text, is_infix, lower_of, fold_case, matches_folded};
use vstd::prelude::*;
use vstd::string::*;

verus! {

/// One equality condition of a lookup: field `key` holds `value`.
pub struct FilterField {
    pub key: String,
    pub value: String,
}

/// A lookup filter: every field must hold.
pub struct Filter {
    pub fields: Vec<FilterField>,
}

impl View for Filter {
    type V = Seq<(Seq<char>, Seq<char>)>;

    open spec fn view(&self) -> Seq<(Seq<char>, Seq<char>)> {
        self.fields@.map_values(|f: FilterField| (f.key@, f.value@))
    }
}

/// The filter that looks a restaurant up by its name.
pub open spec fn name_filter(name: Seq<char>) -> Seq<(Seq<char>, Seq<char>)> {
    seq![("name"@, name)]
}

/// What a creation asks of the store: the filter that looks for an existing
/// record with the same key, and the record to insert where there is none.
pub struct CreateRequest {
    pub filter: Filter,
    pub payload: RestaurantRecord,
}

/// The outcome of a single-record lookup, as values.
pub open spec fn lookup_view(l: Result<Option<RestaurantRecord>, String>) -> Result<
    Option<RestaurantView>,
    Seq<char>,
> {
    match l {
        Ok(Some(r)) => Ok(Some(r@)),
        Ok(None) => Ok(None),
        Err(e) => Err(e@),
    }
}

/// The outcome of a scan over the whole collection, as values: the error
/// that kept it from opening, or each item that it yielded.
pub open spec fn scan_view(s: Result<Vec<Result<RestaurantRecord, String>>, String>) -> Result<
    Seq<Result<RestaurantView, Seq<char>>>,
    Seq<char>,
> {
    match s {
        Ok(items) => Ok(items_view(items@)),
        Err(e) => Err(e@),
    }
}

pub open spec fn items_view(s: Seq<Result<RestaurantRecord, String>>) -> Seq<
    Result<RestaurantView, Seq<char>>,
> {
    s.map_values(
        |x: Result<RestaurantRecord, String>|
            match x {
                Ok(r) => Ok(r@),
                Err(e) => Err(e@),
            },
    )
}

pub open spec fn opt_reply_view(r: Option<Reply>) -> Option<ReplyView> {
    match r {
        Some(x) => Some(x@),
        None => None,
    }
}

/// The reply to a creation after its lookup, or `None` where the record is
/// to be inserted.
pub open spec fn create_lookup_reply(found: Result<Option<RestaurantView>, Seq<char>>) -> Option<
    ReplyView,
> {
    match found {
        Ok(Some(_)) => Some(failure_reply(Status::Conflict, "Restaurant already exists"@, None)),
        Ok(None) => None,
        Err(e) => Some(
            failure_reply(Status::NotFound, "Couldn't find any restaurant due to "@ + e, None),
        ),
    }
}

/// The reply to a creation after its insert.
pub open spec fn create_insert_reply(outcome: Result<(), Seq<char>>) -> ReplyView {
    match outcome {
        Ok(_) => done_reply(Status::Created),
        Err(e) => failure_reply(Status::ServerError, "Couldn't create restaurant due to "@ + e, None),
    }
}

/// The reply to a lookup by `filter`.
pub open spec fn fetch_reply(
    filter: Seq<(Seq<char>, Seq<char>)>,
    found: Result<Option<RestaurantView>, Seq<char>>,
) -> ReplyView {
    match found {
        Ok(Some(r)) => success_reply(Status::Success, seq![r]),
        Ok(None) => failure_reply(
            Status::NotFound,
            "No restaurant exists for given filter: "@ + filter_text(filter),
            None,
        ),
        Err(e) => failure_reply(Status::NotFound, "Couldn't find any restaurants due to "@ + e, None),
    }
}

/// The error of the first item of a scan that failed, if one did.
pub open spec fn first_error(items: Seq<Result<RestaurantView, Seq<char>>>) -> Option<Seq<char>>
    decreases items.len(),
{
    if items.len() == 0 {
        None
    } else {
        match first_error(items.drop_last()) {
            Some(e) => Some(e),
            None => match items.last() {
                Ok(_) => None,
                Err(e) => Some(e),
            },
        }
    }
}

/// The records of a scan, in the order it yielded them.
pub open spec fn scanned(items: Seq<Result<RestaurantView, Seq<char>>>) -> Seq<RestaurantView>
    decreases items.len(),
{
    if items.len() == 0 {
        Seq::empty()
    } else {
        let rest = scanned(items.drop_last());
        match items.last() {
            Ok(r) => rest.push(r),
            Err(_) => rest,
        }
    }
}

/// Whether a record's name holds the case-folded fragment `term`, ignoring case.
pub open spec fn name_hit(term: Seq<char>, r: RestaurantView) -> bool {
    is_infix(term, lower_of(r.name))
}

/// The records of a scan whose names hold the case-folded fragment `term`,
/// in the order the scan yielded them.
pub open spec fn hits(term: Seq<char>, items: Seq<Result<RestaurantView, Seq<char>>>) -> Seq<
    RestaurantView,
>
    decreases items.len(),
{
    if items.len() == 0 {
        Seq::empty()
    } else {
        let rest = hits(term, items.drop_last());
        match items.last() {
            Ok(r) => if name_hit(term, r) {
                rest.push(r)
            } else {
                rest
            },
            Err(_) => rest,
        }
    }
}

/// The reply to a listing of every restaurant.
pub open spec fn list_reply(scan: Result<Seq<Result<RestaurantView, Seq<char>>>, Seq<char>>) -> ReplyView {
    match scan {
        Err(e) => failure_reply(Status::NotFound, "Couldn't find any restaurants due to "@ + e, None),
        Ok(items) => match first_error(items) {
            Some(e) => failure_reply(
                Status::NotFound,
                "Couldn't find any restaurants due to "@ + e,
                None,
            ),
            None => success_reply(Status::Success, scanned(items)),
        },
    }
}

/// The reply to a search for the case-folded fragment `term`.
pub open spec fn search_reply(
    term: Seq<char>,
    scan: Result<Seq<Result<RestaurantView, Seq<char>>>, Seq<char>>,
) -> ReplyView {
    match scan {
        Err(e) => failure_reply(
            Status::NotFound,
            "Couldn't find any restaurants due to "@ + e,
            Some(Seq::empty()),
        ),
        Ok(items) => match first_error(items) {
            Some(e) => failure_reply(
                Status::NotFound,
                "Couldn't find any restaurants due to "@ + e,
                Some(Seq::empty()),
            ),
            None => if hits(term, items).len() == 0 {
                failure_reply(
                    Status::NotFound,
                    "No restaurants match the keyword"@,
                    Some(Seq::empty()),
                )
            } else {
                success_reply(Status::Success, hits(term, items))
            },
        },
    }
}

/// An error met in a prefix of a scan is the first error of the whole scan.
proof fn lemma_first_error_prefix(items: Seq<Result<RestaurantView, Seq<char>>>, k: int)
    requires
        0 <= k <= items.len(),
        first_error(items.subrange(0, k)) is Some,
    ensures
        first_error(items) == first_error(items.subrange(0, k)),
    decreases items.len(),
{
    if k < items.len() {
        assert(items.drop_last().subrange(0, k) =~= items.subrange(0, k));
        lemma_first_error_prefix(items.drop_last(), k);
    } else {
        assert(items.subrange(0, k) =~= items);
    }
}

/// An empty list of records.
fn no_records() -> (r: Vec<RestaurantRecord>)
    ensures
        records_view(r@) == Seq::<RestaurantView>::empty(),
{
    let r: Vec<RestaurantRecord> = Vec::new();
    assert(records_view(r@) =~= Seq::<RestaurantView>::empty());
    r
}

/// `prefix` followed by `detail`.
fn message(prefix: &str, detail: &String) -> (r: String)
    ensures
        r@ == prefix@ + detail@,
{
    let mut m = String::from_str(prefix);
    m.append(detail.as_str());
    m
}

/// The text that names each field of `filter` with its value.
pub fn describe_filter(filter: &Filter) -> (r: String)
    ensures
        r@ == filter_text(filter@),
{
    let mut m = String::new();
    let mut i: usize = 0;
    while i < filter.fields.len()
        invariant
            i <= filter@.len(),
            filter@.len() == filter.fields@.len(),
            m@ == filter_text(filter@.subrange(0, i as int)),
        decreases filter.fields@.len() - i,
    {
        let f = &filter.fields[i];
        m.append(f.key.as_str());
        m.append("==");
        m.append(f.value.as_str());
        m.append(", ");
        assert(filter@.subrange(0, i + 1).drop_last() =~= filter@.subrange(0, i as int));
        i = i + 1;
    }
    assert(filter@.subrange(0, i as int) =~= filter@);
    m
}

/// The filter that looks a restaurant up by its name.
pub fn restaurant_from_name(name: &String) -> (r: Filter)
    ensures
        r@ == name_filter(name@),
{
    let mut fields: Vec<FilterField> = Vec::new();
    fields.push(FilterField { key: String::from_str("name"), value: name.clone() });
    let r = Filter { fields };
    assert(r@ =~= name_filter(name@));
    r
}

/// Begins the creation of `rest`: the store is first searched with
/// `filter`, and `payload`, the record with no reviews yet, is inserted if
/// that finds nothing.
pub fn create_restaurant(rest: &Restaurant) -> (r: CreateRequest)
    ensures
        r.filter@ == name_filter(rest.name@),
        r.payload@ == new_record(rest@),
{
    CreateRequest { filter: restaurant_from_name(&rest.name), payload: RestaurantRecord::from_new(rest) }
}

/// Decides a creation on the outcome of its lookup: `None` where the
/// payload is to be inserted, else the reply to send.
pub fn create_after_lookup(lookup: &Result<Option<RestaurantRecord>, String>) -> (r: Option<Reply>)
    ensures
        opt_reply_view(r) == create_lookup_reply(lookup_view(*lookup)),
{
    match lookup {
        Ok(Some(_)) => Some(
            failure(Status::Conflict, String::from_str("Restaurant already exists"), None),
        ),
        Ok(None) => None,
        Err(e) => Some(
            failure(Status::NotFound, message("Couldn't find any restaurant due to ", e), None),
        ),
    }
}

/// The reply to a creation, on the outcome of its insert.
pub fn create_after_insert(outcome: &Result<(), String>) -> (r: Reply)
    ensures
        r@ == create_insert_reply(
            match outcome {
                Ok(_) => Ok(()),
                Err(e) => Err(e@),
            },
        ),
{
    match outcome {
        Ok(_) => done(Status::Created),
        Err(e) => failure(Status::ServerError, message("Couldn't create restaurant due to ", e), None),
    }
}

/// The reply to a lookup by `filter`, on its outcome.
pub fn fetch_restaurant(filter: &Filter, found: &Result<Option<RestaurantRecord>, String>) -> (r:
    Reply)
    ensures
        r@ == fetch_reply(filter@, lookup_view(*found)),
{
    match found {
        Ok(Some(rec)) => {
            let mut data: Vec<RestaurantRecord> = Vec::new();
            data.push(rec.duplicate());
            let r = success(Status::Success, data);
            assert(records_view(data@) =~= seq![rec@]);
            r
        },
        Ok(None) => {
            let mut m = String::from_str("No restaurant exists for given filter: ");
            let d = describe_filter(filter);
            m.append(d.as_str());
            failure(Status::NotFound, m, None)
        },
        Err(e) => failure(
            Status::NotFound,
            message("Couldn't find any restaurants due to ", e),
            None,
        ),
    }
}

/// The reply to a listing of every restaurant, on the outcome of the scan:
/// every record, or the first error met.
pub fn fetch_all_restaurant(scan: &Result<Vec<Result<RestaurantRecord, String>>, String>) -> (r:
    Reply)
    ensures
        r@ == list_reply(scan_view(*scan)),
{
    match scan {
        Err(e) => failure(
            Status::NotFound,
            message("Couldn't find any restaurants due to ", e),
            None,
        ),
        Ok(items) => {
            let ghost all = items_view(items@);
            let mut out: Vec<RestaurantRecord> = Vec::new();
            let mut i: usize = 0;
            while i < items.len()
                invariant
                    i <= items@.len(),
                    all == items_view(items@),
                    scan_view(*scan) == Ok::<_, Seq<char>>(all),
                    first_error(all.subrange(0, i as int)) is None,
                    records_view(out@) == scanned(all.subrange(0, i as int)),
                decreases items@.len() - i,
            {
                assert(all.subrange(0, i + 1).drop_last() =~= all.subrange(0, i as int));
                match &items[i] {
                    Ok(rec) => {
                        let ghost before = out@;
                        out.push(rec.duplicate());
                        assert(records_view(out@) =~= records_view(before).push(rec@));
                    },
                    Err(e) => {
                        assert(first_error(all.subrange(0, i + 1)) == Some(e@));
                        proof {
                            lemma_first_error_prefix(all, i + 1);
                        }
                        return failure(
                            Status::NotFound,
                            message("Couldn't find any restaurants due to ", e),
                            None,
                        );
                    },
                }
                i = i + 1;
            }
            assert(all.subrange(0, i as int) =~= all);
            success(Status::Success, out)
        },
    }
}

/// The reply to a search for `search` among the names, ignoring case, on
/// the outcome of the scan: the matching records in scan order, a failure
/// with an empty list where none matches, or the first error met.
pub fn fetch_restaurant_by_string(
    search: &String,
    scan: &Result<Vec<Result<RestaurantRecord, String>>, String>,
) -> (r: Reply)
    ensures
        r@ == search_reply(lower_of(search@), scan_view(*scan)),
{
    match scan {
        Err(e) => failure(
            Status::NotFound,
            message("Couldn't find any restaurants due to ", e),
            Some(no_records()),
        ),
        Ok(items) => {
            let term = fold_case(search);
            let ghost all = items_view(items@);
            let mut out: Vec<RestaurantRecord> = Vec::new();
            let mut i: usize = 0;
            while i < items.len()
                invariant
                    i <= items@.len(),
                    all == items_view(items@),
                    scan_view(*scan) == Ok::<_, Seq<char>>(all),
                    term@ == lower_of(search@),
                    first_error(all.subrange(0, i as int)) is None,
                    records_view(out@) == hits(term@, all.subrange(0, i as int)),
                decreases items@.len() - i,
            {
                assert(all.subrange(0, i + 1).drop_last() =~= all.subrange(0, i as int));
                match &items[i] {
                    Ok(rec) => {
                        let name = fold_case(&rec.name);
                        if matches_folded(&term, &name) {
                            let ghost before = out@;
                            out.push(rec.duplicate());
                            assert(records_view(out@) =~= records_view(before).push(rec@));
                        }
                    },
                    Err(e) => {
                        assert(first_error(all.subrange(0, i + 1)) == Some(e@));
                        proof {
                            lemma_first_error_prefix(all, i + 1);
                        }
                        return failure(
                            Status::NotFound,
                            message("Couldn't find any restaurants due to ", e),
                            Some(no_records()),
                        );
                    },
                }
                i = i + 1;
            }
            assert(all.subrange(0, i as int) =~= all);
            if out.len() == 0 {
                let r = failure(
                    Status::NotFound,
                    String::from_str("No restaurants match the keyword"),
                    Some(no_records()),
                );
                assert(r@.data == Some(Seq::<RestaurantView>::empty()));
                r
            } else {
                success(Status::Success, out)
            }
        },
    }
}

} // verus!
