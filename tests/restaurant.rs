use restaurant_api::{
    create_after_insert, create_after_lookup, create_restaurant, describe_filter,
    fetch_all_restaurant, fetch_restaurant, fetch_restaurant_by_string,
    matches_folded, restaurant_from_name, Filter, FilterField, RatingError, Reply, Restaurant,
    RestaurantRecord, Status,
};

fn rest(name: &str, description: &str) -> Restaurant {
    Restaurant { name: name.to_string(), description: description.to_string() }
}

fn record(name: &str, description: &str) -> RestaurantRecord {
    RestaurantRecord::from_new(&rest(name, description))
}

fn names(reply: &Reply) -> Vec<String> {
    reply.body.data.as_ref().unwrap().iter().map(|r| r.name.clone()).collect()
}

/// A stand-in for the collection: lookup by name finds the first record, insert appends.
fn find(store: &Vec<RestaurantRecord>, filter: &Filter) -> Option<RestaurantRecord> {
    let name = &filter.fields[0].value;
    store.iter().find(|r| &r.name == name).map(|r| r.duplicate())
}

fn create(store: &mut Vec<RestaurantRecord>, r: &Restaurant) -> Reply {
    let req = create_restaurant(r);
    match create_after_lookup(&Ok(find(store, &req.filter))) {
        Some(reply) => reply,
        None => {
            store.push(req.payload);
            create_after_insert(&Ok(()))
        }
    }
}

fn scan(store: &Vec<RestaurantRecord>) -> Result<Vec<Result<RestaurantRecord, String>>, String> {
    Ok(store.iter().map(|r| Ok(r.duplicate())).collect())
}

#[test]
fn status_codes() {
    assert_eq!(Status::Success.code(), 200);
    assert_eq!(Status::Created.code(), 201);
    assert_eq!(Status::Conflict.code(), 409);
    assert_eq!(Status::NotFound.code(), 404);
    assert_eq!(Status::ServerError.code(), 500);
}

#[test]
fn create_request_looks_up_name_and_starts_empty_histogram() {
    let req = create_restaurant(&rest("Thai Garden", "curries"));
    assert_eq!(req.filter.fields.len(), 1);
    assert_eq!(req.filter.fields[0].key, "name");
    assert_eq!(req.filter.fields[0].value, "Thai Garden");
    assert_eq!(req.payload.name, "Thai Garden");
    assert_eq!(req.payload.description, "curries");
    assert_eq!(req.payload.num_star, vec![0, 0, 0, 0, 0]);
}

#[test]
fn create_conflict_when_found() {
    let reply = create_after_lookup(&Ok(Some(record("A", "a")))).unwrap();
    assert_eq!(reply.status, Status::Conflict);
    assert!(!reply.body.success);
    assert!(reply.body.data.is_none());
    assert_eq!(reply.body.error_message.as_deref(), Some("Restaurant already exists"));
}

#[test]
fn create_inserts_when_absent() {
    assert!(create_after_lookup(&Ok(None)).is_none());
}

#[test]
fn create_lookup_error() {
    let reply = create_after_lookup(&Err("timeout".to_string())).unwrap();
    assert_eq!(reply.status, Status::NotFound);
    assert_eq!(
        reply.body.error_message.as_deref(),
        Some("Couldn't find any restaurant due to timeout")
    );
}

#[test]
fn create_insert_outcomes() {
    let ok = create_after_insert(&Ok(()));
    assert_eq!(ok.status, Status::Created);
    assert!(ok.body.success);
    assert!(ok.body.data.is_none());
    assert!(ok.body.error_message.is_none());
    let err = create_after_insert(&Err("disk full".to_string()));
    assert_eq!(err.status, Status::ServerError);
    assert!(!err.body.success);
    assert_eq!(
        err.body.error_message.as_deref(),
        Some("Couldn't create restaurant due to disk full")
    );
}

#[test]
fn describe_filter_lists_each_field() {
    let filter = Filter {
        fields: vec![
            FilterField { key: "name".to_string(), value: "Bo".to_string() },
            FilterField { key: "city".to_string(), value: "Rome".to_string() },
        ],
    };
    assert_eq!(describe_filter(&filter), "name==Bo, city==Rome, ");
    assert_eq!(describe_filter(&Filter { fields: vec![] }), "");
}

#[test]
fn fetch_found_returns_one_record() {
    let filter = restaurant_from_name(&"Bo".to_string());
    let reply = fetch_restaurant(&filter, &Ok(Some(record("Bo", "bistro"))));
    assert_eq!(reply.status, Status::Success);
    assert!(reply.body.success);
    assert_eq!(names(&reply), vec!["Bo".to_string()]);
    assert!(reply.body.error_message.is_none());
}

#[test]
fn fetch_missing_key_names_filter() {
    let filter = restaurant_from_name(&"Nowhere".to_string());
    let reply = fetch_restaurant(&filter, &Ok(None));
    assert_eq!(reply.status, Status::NotFound);
    assert!(!reply.body.success);
    let msg = reply.body.error_message.unwrap();
    assert_eq!(msg, "No restaurant exists for given filter: name==Nowhere, ");
    assert!(msg.contains("name"));
    assert!(msg.contains("Nowhere"));
}

#[test]
fn fetch_store_error() {
    let filter = restaurant_from_name(&"Bo".to_string());
    let reply = fetch_restaurant(&filter, &Err("down".to_string()));
    assert_eq!(reply.status, Status::NotFound);
    assert_eq!(
        reply.body.error_message.as_deref(),
        Some("Couldn't find any restaurants due to down")
    );
}

#[test]
fn create_then_fetch_returns_submitted_fields() {
    let mut store = Vec::new();
    let reply = create(&mut store, &rest("Thai Garden", "curries"));
    assert_eq!(reply.status, Status::Created);
    let filter = restaurant_from_name(&"Thai Garden".to_string());
    let got = fetch_restaurant(&filter, &Ok(find(&store, &filter)));
    assert_eq!(got.status, Status::Success);
    let data = got.body.data.unwrap();
    assert_eq!(data.len(), 1);
    assert_eq!(data[0].name, "Thai Garden");
    assert_eq!(data[0].description, "curries");
    assert_eq!(data[0].num_star, vec![0, 0, 0, 0, 0]);
}

#[test]
fn create_twice_reports_conflict_and_keeps_record() {
    let mut store = Vec::new();
    assert_eq!(create(&mut store, &rest("Bo", "first")).status, Status::Created);
    let second = create(&mut store, &rest("Bo", "second"));
    assert_eq!(second.status, Status::Conflict);
    assert_eq!(second.body.error_message.as_deref(), Some("Restaurant already exists"));
    assert_eq!(store.len(), 1);
    assert_eq!(store[0].description, "first");
}

#[test]
fn racing_creates_both_insert() {
    let mut store: Vec<RestaurantRecord> = Vec::new();
    let a = create_restaurant(&rest("Bo", "one"));
    let b = create_restaurant(&rest("Bo", "two"));
    let look_a = create_after_lookup(&Ok(find(&store, &a.filter)));
    let look_b = create_after_lookup(&Ok(find(&store, &b.filter)));
    assert!(look_a.is_none());
    assert!(look_b.is_none());
    store.push(a.payload);
    store.push(b.payload);
    assert_eq!(store.iter().filter(|r| r.name == "Bo").count(), 2);
}

#[test]
fn list_after_distinct_creates() {
    let mut store = Vec::new();
    for n in ["A", "B", "C", "D"] {
        assert_eq!(create(&mut store, &rest(n, "x")).status, Status::Created);
    }
    let reply = fetch_all_restaurant(&scan(&store));
    assert_eq!(reply.status, Status::Success);
    assert_eq!(names(&reply), vec!["A", "B", "C", "D"]);
}

#[test]
fn list_empty_store() {
    let reply = fetch_all_restaurant(&Ok(vec![]));
    assert_eq!(reply.status, Status::Success);
    assert_eq!(reply.body.data.unwrap().len(), 0);
}

#[test]
fn list_stops_at_decode_error() {
    let items = vec![Ok(record("A", "a")), Err("bad doc".to_string()), Ok(record("B", "b"))];
    let reply = fetch_all_restaurant(&Ok(items));
    assert_eq!(reply.status, Status::NotFound);
    assert!(!reply.body.success);
    assert!(reply.body.data.is_none());
    assert_eq!(
        reply.body.error_message.as_deref(),
        Some("Couldn't find any restaurants due to bad doc")
    );
    let opened = fetch_all_restaurant(&Err("refused".to_string()));
    assert_eq!(
        opened.body.error_message.as_deref(),
        Some("Couldn't find any restaurants due to refused")
    );
}

#[test]
fn search_ignores_case() {
    let mut store = Vec::new();
    create(&mut store, &rest("Thai Garden", "curries"));
    create(&mut store, &rest("Sushi Bar", "fish"));
    for term in ["thai", "GARDEN", "ai Ga"] {
        let reply = fetch_restaurant_by_string(&term.to_string(), &scan(&store));
        assert_eq!(reply.status, Status::Success);
        assert_eq!(names(&reply), vec!["Thai Garden".to_string()]);
    }
    let both = fetch_restaurant_by_string(&"A".to_string(), &scan(&store));
    assert_eq!(names(&both), vec!["Thai Garden".to_string(), "Sushi Bar".to_string()]);
}

#[test]
fn search_without_match_is_not_found_with_empty_list() {
    let mut store = Vec::new();
    create(&mut store, &rest("Thai Garden", "curries"));
    let reply = fetch_restaurant_by_string(&"pizza".to_string(), &scan(&store));
    assert_eq!(reply.status, Status::NotFound);
    assert!(!reply.body.success);
    assert_eq!(reply.body.data.as_ref().map(|d| d.len()), Some(0));
    assert_eq!(reply.body.error_message.as_deref(), Some("No restaurants match the keyword"));
}

#[test]
fn search_errors_carry_empty_list() {
    let items = vec![Err("bad doc".to_string())];
    let reply = fetch_restaurant_by_string(&"x".to_string(), &Ok(items));
    assert_eq!(reply.status, Status::NotFound);
    assert_eq!(reply.body.data.as_ref().map(|d| d.len()), Some(0));
    assert_eq!(
        reply.body.error_message.as_deref(),
        Some("Couldn't find any restaurants due to bad doc")
    );
    let opened = fetch_restaurant_by_string(&"x".to_string(), &Err("refused".to_string()));
    assert_eq!(opened.body.data.as_ref().map(|d| d.len()), Some(0));
}

#[test]
fn matches_folded_is_substring() {
    let hay: Vec<char> = "thai garden".chars().collect();
    assert!(matches_folded(&"garden".chars().collect(), &hay));
    assert!(matches_folded(&vec![], &hay));
    assert!(matches_folded(&hay, &hay));
    assert!(!matches_folded(&"GARDEN".chars().collect(), &hay));
    assert!(!matches_folded(&"thai garden!".chars().collect(), &hay));
    assert!(!matches_folded(&"gardn".chars().collect(), &hay));
}

#[test]
fn rating_counts_its_bucket() {
    let mut r = record("A", "a");
    assert_eq!(r.add_rating(3), Ok(()));
    assert_eq!(r.num_star, vec![0, 0, 1, 0, 0]);
    assert_eq!(r.add_rating(1), Ok(()));
    assert_eq!(r.add_rating(5), Ok(()));
    assert_eq!(r.add_rating(3), Ok(()));
    assert_eq!(r.num_star, vec![1, 0, 2, 0, 1]);
    assert_eq!(r.name, "A");
}

#[test]
fn rating_errors() {
    let mut r = record("A", "a");
    assert_eq!(r.add_rating(0), Err(RatingError::OutOfRange));
    assert_eq!(r.add_rating(6), Err(RatingError::OutOfRange));
    assert_eq!(r.num_star, vec![0, 0, 0, 0, 0]);
    r.num_star[1] = i32::MAX;
    assert_eq!(r.add_rating(2), Err(RatingError::BucketFull));
    assert_eq!(r.num_star[1], i32::MAX);
    let mut bad = RestaurantRecord { name: "B".to_string(), description: String::new(), num_star: vec![0, 0] };
    assert_eq!(bad.add_rating(1), Err(RatingError::MalformedHistogram));
    assert_eq!(bad.num_star, vec![0, 0]);
}
