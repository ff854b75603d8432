//! End-to-end scenarios over the store model and the handlers.

use http_handler::entities::{User, Vehicle};
use http_handler::handlers::{add_user, add_vehicle, get_my_vehicles, get_users, get_vehicles};
use http_handler::reply::ReplyBody;
use http_handler::store::{Store, StoreFailure};

fn user_payload(name: &str, mobile: &str) -> User {
    User { id: 0, name: name.to_string(), mobile: mobile.to_string() }
}

fn vehicle_payload(
    user_mobile: &str,
    brand: &str,
    model: &str,
    year: &str,
    mileage: f32,
    post_date: &str,
) -> Vehicle {
    Vehicle {
        id: 0,
        user_mobile: user_mobile.to_string(),
        brand: brand.to_string(),
        model: model.to_string(),
        year: year.to_string(),
        mileage_bits: mileage.to_bits(),
        post_date: post_date.to_string(),
    }
}

#[test]
fn user_create_then_list() {
    let mut store = Store::new();
    let rows = store.insert_user(&user_payload("Alice", "555-0100"));
    assert_eq!(rows, 1);

    let reply = get_users(Ok(store.select_users()));
    assert_eq!(reply.status, 200);
    match reply.body {
        ReplyBody::Users(w) => {
            assert_eq!(w.user_list.len(), 1);
            assert_eq!(w.user_list[0].id, 1);
            assert_eq!(w.user_list[0].name, "Alice");
            assert_eq!(w.user_list[0].mobile, "555-0100");
        }
        _ => panic!("expected a user listing envelope"),
    }
}

#[test]
fn vehicle_create_then_list() {
    let mut store = Store::new();
    let payload =
        vehicle_payload("555-0100", "Toyota", "Corolla", "2020", 12000.5, "2024-01-01");
    let rows = store.insert_vehicle(&payload);
    assert_eq!(rows, 1);

    let reply = get_vehicles(Ok(store.select_vehicles()));
    assert_eq!(reply.status, 200);
    match reply.body {
        ReplyBody::Vehicles(w) => {
            assert_eq!(w.vehicle_list.len(), 1);
            let v = &w.vehicle_list[0];
            assert_eq!(v.id, 1);
            assert_eq!(v.user_mobile, "555-0100");
            assert_eq!(v.brand, "Toyota");
            assert_eq!(v.model, "Corolla");
            assert_eq!(v.year, "2020");
            assert_eq!(f32::from_bits(v.mileage_bits), 12000.5);
            assert_eq!(v.post_date, "2024-01-01");
        }
        _ => panic!("expected a vehicle listing envelope"),
    }
}

#[test]
fn my_vehicles_returns_exactly_the_matching_record() {
    let mut store = Store::new();
    store.insert_vehicle(&vehicle_payload(
        "555-0100",
        "Toyota",
        "Corolla",
        "2020",
        12000.5,
        "2024-01-01",
    ));

    let mobile = "555-0100".to_string();
    let fetched = store.select_vehicles_by_mobile(Some(&mobile));
    let reply = get_my_vehicles(Some(mobile), Ok(fetched));
    assert_eq!(reply.status, 200);
    match reply.body {
        ReplyBody::Vehicles(w) => {
            assert_eq!(w.vehicle_list.len(), 1);
            let v = &w.vehicle_list[0];
            assert_eq!(v.user_mobile, "555-0100");
            assert_eq!(v.brand, "Toyota");
            assert_eq!(v.model, "Corolla");
            assert_eq!(v.year, "2020");
            assert_eq!(f32::from_bits(v.mileage_bits), 12000.5);
            assert_eq!(v.post_date, "2024-01-01");
        }
        _ => panic!("expected a vehicle listing envelope"),
    }

    let other = "000-0000".to_string();
    let fetched = store.select_vehicles_by_mobile(Some(&other));
    let reply = get_my_vehicles(Some(other), Ok(fetched));
    assert_eq!(reply.status, 200);
    match reply.body {
        ReplyBody::Vehicles(w) => assert_eq!(w.vehicle_list.len(), 0),
        _ => panic!("expected a vehicle listing envelope"),
    }
}

#[test]
fn filter_picks_the_exact_subset_across_mobiles() {
    let mut store = Store::new();
    store.insert_vehicle(&vehicle_payload("111", "A", "a", "2001", 1.0, "d1"));
    store.insert_vehicle(&vehicle_payload("222", "B", "b", "2002", 2.0, "d2"));
    store.insert_vehicle(&vehicle_payload("111", "C", "c", "2003", 3.0, "d3"));
    store.insert_vehicle(&vehicle_payload("333", "D", "d", "2004", 4.0, "d4"));

    let mobile = "111".to_string();
    let picked = store.select_vehicles_by_mobile(Some(&mobile));
    assert_eq!(picked.len(), 2);
    assert_eq!(picked[0].brand, "A");
    assert_eq!(picked[0].id, 1);
    assert_eq!(picked[1].brand, "C");
    assert_eq!(picked[1].id, 3);
    assert!(picked.iter().all(|v| v.user_mobile == "111"));

    let mobile = "222".to_string();
    let picked = store.select_vehicles_by_mobile(Some(&mobile));
    assert_eq!(picked.len(), 1);
    assert_eq!(picked[0].brand, "B");

    let mobile = "999".to_string();
    let picked = store.select_vehicles_by_mobile(Some(&mobile));
    assert_eq!(picked.len(), 0);
}

#[test]
fn absent_caller_header_lists_nothing() {
    let mut store = Store::new();
    store.insert_vehicle(&vehicle_payload("111", "A", "a", "2001", 1.0, "d1"));

    let fetched = store.select_vehicles_by_mobile(None);
    assert_eq!(fetched.len(), 0);
    let reply = get_my_vehicles(None, Ok(fetched));
    assert_eq!(reply.status, 200);
    match reply.body {
        ReplyBody::Vehicles(w) => assert_eq!(w.vehicle_list.len(), 0),
        _ => panic!("expected a vehicle listing envelope"),
    }
}

#[test]
fn empty_store_lists_empty_envelopes() {
    let store = Store::new();

    let reply = get_users(Ok(store.select_users()));
    assert_eq!(reply.status, 200);
    match reply.body {
        ReplyBody::Users(w) => assert_eq!(w.user_list.len(), 0),
        _ => panic!("expected a user listing envelope"),
    }

    let reply = get_vehicles(Ok(store.select_vehicles()));
    assert_eq!(reply.status, 200);
    match reply.body {
        ReplyBody::Vehicles(w) => assert_eq!(w.vehicle_list.len(), 0),
        _ => panic!("expected a vehicle listing envelope"),
    }
}

#[test]
fn store_assigned_ids_are_sequential_and_unique() {
    let mut store = Store::new();
    store.insert_user(&user_payload("Alice", "555-0100"));
    store.insert_user(&user_payload("Bob", "555-0101"));
    store.insert_user(&user_payload("Carol", "555-0100"));

    let listed = store.select_users();
    assert_eq!(listed.len(), 3);
    assert_eq!(listed[0].id, 1);
    assert_eq!(listed[1].id, 2);
    assert_eq!(listed[2].id, 3);
}

#[test]
fn create_ignores_a_caller_supplied_id() {
    let mut store = Store::new();
    let mut payload = user_payload("Alice", "555-0100");
    payload.id = 777;
    store.insert_user(&payload);
    let listed = store.select_users();
    assert_eq!(listed[0].id, 1);
}

#[test]
fn missing_session_header_still_creates() {
    let reply = add_user(None, Ok(1));
    assert_eq!(reply.status, 201);
    match reply.body {
        ReplyBody::Count(c) => assert_eq!(c, 1),
        _ => panic!("expected a bare count body"),
    }
}

#[test]
fn add_user_reports_the_affected_rows() {
    let reply = add_user(Some("session-17".to_string()), Ok(1));
    assert_eq!(reply.status, 201);
    match reply.body {
        ReplyBody::Count(c) => assert_eq!(c, 1),
        _ => panic!("expected a bare count body"),
    }
}

#[test]
fn add_vehicle_reports_the_affected_rows() {
    let reply = add_vehicle(Ok(1));
    assert_eq!(reply.status, 201);
    match reply.body {
        ReplyBody::Message(m) => assert_eq!(m, "Rows affected: 1"),
        _ => panic!("expected a plain-text body"),
    }

    let reply = add_vehicle(Ok(0));
    match reply.body {
        ReplyBody::Message(m) => assert_eq!(m, "Rows affected: 0"),
        _ => panic!("expected a plain-text body"),
    }

    let reply = add_vehicle(Ok(1234567890123));
    match reply.body {
        ReplyBody::Message(m) => assert_eq!(m, "Rows affected: 1234567890123"),
        _ => panic!("expected a plain-text body"),
    }
}

#[test]
fn store_failures_map_to_the_exact_taxonomy_messages() {
    let reply = get_users(Err(StoreFailure));
    assert_eq!(reply.status, 500);
    match reply.body {
        ReplyBody::Message(m) => assert_eq!(m, "Error fetching database value."),
        _ => panic!("expected a plain-text body"),
    }

    let reply = get_vehicles(Err(StoreFailure));
    assert_eq!(reply.status, 500);
    match reply.body {
        ReplyBody::Message(m) => assert_eq!(m, "Error fetching database value."),
        _ => panic!("expected a plain-text body"),
    }

    let reply = get_my_vehicles(Some("555-0100".to_string()), Err(StoreFailure));
    assert_eq!(reply.status, 500);
    match reply.body {
        ReplyBody::Message(m) => assert_eq!(m, "Error fetching database value."),
        _ => panic!("expected a plain-text body"),
    }

    let reply = add_user(Some("session-17".to_string()), Err(StoreFailure));
    assert_eq!(reply.status, 500);
    match reply.body {
        ReplyBody::Message(m) => assert_eq!(m, "Error registering value."),
        _ => panic!("expected a plain-text body"),
    }

    let reply = add_vehicle(Err(StoreFailure));
    assert_eq!(reply.status, 500);
    match reply.body {
        ReplyBody::Message(m) => assert_eq!(m, "Error registering value."),
        _ => panic!("expected a plain-text body"),
    }
}
