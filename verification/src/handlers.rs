//! The five resource handlers, as decision functions: each takes what the
//! request carried and the outcome of its one store call, and returns the
//! one HTTP reply of the request. The process boundary performs the call
//! itself and serialises the reply; every decision stands here.

use vstd::prelude::*;
use crate::entities::{User, Vehicle, ResponseWrapper, ResponseVehicleWrapper};
use crate::errors::Woo2Err;
use crate::reply::{
    HttpReply,
    ReplyBody,
    dec_str,
    u64_to_decimal,
    STATUS_OK,
    STATUS_CREATED,
    STATUS_INTERNAL_ERROR,
};
use crate::store::StoreFailure;

verus! {

/// What the user-listing handler replies: for a fetched row set, 200 with
/// the envelope holding exactly those rows (an empty set included); for a
/// store failure, 500 whose whole body is the fetch-error message.
pub open spec fn get_users_post(fetched: Result<Vec<User>, StoreFailure>, r: HttpReply) -> bool {
    match fetched {
        Ok(users) => {
            &&& r.status == STATUS_OK
            &&& r.body matches ReplyBody::Users(w) && w.user_list@ == users@
        },
        Err(_) => {
            &&& r.status == STATUS_INTERNAL_ERROR
            &&& r.body matches ReplyBody::Message(m) && m@ == Woo2Err::ErrorDbFetch.message()
        },
    }
}

/// What a vehicle-listing handler replies: for a fetched row set, 200 with
/// the envelope holding exactly those rows (an empty set included); for a
/// store failure, 500 whose whole body is the fetch-error message.
pub open spec fn get_vehicles_post(
    fetched: Result<Vec<Vehicle>, StoreFailure>,
    r: HttpReply,
) -> bool {
    match fetched {
        Ok(vehicles) => {
            &&& r.status == STATUS_OK
            &&& r.body matches ReplyBody::Vehicles(w) && w.vehicle_list@ == vehicles@
        },
        Err(_) => {
            &&& r.status == STATUS_INTERNAL_ERROR
            &&& r.body matches ReplyBody::Message(m) && m@ == Woo2Err::ErrorDbFetch.message()
        },
    }
}

/// What the caller's vehicle-listing handler replies. The reply depends
/// only on the fetch outcome: the caller header is inspected for presence,
/// but its absence does not short-circuit the request (see
/// `get_my_vehicles`); the filtering itself is the store's, through the
/// bound filter value.
pub open spec fn get_my_vehicles_post(
    user_mobile: Option<String>,
    fetched: Result<Vec<Vehicle>, StoreFailure>,
    r: HttpReply,
) -> bool {
    get_vehicles_post(fetched, r)
}

/// What the user-create handler replies: for a completed insert, 201 with
/// the affected-row count as a bare number; for a store failure, 500 whose
/// whole body is the registration-error message. The session header never
/// changes the reply.
pub open spec fn add_user_post(
    session_id: Option<String>,
    outcome: Result<u64, StoreFailure>,
    r: HttpReply,
) -> bool {
    match outcome {
        Ok(rows) => {
            &&& r.status == STATUS_CREATED
            &&& r.body matches ReplyBody::Count(c) && c == rows
        },
        Err(_) => {
            &&& r.status == STATUS_INTERNAL_ERROR
            &&& r.body matches ReplyBody::Message(m) && m@ == Woo2Err::ErrorDbAddValue.message()
        },
    }
}

/// What the vehicle-create handler replies: for a completed insert, 201
/// with a human-readable affected-row report; for a store failure, 500
/// whose whole body is the registration-error message.
pub open spec fn add_vehicle_post(outcome: Result<u64, StoreFailure>, r: HttpReply) -> bool {
    match outcome {
        Ok(rows) => {
            &&& r.status == STATUS_CREATED
            &&& r.body matches ReplyBody::Message(m) && m@ == "Rows affected: "@ + dec_str(
                rows as nat,
            )
        },
        Err(_) => {
            &&& r.status == STATUS_INTERNAL_ERROR
            &&& r.body matches ReplyBody::Message(m) && m@ == Woo2Err::ErrorDbAddValue.message()
        },
    }
}

/// List every user: map the outcome of the unfiltered user select.
pub fn get_users(fetched: Result<Vec<User>, StoreFailure>) -> (r: HttpReply)
    ensures
        get_users_post(fetched, r),
{
    match fetched {
        Ok(users) => HttpReply {
            status: STATUS_OK,
            body: ReplyBody::Users(ResponseWrapper { user_list: users }),
        },
        Err(_) => HttpReply {
            status: STATUS_INTERNAL_ERROR,
            body: ReplyBody::Message(String::from_str(Woo2Err::ErrorDbFetch.as_str())),
        },
    }
}

/// List every vehicle: map the outcome of the unfiltered vehicle select.
pub fn get_vehicles(fetched: Result<Vec<Vehicle>, StoreFailure>) -> (r: HttpReply)
    ensures
        get_vehicles_post(fetched, r),
{
    match fetched {
        Ok(vehicles) => HttpReply {
            status: STATUS_OK,
            body: ReplyBody::Vehicles(ResponseVehicleWrapper { vehicle_list: vehicles }),
        },
        Err(_) => HttpReply {
            status: STATUS_INTERNAL_ERROR,
            body: ReplyBody::Message(String::from_str(Woo2Err::ErrorDbFetch.as_str())),
        },
    }
}

/// List the caller's vehicles: map the outcome of the vehicle select
/// filtered by the caller header's mobile value.
pub fn get_my_vehicles(
    user_mobile: Option<String>,
    fetched: Result<Vec<Vehicle>, StoreFailure>,
) -> (r: HttpReply)
    ensures
        get_my_vehicles_post(user_mobile, fetched, r),
{
    if user_mobile.is_none() {
        // The not-found error is built here and then dropped: a request
        // without the caller header still proceeds to the (empty-valued)
        // filtered select, so no reply ever carries this message.
        let _unsent = Woo2Err::ErrorUserNotFound.as_str();
    }
    get_vehicles(fetched)
}

/// Create a user: map the outcome of the parameterized user insert.
pub fn add_user(session_id: Option<String>, outcome: Result<u64, StoreFailure>) -> (r: HttpReply)
    ensures
        add_user_post(session_id, outcome, r),
{
    if session_id.is_none() {
        // The invalid-session error is built here and then dropped: the
        // create proceeds without a session header, so no reply ever
        // carries this message. A present session id is noted but never
        // verified.
        let _unsent = Woo2Err::ErrorInvalidSession.as_str();
    }
    match outcome {
        Ok(rows) => HttpReply { status: STATUS_CREATED, body: ReplyBody::Count(rows) },
        Err(_) => HttpReply {
            status: STATUS_INTERNAL_ERROR,
            body: ReplyBody::Message(String::from_str(Woo2Err::ErrorDbAddValue.as_str())),
        },
    }
}

/// Create a vehicle: map the outcome of the parameterized vehicle insert.
pub fn add_vehicle(outcome: Result<u64, StoreFailure>) -> (r: HttpReply)
    ensures
        add_vehicle_post(outcome, r),
{
    match outcome {
        Ok(rows) => {
            let numeral = u64_to_decimal(rows);
            let message = String::from_str("Rows affected: ").concat(numeral.as_str());
            HttpReply { status: STATUS_CREATED, body: ReplyBody::Message(message) }
        },
        Err(_) => HttpReply {
            status: STATUS_INTERNAL_ERROR,
            body: ReplyBody::Message(String::from_str(Woo2Err::ErrorDbAddValue.as_str())),
        },
    }
}

/// Law: a user fetch of zero rows is a normal success — 200 with an empty
/// listing envelope, not a failure reply and not an absent body.
pub proof fn law_empty_user_listing(fetched: Result<Vec<User>, StoreFailure>, r: HttpReply)
    requires
        get_users_post(fetched, r),
        fetched matches Ok(users) && users@.len() == 0,
    ensures
        r.status == STATUS_OK,
        r.body matches ReplyBody::Users(w) && w.user_list@ =~= Seq::<User>::empty(),
{
}

/// Law: a vehicle fetch of zero rows is a normal success — 200 with an
/// empty listing envelope, not a failure reply and not an absent body.
pub proof fn law_empty_vehicle_listing(fetched: Result<Vec<Vehicle>, StoreFailure>, r: HttpReply)
    requires
        get_vehicles_post(fetched, r),
        fetched matches Ok(vehicles) && vehicles@.len() == 0,
    ensures
        r.status == STATUS_OK,
        r.body matches ReplyBody::Vehicles(w) && w.vehicle_list@ =~= Seq::<Vehicle>::empty(),
{
}

/// Law: a caller's vehicle fetch of zero rows is a normal success — 200
/// with an empty listing envelope, whatever the caller header held.
pub proof fn law_empty_caller_listing(
    user_mobile: Option<String>,
    fetched: Result<Vec<Vehicle>, StoreFailure>,
    r: HttpReply,
)
    requires
        get_my_vehicles_post(user_mobile, fetched, r),
        fetched matches Ok(vehicles) && vehicles@.len() == 0,
    ensures
        r.status == STATUS_OK,
        r.body matches ReplyBody::Vehicles(w) && w.vehicle_list@ =~= Seq::<Vehicle>::empty(),
{
}

/// Law: a store failure on the user listing yields exactly 500, with the
/// fetch-error message as the whole body.
pub proof fn law_user_listing_failure(fetched: Result<Vec<User>, StoreFailure>, r: HttpReply)
    requires
        get_users_post(fetched, r),
        fetched is Err,
    ensures
        r.status == STATUS_INTERNAL_ERROR,
        r.body matches ReplyBody::Message(m) && m@ == Woo2Err::ErrorDbFetch.message(),
{
}

/// Law: a store failure on the vehicle listing yields exactly 500, with
/// the fetch-error message as the whole body.
pub proof fn law_vehicle_listing_failure(fetched: Result<Vec<Vehicle>, StoreFailure>, r: HttpReply)
    requires
        get_vehicles_post(fetched, r),
        fetched is Err,
    ensures
        r.status == STATUS_INTERNAL_ERROR,
        r.body matches ReplyBody::Message(m) && m@ == Woo2Err::ErrorDbFetch.message(),
{
}

/// Law: a store failure on the caller's vehicle listing yields exactly
/// 500, with the fetch-error message as the whole body.
pub proof fn law_caller_listing_failure(
    user_mobile: Option<String>,
    fetched: Result<Vec<Vehicle>, StoreFailure>,
    r: HttpReply,
)
    requires
        get_my_vehicles_post(user_mobile, fetched, r),
        fetched is Err,
    ensures
        r.status == STATUS_INTERNAL_ERROR,
        r.body matches ReplyBody::Message(m) && m@ == Woo2Err::ErrorDbFetch.message(),
{
}

/// Law: a store failure on the user create yields exactly 500, with the
/// registration-error message as the whole body, whatever the session
/// header held.
pub proof fn law_user_create_failure(
    session_id: Option<String>,
    outcome: Result<u64, StoreFailure>,
    r: HttpReply,
)
    requires
        add_user_post(session_id, outcome, r),
        outcome is Err,
    ensures
        r.status == STATUS_INTERNAL_ERROR,
        r.body matches ReplyBody::Message(m) && m@ == Woo2Err::ErrorDbAddValue.message(),
{
}

/// Law: a store failure on the vehicle create yields exactly 500, with the
/// registration-error message as the whole body.
pub proof fn law_vehicle_create_failure(outcome: Result<u64, StoreFailure>, r: HttpReply)
    requires
        add_vehicle_post(outcome, r),
        outcome is Err,
    ensures
        r.status == STATUS_INTERNAL_ERROR,
        r.body matches ReplyBody::Message(m) && m@ == Woo2Err::ErrorDbAddValue.message(),
{
}

} // verus!

