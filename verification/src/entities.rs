//! Entity schemas of the two collections and their listing envelopes.
//! A listing reply wraps the rows in a named field rather than returning a
//! bare array; that shape is part of the wire contract.

use vstd::prelude::*;

verus! {

/// One row of the user collection. `id` is store-assigned on insert; the
/// service never assigns or validates it on create.
#[derive(Debug)]
pub struct User {
    pub id: i32,
    pub name: String,
    pub mobile: String,
}

/// One row of the vehicle collection. `id` is store-assigned on insert.
/// `year` and `post_date` are deliberately plain strings: the service does
/// not validate them as numbers or dates. `mileage_bits` carries the bit
/// pattern of the 32-bit floating-point mileage reading; the numeric value
/// is produced and consumed only at the process boundary, since the core
/// never computes with it.
#[derive(Debug)]
pub struct Vehicle {
    pub id: i32,
    pub user_mobile: String,
    pub brand: String,
    pub model: String,
    pub year: String,
    pub mileage_bits: u32,
    pub post_date: String,
}

/// Listing envelope for users: the wire contract names the field
/// `UserList_Rec`.
#[derive(Debug)]
pub struct ResponseWrapper {
    pub user_list: Vec<User>,
}

/// Listing envelope for vehicles: the wire contract names the field
/// `VehicleList_Rec`.
#[derive(Debug)]
pub struct ResponseVehicleWrapper {
    pub vehicle_list: Vec<Vehicle>,
}

impl User {
    /// A field-for-field copy.
    pub fn duplicate(&self) -> (r: User)
        ensures
            r == *self,
    {
        User { id: self.id, name: self.name.clone(), mobile: self.mobile.clone() }
    }
}

impl Vehicle {
    /// A field-for-field copy.
    pub fn duplicate(&self) -> (r: Vehicle)
        ensures
            r == *self,
    {
        Vehicle {
            id: self.id,
            user_mobile: self.user_mobile.clone(),
            brand: self.brand.clone(),
            model: self.model.clone(),
            year: self.year.clone(),
            mileage_bits: self.mileage_bits,
            post_date: self.post_date.clone(),
        }
    }
}

} // verus!
