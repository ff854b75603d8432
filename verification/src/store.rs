//! A model of the relational store the handlers rely on: two collections
//! with store-assigned ids, one parameterized insert per collection, and
//! one select per listing shape. The contracts here are the persistence
//! gateway contract the handlers consume; the process boundary satisfies
//! it with a pooled relational connection.

use vstd::prelude::*;
use crate::entities::{User, Vehicle};

verus! {

/// A failed store call. The gateway reported an error; the handlers never
/// read its detail, only the fact of the failure.
#[derive(Debug, Clone, Copy, PartialEq, Eq, Structural)]
pub struct StoreFailure;

/// The store: every persisted row of both collections, plus the counters
/// from which ids are assigned on insert.
#[derive(Debug)]
pub struct Store {
    pub users: Vec<User>,
    pub vehicles: Vec<Vehicle>,
    pub next_user_id: i32,
    pub next_vehicle_id: i32,
}

/// Well-formedness of one collection's ids: each is store-assigned (at
/// least 1 and below the counter) and no two rows share one.
pub open spec fn wf_user_ids(users: Seq<User>, next_id: int) -> bool {
    &&& 1 <= next_id
    &&& forall|i: int| 0 <= i < users.len() ==> 1 <= #[trigger] users[i].id < next_id
    &&& forall|i: int, j: int|
        0 <= i < j < users.len() ==> #[trigger] users[i].id != #[trigger] users[j].id
}

/// Well-formedness of the vehicle collection's ids.
pub open spec fn wf_vehicle_ids(vehicles: Seq<Vehicle>, next_id: int) -> bool {
    &&& 1 <= next_id
    &&& forall|i: int| 0 <= i < vehicles.len() ==> 1 <= #[trigger] vehicles[i].id < next_id
    &&& forall|i: int, j: int|
        0 <= i < j < vehicles.len() ==> #[trigger] vehicles[i].id != #[trigger] vehicles[j].id
}

/// How an insert of a user payload relates the store before and after:
/// every prior row is kept, one row is appended whose `name` and `mobile`
/// are the payload's (its `id` field, if set, is ignored), the new row's
/// id is the counter, and nothing else changes.
pub open spec fn user_inserted(pre: Store, post: Store, payload: User) -> bool {
    &&& post.users@.len() == pre.users@.len() + 1
    &&& post.users@.drop_last() =~= pre.users@
    &&& post.users@.last().id == pre.next_user_id
    &&& post.users@.last().name@ == payload.name@
    &&& post.users@.last().mobile@ == payload.mobile@
    &&& post.next_user_id == pre.next_user_id + 1
    &&& post.vehicles@ =~= pre.vehicles@
    &&& post.next_vehicle_id == pre.next_vehicle_id
}

/// How an insert of a vehicle payload relates the store before and after:
/// every prior row is kept, one row is appended whose six non-id fields
/// are the payload's, the new row's id is the counter, and nothing else
/// changes.
pub open spec fn vehicle_inserted(pre: Store, post: Store, payload: Vehicle) -> bool {
    &&& post.vehicles@.len() == pre.vehicles@.len() + 1
    &&& post.vehicles@.drop_last() =~= pre.vehicles@
    &&& post.vehicles@.last().id == pre.next_vehicle_id
    &&& post.vehicles@.last().user_mobile@ == payload.user_mobile@
    &&& post.vehicles@.last().brand@ == payload.brand@
    &&& post.vehicles@.last().model@ == payload.model@
    &&& post.vehicles@.last().year@ == payload.year@
    &&& post.vehicles@.last().mileage_bits == payload.mileage_bits
    &&& post.vehicles@.last().post_date@ == payload.post_date@
    &&& post.next_vehicle_id == pre.next_vehicle_id + 1
    &&& post.users@ =~= pre.users@
    &&& post.next_user_id == pre.next_user_id
}

/// The rows of `s` whose `user_mobile` equals `m`, in order.
pub open spec fn filter_by_mobile(s: Seq<Vehicle>, m: Seq<char>) -> Seq<Vehicle>
    decreases s.len(),
{
    if s.len() == 0 {
        Seq::empty()
    } else if s.last().user_mobile@ == m {
        filter_by_mobile(s.drop_last(), m).push(s.last())
    } else {
        filter_by_mobile(s.drop_last(), m)
    }
}

impl Store {
    /// Both collections are well formed.
    pub open spec fn wf(self) -> bool {
        &&& wf_user_ids(self.users@, self.next_user_id as int)
        &&& wf_vehicle_ids(self.vehicles@, self.next_vehicle_id as int)
    }

    /// An empty store: no rows, both counters at their first value.
    pub fn new() -> (s: Store)
        ensures
            s.wf(),
            s.users@ =~= Seq::<User>::empty(),
            s.vehicles@ =~= Seq::<Vehicle>::empty(),
            s.next_user_id == 1,
            s.next_vehicle_id == 1,
    {
        Store { users: Vec::new(), vehicles: Vec::new(), next_user_id: 1, next_vehicle_id: 1 }
    }

    /// Parameterized insert into the user collection. The payload's `id`
    /// is ignored; the store assigns the next one. Returns the number of
    /// rows affected.
    pub fn insert_user(&mut self, new_user: &User) -> (rows: u64)
        requires
            old(self).wf(),
            old(self).next_user_id < i32::MAX,
        ensures
            final(self).wf(),
            user_inserted(*old(self), *final(self), *new_user),
            rows == 1,
    {
        let assigned = User {
            id: self.next_user_id,
            name: new_user.name.clone(),
            mobile: new_user.mobile.clone(),
        };
        self.users.push(assigned);
        self.next_user_id = self.next_user_id + 1;
        proof {
            lemma_insert_keeps_user_ids_wf(
                old(self).users@,
                self.users@,
                old(self).next_user_id as int,
            );
        }
        1
    }

    /// Parameterized insert into the vehicle collection. The payload's
    /// `id` is ignored; the store assigns the next one. Returns the
    /// number of rows affected.
    pub fn insert_vehicle(&mut self, new_vehicle: &Vehicle) -> (rows: u64)
        requires
            old(self).wf(),
            old(self).next_vehicle_id < i32::MAX,
        ensures
            final(self).wf(),
            vehicle_inserted(*old(self), *final(self), *new_vehicle),
            rows == 1,
    {
        let assigned = Vehicle {
            id: self.next_vehicle_id,
            user_mobile: new_vehicle.user_mobile.clone(),
            brand: new_vehicle.brand.clone(),
            model: new_vehicle.model.clone(),
            year: new_vehicle.year.clone(),
            mileage_bits: new_vehicle.mileage_bits,
            post_date: new_vehicle.post_date.clone(),
        };
        self.vehicles.push(assigned);
        self.next_vehicle_id = self.next_vehicle_id + 1;
        proof {
            lemma_insert_keeps_vehicle_ids_wf(
                old(self).vehicles@,
                self.vehicles@,
                old(self).next_vehicle_id as int,
            );
        }
        1
    }

    /// Unfiltered select over the user collection: every row, in
    /// store-natural order.
    pub fn select_users(&self) -> (r: Vec<User>)
        ensures
            r@ =~= self.users@,
    {
        let mut r: Vec<User> = Vec::new();
        let mut i: usize = 0;
        while i < self.users.len()
            invariant
                i <= self.users.len(),
                r@ =~= self.users@.take(i as int),
            decreases self.users.len() - i,
        {
            r.push(self.users[i].duplicate());
            i = i + 1;
        }
        r
    }

    /// Unfiltered select over the vehicle collection: every row, in
    /// store-natural order.
    pub fn select_vehicles(&self) -> (r: Vec<Vehicle>)
        ensures
            r@ =~= self.vehicles@,
    {
        let mut r: Vec<Vehicle> = Vec::new();
        let mut i: usize = 0;
        while i < self.vehicles.len()
            invariant
                i <= self.vehicles.len(),
                r@ =~= self.vehicles@.take(i as int),
            decreases self.vehicles.len() - i,
        {
            r.push(self.vehicles[i].duplicate());
            i = i + 1;
        }
        r
    }

    /// Select over the vehicle collection filtered by an equality test on
    /// `user_mobile`. An absent filter value matches no row: in the
    /// relational store an equality comparison against a missing value
    /// never holds, so the caller-without-a-header path lists nothing.
    pub fn select_vehicles_by_mobile(&self, user_mobile: Option<&String>) -> (r: Vec<Vehicle>)
        ensures
            match user_mobile {
                Some(m) => r@ =~= filter_by_mobile(self.vehicles@, m@),
                None => r@ =~= Seq::<Vehicle>::empty(),
            },
    {
        let mut r: Vec<Vehicle> = Vec::new();
        match user_mobile {
            None => r,
            Some(m) => {
                let mut i: usize = 0;
                while i < self.vehicles.len()
                    invariant
                        i <= self.vehicles.len(),
                        r@ =~= filter_by_mobile(self.vehicles@.take(i as int), m@),
                    decreases self.vehicles.len() - i,
                {
                    proof {
                        assert(self.vehicles@.take(i + 1).drop_last() =~= self.vehicles@.take(
                            i as int,
                        ));
                        assert(self.vehicles@.take(i + 1).last() == self.vehicles@[i as int]);
                    }
                    if self.vehicles[i].user_mobile == *m {
                        r.push(self.vehicles[i].duplicate());
                    }
                    i = i + 1;
                }
                proof {
                    assert(self.vehicles@.take(self.vehicles@.len() as int) =~= self.vehicles@);
                }
                r
            },
        }
    }
}

/// Appending one row whose id is the old counter, then bumping the
/// counter, keeps the user ids well formed.
proof fn lemma_insert_keeps_user_ids_wf(pre: Seq<User>, post: Seq<User>, assigned: int)
    requires
        wf_user_ids(pre, assigned),
        post.len() == pre.len() + 1,
        post.drop_last() =~= pre,
        post.last().id == assigned,
    ensures
        wf_user_ids(post, assigned + 1),
{
    assert forall|i: int| 0 <= i < post.len() implies 1 <= #[trigger] post[i].id < assigned + 1 by {
        if i < pre.len() {
            assert(post[i] == pre[i]);
        }
    }
    assert forall|i: int, j: int| 0 <= i < j < post.len() implies #[trigger] post[i].id
        != #[trigger] post[j].id by {
        if j < pre.len() {
            assert(post[i] == pre[i]);
            assert(post[j] == pre[j]);
        } else {
            assert(post[i] == pre[i]);
            assert(pre[i].id < assigned);
        }
    }
}

/// Appending one row whose id is the old counter, then bumping the
/// counter, keeps the vehicle ids well formed.
proof fn lemma_insert_keeps_vehicle_ids_wf(pre: Seq<Vehicle>, post: Seq<Vehicle>, assigned: int)
    requires
        wf_vehicle_ids(pre, assigned),
        post.len() == pre.len() + 1,
        post.drop_last() =~= pre,
        post.last().id == assigned,
    ensures
        wf_vehicle_ids(post, assigned + 1),
{
    assert forall|i: int| 0 <= i < post.len() implies 1 <= #[trigger] post[i].id < assigned
        + 1 by {
        if i < pre.len() {
            assert(post[i] == pre[i]);
        }
    }
    assert forall|i: int, j: int| 0 <= i < j < post.len() implies #[trigger] post[i].id
        != #[trigger] post[j].id by {
        if j < pre.len() {
            assert(post[i] == pre[i]);
            assert(post[j] == pre[j]);
        } else {
            assert(post[i] == pre[i]);
            assert(pre[i].id < assigned);
        }
    }
}

/// Law: creating a user and then listing the users yields every prior row
/// unchanged plus exactly one new row, whose `name` and `mobile` are the
/// created payload's and whose `id` is store-assigned and distinct from
/// every id already listed.
pub proof fn law_user_create_then_list(pre: Store, post: Store, payload: User, listed: Seq<User>)
    requires
        pre.wf(),
        user_inserted(pre, post, payload),
        listed =~= post.users@,
    ensures
        listed.len() == pre.users@.len() + 1,
        listed.last().name@ == payload.name@,
        listed.last().mobile@ == payload.mobile@,
        listed.last().id == pre.next_user_id,
        forall|i: int| 0 <= i < pre.users@.len() ==> #[trigger] listed[i] == pre.users@[i],
        forall|i: int| 0 <= i < listed.len() - 1 ==> #[trigger] listed[i].id != listed.last().id,
{
    assert forall|i: int| 0 <= i < pre.users@.len() implies #[trigger] listed[i]
        == pre.users@[i] by {
        assert(post.users@.drop_last()[i] == pre.users@[i]);
    }
    assert forall|i: int| 0 <= i < listed.len() - 1 implies #[trigger] listed[i].id
        != listed.last().id by {
        assert(listed[i] == pre.users@[i]);
        assert(pre.users@[i].id < pre.next_user_id);
    }
}

/// Law: creating a vehicle and then listing the vehicles (unfiltered)
/// yields every prior row unchanged plus exactly one new row matching
/// every field of the created payload, with a store-assigned id distinct
/// from every id already listed.
pub proof fn law_vehicle_create_then_list(
    pre: Store,
    post: Store,
    payload: Vehicle,
    listed: Seq<Vehicle>,
)
    requires
        pre.wf(),
        vehicle_inserted(pre, post, payload),
        listed =~= post.vehicles@,
    ensures
        listed.len() == pre.vehicles@.len() + 1,
        listed.last().user_mobile@ == payload.user_mobile@,
        listed.last().brand@ == payload.brand@,
        listed.last().model@ == payload.model@,
        listed.last().year@ == payload.year@,
        listed.last().mileage_bits == payload.mileage_bits,
        listed.last().post_date@ == payload.post_date@,
        listed.last().id == pre.next_vehicle_id,
        forall|i: int| 0 <= i < pre.vehicles@.len() ==> #[trigger] listed[i] == pre.vehicles@[i],
        forall|i: int| 0 <= i < listed.len() - 1 ==> #[trigger] listed[i].id != listed.last().id,
{
    assert forall|i: int| 0 <= i < pre.vehicles@.len() implies #[trigger] listed[i]
        == pre.vehicles@[i] by {
        assert(post.vehicles@.drop_last()[i] == pre.vehicles@[i]);
    }
    assert forall|i: int| 0 <= i < listed.len() - 1 implies #[trigger] listed[i].id
        != listed.last().id by {
        assert(listed[i] == pre.vehicles@[i]);
        assert(pre.vehicles@[i].id < pre.next_vehicle_id);
    }
}

/// Law: the filtered listing is exactly the subset of rows whose
/// `user_mobile` equals the filter value, and nothing else — every listed
/// row matches and comes from the population, and every matching row of
/// the population is listed.
pub proof fn law_filter_by_mobile_exact(s: Seq<Vehicle>, m: Seq<char>)
    ensures
        forall|i: int|
            0 <= i < filter_by_mobile(s, m).len() ==> #[trigger] filter_by_mobile(
                s,
                m,
            )[i].user_mobile@ == m,
        forall|v: Vehicle| #[trigger] filter_by_mobile(s, m).contains(v) ==> s.contains(v),
        forall|v: Vehicle|
            s.contains(v) && v.user_mobile@ == m ==> #[trigger] filter_by_mobile(s, m).contains(v),
    decreases s.len(),
{
    if s.len() == 0 {
    } else {
        let rest = s.drop_last();
        law_filter_by_mobile_exact(rest, m);
        assert forall|v: Vehicle| #[trigger] filter_by_mobile(s, m).contains(v) implies s.contains(
            v,
        ) by {
            if filter_by_mobile(rest, m).contains(v) {
                let i = choose|i: int|
                    0 <= i < filter_by_mobile(rest, m).len() && filter_by_mobile(rest, m)[i] == v;
                assert(rest.contains(v));
                let j = choose|j: int| 0 <= j < rest.len() && rest[j] == v;
                assert(s[j] == v);
            } else {
                assert(s.last().user_mobile@ == m && v == s.last());
                assert(s[s.len() - 1] == v);
            }
        }
        assert forall|v: Vehicle| s.contains(v) && v.user_mobile@ == m implies #[trigger]
        filter_by_mobile(s, m).contains(v) by {
            let i = choose|i: int| 0 <= i < s.len() && s[i] == v;
            if i < s.len() - 1 {
                assert(rest[i] == v);
                assert(rest.contains(v));
                assert(filter_by_mobile(rest, m).contains(v));
                let j = choose|j: int|
                    0 <= j < filter_by_mobile(rest, m).len() && filter_by_mobile(rest, m)[j] == v;
                assert(filter_by_mobile(s, m)[j] == v);
            } else {
                assert(v == s.last());
                assert(filter_by_mobile(s, m).last() == v);
            }
        }
    }
}

} // verus!
