//! The table of places, in memory: what the handlers expect of a store.
//!
//! Rows are numbered by the table, from 1 upwards and never twice. A row is
//! made by an insert, changed field by field by an update, and removed by a
//! delete; nothing else touches it.
//!
//! The handlers themselves never hold a table: they are handed what a store
//! answered. This one says, in a form that can be run and reasoned about, what
//! those answers are taken to mean, and the laws at the end of the file are
//! stated over it.

use crate::handlers::places::{
    is_delete_reply, is_place_for, shows, PlaceResponse, UpdatePlaceRequest,
};
use crate::http::{Reply, NOT_FOUND};
use crate::models::{copy_text, NewPlace, NewPlaceRequest, Place, Timestamp};
use bigdecimal::BigDecimal;
use vstd::prelude::*;

verus! {

/// Why the store did not answer a question.
#[derive(Debug, Clone, Copy, PartialEq, Eq)]
pub enum StoreError {
    /// No connection to the store could be had.
    Connection,
    /// The store refused the statement or failed to run it.
    Query,
}

/// `i` is where the row numbered `id` stands.
pub open spec fn is_position(rows: Seq<Place>, id: i32, i: int) -> bool {
    0 <= i < rows.len() && rows[i].id == id
}

/// There is a row numbered `id`.
pub open spec fn holds(rows: Seq<Place>, id: i32) -> bool {
    exists|i: int| is_position(rows, id, i)
}

/// Where the row numbered `id` stands.
pub open spec fn position(rows: Seq<Place>, id: i32) -> int {
    choose|i: int| is_position(rows, id, i)
}

/// The row numbered `id`.
pub open spec fn found(rows: Seq<Place>, id: i32) -> Option<Place> {
    if holds(rows, id) {
        Some(rows[position(rows, id)])
    } else {
        None
    }
}

/// Rows are numbered from 1, below `next_id`, and in rising order: no number
/// occurs twice.
pub open spec fn well_numbered(rows: Seq<Place>, next_id: int) -> bool {
    &&& 1 <= next_id <= i32::MAX
    &&& forall|i: int| 0 <= i < rows.len() ==> 1 <= (#[trigger] rows[i]).id < next_id
    &&& forall|i: int, j: int|
        0 <= i < j < rows.len() ==> (#[trigger] rows[i]).id < (#[trigger] rows[j]).id
}

/// Whether the store takes `place`: both coordinates are needed.
pub open spec fn storable(place: NewPlace) -> bool {
    place.latitude is Some && place.longitude is Some
}

/// The row that the store makes of `place` under the number `id` at the
/// instant `now`.
pub open spec fn row_of(place: NewPlace, id: i32, now: Timestamp) -> Place
    recommends
        storable(place),
{
    Place {
        id,
        user_id: place.user_id,
        title: place.title,
        description: place.description,
        latitude: place.latitude->0,
        longitude: place.longitude->0,
        plans: place.plans,
        category: Some(place.category),
        hotels: place.hotels,
        restaurants: place.restaurants,
        image_uri: place.image_uri,
        address: place.address,
        created_at: Some(now),
    }
}

/// A value after a change: the new one where one is supplied, the old one
/// where none is.
pub open spec fn replaced<T>(old_value: T, new_value: Option<T>) -> T {
    match new_value {
        Some(v) => v,
        None => old_value,
    }
}

/// An optional value after a change: the new one where one is supplied, the
/// old one where none is.
pub open spec fn replaced_optional<T>(old_value: Option<T>, new_value: Option<T>) -> Option<T> {
    match new_value {
        Some(v) => Some(v),
        None => old_value,
    }
}

/// A row after a change: the fields that `changes` supplies take the supplied
/// values, every other field stays as it is. The number, the owner and the
/// creation time cannot be changed.
pub open spec fn changed(place: Place, changes: UpdatePlaceRequest) -> Place {
    Place {
        id: place.id,
        user_id: place.user_id,
        title: replaced(place.title, changes.title),
        description: replaced_optional(place.description, changes.description),
        latitude: replaced(place.latitude, changes.latitude),
        longitude: replaced(place.longitude, changes.longitude),
        plans: replaced_optional(place.plans, changes.plans),
        category: replaced_optional(place.category, changes.category),
        hotels: replaced_optional(place.hotels, changes.hotels),
        restaurants: replaced_optional(place.restaurants, changes.restaurants),
        image_uri: replaced_optional(place.image_uri, changes.image_uri),
        address: replaced_optional(place.address, changes.address),
        created_at: place.created_at,
    }
}

/// Whether a change supplies no field at all. The store refuses such a
/// change: a statement that sets nothing is no statement.
pub open spec fn supplies_nothing(changes: UpdatePlaceRequest) -> bool {
    &&& changes.title is None
    &&& changes.description is None
    &&& changes.latitude is None
    &&& changes.longitude is None
    &&& changes.plans is None
    &&& changes.category is None
    &&& changes.hotels is None
    &&& changes.restaurants is None
    &&& changes.image_uri is None
    &&& changes.address is None
}

/// The rows after the row numbered `id` was changed.
pub open spec fn after_update(rows: Seq<Place>, id: i32, changes: UpdatePlaceRequest) -> Seq<
    Place,
> {
    if holds(rows, id) {
        rows.update(position(rows, id), changed(rows[position(rows, id)], changes))
    } else {
        rows
    }
}

/// The rows after the row numbered `id` was deleted.
pub open spec fn after_delete(rows: Seq<Place>, id: i32) -> Seq<Place> {
    if holds(rows, id) {
        rows.remove(position(rows, id))
    } else {
        rows
    }
}

/// How many rows a statement on the row numbered `id` touches.
pub open spec fn touched(rows: Seq<Place>, id: i32) -> usize {
    if holds(rows, id) {
        1
    } else {
        0
    }
}

/// Whether a row is in the category with the given name.
pub open spec fn in_category(place: Place, category: Seq<char>) -> bool {
    place.category matches Some(c) && c@ == category
}

/// The rows that a listing gives: all of them, or those of one category, in
/// the table's order.
pub open spec fn listed(rows: Seq<Place>, category: Option<Seq<char>>) -> Seq<Place> {
    match category {
        Some(name) => rows.filter(|p: Place| in_category(p, name)),
        None => rows,
    }
}

/// In a well-numbered table a number stands at one position only.
pub proof fn lemma_position_is_one(rows: Seq<Place>, next_id: int, id: i32, i: int)
    requires
        well_numbered(rows, next_id),
        is_position(rows, id, i),
    ensures
        holds(rows, id),
        position(rows, id) == i,
{
    let k = position(rows, id);
    if k < i {
        assert(rows[k].id < rows[i].id);
    } else if i < k {
        assert(rows[i].id < rows[k].id);
    }
}

/// A copy of a row.
pub fn copy_place(place: &Place) -> (r: Place)
    ensures
        r == *place,
{
    Place {
        id: place.id,
        user_id: place.user_id.clone(),
        title: place.title.clone(),
        description: copy_text(&place.description),
        latitude: place.latitude.clone(),
        longitude: place.longitude.clone(),
        plans: copy_text(&place.plans),
        category: copy_text(&place.category),
        hotels: copy_text(&place.hotels),
        restaurants: copy_text(&place.restaurants),
        image_uri: copy_text(&place.image_uri),
        address: copy_text(&place.address),
        created_at: place.created_at,
    }
}

fn new_text(old_value: &String, new_value: &Option<String>) -> (r: String)
    ensures
        r == replaced(*old_value, *new_value),
{
    match new_value {
        Some(v) => v.clone(),
        None => old_value.clone(),
    }
}

fn new_optional_text(old_value: &Option<String>, new_value: &Option<String>) -> (r: Option<String>)
    ensures
        r == replaced_optional(*old_value, *new_value),
{
    match new_value {
        Some(v) => Some(v.clone()),
        None => copy_text(old_value),
    }
}

fn new_decimal(old_value: &BigDecimal, new_value: &Option<BigDecimal>) -> (r: BigDecimal)
    ensures
        r == replaced(*old_value, *new_value),
{
    match new_value {
        Some(v) => v.clone(),
        None => old_value.clone(),
    }
}

/// Applies a change to a row: supplied fields are replaced, the others kept.
pub fn apply_changes(place: &Place, changes: &UpdatePlaceRequest) -> (r: Place)
    ensures
        r == changed(*place, *changes),
{
    Place {
        id: place.id,
        user_id: place.user_id.clone(),
        title: new_text(&place.title, &changes.title),
        description: new_optional_text(&place.description, &changes.description),
        latitude: new_decimal(&place.latitude, &changes.latitude),
        longitude: new_decimal(&place.longitude, &changes.longitude),
        plans: new_optional_text(&place.plans, &changes.plans),
        category: new_optional_text(&place.category, &changes.category),
        hotels: new_optional_text(&place.hotels, &changes.hotels),
        restaurants: new_optional_text(&place.restaurants, &changes.restaurants),
        image_uri: new_optional_text(&place.image_uri, &changes.image_uri),
        address: new_optional_text(&place.address, &changes.address),
        created_at: place.created_at,
    }
}

/// Whether a change supplies no field at all.
pub fn is_empty_change(changes: &UpdatePlaceRequest) -> (r: bool)
    ensures
        r == supplies_nothing(*changes),
{
    changes.title.is_none() && changes.description.is_none() && changes.latitude.is_none()
        && changes.longitude.is_none() && changes.plans.is_none() && changes.category.is_none()
        && changes.hotels.is_none() && changes.restaurants.is_none()
        && changes.image_uri.is_none() && changes.address.is_none()
}

/// The table of places.
pub struct PlaceTable {
    rows: Vec<Place>,
    next_id: i32,
}

impl PlaceTable {
    /// The rows, in the order of their numbers.
    pub closed spec fn view(&self) -> Seq<Place> {
        self.rows@
    }

    /// The number that the next row gets.
    pub closed spec fn next_id(&self) -> int {
        self.next_id as int
    }

    /// The table's invariant: its rows are well numbered.
    pub open spec fn wf(&self) -> bool {
        well_numbered(self@, self.next_id())
    }

    /// An empty table, whose first row will be number 1.
    pub fn new() -> (table: PlaceTable)
        ensures
            table.wf(),
            table@ == Seq::<Place>::empty(),
            table.next_id() == 1,
    {
        PlaceTable { rows: Vec::new(), next_id: 1 }
    }

    /// Where the row numbered `id` stands.
    fn index_of(&self, id: i32) -> (r: Option<usize>)
        requires
            self.wf(),
        ensures
            match r {
                Some(i) => holds(self@, id) && position(self@, id) == i,
                None => !holds(self@, id),
            },
    {
        let mut i: usize = 0;
        while i < self.rows.len()
            invariant
                i <= self.rows.len(),
                self.wf(),
                forall|j: int| 0 <= j < i ==> (#[trigger] self.rows@[j]).id != id,
            decreases self.rows.len() - i,
        {
            if self.rows[i].id == id {
                proof {
                    lemma_position_is_one(self@, self.next_id(), id, i as int);
                }
                return Some(i);
            }
            i = i + 1;
        }
        None
    }

    /// Stores a place at the instant `now` and returns its number.
    ///
    /// The row holds the fields of `place` unchanged, the next free number and
    /// `now` as its creation time. The store refuses, and stays as it is,
    /// exactly when a coordinate is missing or the numbers have run out.
    pub fn insert(&mut self, place: NewPlace, now: Timestamp) -> (r: Result<i32, StoreError>)
        requires
            old(self).wf(),
        ensures
            final(self).wf(),
            match r {
                Ok(id) => {
                    &&& storable(place)
                    &&& id == old(self).next_id()
                    &&& final(self).next_id() == id + 1
                    &&& final(self)@ == old(self)@.push(row_of(place, id, now))
                },
                Err(e) => {
                    &&& e == StoreError::Query
                    &&& !storable(place) || old(self).next_id() == i32::MAX
                    &&& final(self)@ == old(self)@
                    &&& final(self).next_id() == old(self).next_id()
                },
            },
    {
        if self.next_id == i32::MAX {
            return Err(StoreError::Query);
        }
        match (place.latitude, place.longitude) {
            (Some(latitude), Some(longitude)) => {
                let id = self.next_id;
                let row = Place {
                    id,
                    user_id: place.user_id,
                    title: place.title,
                    description: place.description,
                    latitude,
                    longitude,
                    plans: place.plans,
                    category: Some(place.category),
                    hotels: place.hotels,
                    restaurants: place.restaurants,
                    image_uri: place.image_uri,
                    address: place.address,
                    created_at: Some(now),
                };
                self.rows.push(row);
                self.next_id = id + 1;
                Ok(id)
            },
            _ => Err(StoreError::Query),
        }
    }

    /// The row numbered `id`, where there is one.
    pub fn find(&self, id: i32) -> (r: Option<Place>)
        requires
            self.wf(),
        ensures
            r == found(self@, id),
    {
        match self.index_of(id) {
            Some(i) => Some(copy_place(&self.rows[i])),
            None => None,
        }
    }

    /// The rows of one category, or all rows, in the order of their numbers.
    pub fn list(&self, category: Option<&str>) -> (r: Vec<Place>)
        requires
            self.wf(),
        ensures
            r@ == listed(
                self@,
                match category {
                    Some(name) => Some(name@),
                    None => None,
                },
            ),
    {
        let wanted: Option<String> = match category {
            Some(name) => Some(name.to_owned()),
            None => None,
        };
        let ghost wanted_text: Option<Seq<char>> = match category {
            Some(name) => Some(name@),
            None => None,
        };
        let mut out: Vec<Place> = Vec::new();
        let mut i: usize = 0;
        while i < self.rows.len()
            invariant
                i <= self.rows.len(),
                wanted_text == match wanted {
                    Some(name) => Some(name@),
                    None => None,
                },
                out@ == listed(self.rows@.take(i as int), wanted_text),
            decreases self.rows.len() - i,
        {
            let row = &self.rows[i];
            let wanted_row = match &wanted {
                Some(name) => match &row.category {
                    Some(c) => *c == *name,
                    None => false,
                },
                None => true,
            };
            proof {
                self.rows@.lemma_take_succ_push(i as int);
                if let Some(name) = wanted_text {
                    self.rows@.take(i as int).lemma_filter_push(
                        self.rows@[i as int],
                        |p: Place| in_category(p, name),
                    );
                }
            }
            if wanted_row {
                out.push(copy_place(row));
            }
            i = i + 1;
        }
        proof {
            self.rows@.lemma_take_len();
        }
        out
    }

    /// Changes the row numbered `id` and returns how many rows were touched:
    /// one where there is such a row, none where there is not.
    ///
    /// In the row, each field that `changes` supplies takes the supplied
    /// value and every other field stays as it is. No other row changes. The
    /// store refuses, and stays as it is, exactly when `changes` supplies no
    /// field.
    pub fn update(&mut self, id: i32, changes: &UpdatePlaceRequest) -> (r: Result<
        usize,
        StoreError,
    >)
        requires
            old(self).wf(),
        ensures
            final(self).wf(),
            final(self).next_id() == old(self).next_id(),
            match r {
                Ok(rows) => {
                    &&& !supplies_nothing(*changes)
                    &&& final(self)@ == after_update(old(self)@, id, *changes)
                    &&& rows == touched(old(self)@, id)
                },
                Err(e) => {
                    &&& e == StoreError::Query
                    &&& supplies_nothing(*changes)
                    &&& final(self)@ == old(self)@
                },
            },
    {
        if is_empty_change(changes) {
            return Err(StoreError::Query);
        }
        match self.index_of(id) {
            Some(i) => {
                let row = apply_changes(&self.rows[i], changes);
                self.rows[i] = row;
                Ok(1)
            },
            None => Ok(0),
        }
    }

    /// Deletes the row numbered `id` and returns how many rows were removed:
    /// one where there was such a row, none where there was not.
    pub fn delete(&mut self, id: i32) -> (rows: usize)
        requires
            old(self).wf(),
        ensures
            final(self).wf(),
            final(self)@ == after_delete(old(self)@, id),
            final(self).next_id() == old(self).next_id(),
            rows == touched(old(self)@, id),
    {
        match self.index_of(id) {
            Some(i) => {
                self.rows.remove(i);
                1
            },
            None => 0,
        }
    }
}

/// A place that was created is found under its number, and what a client is
/// then shown holds the values that the client sent: every text as sent, the
/// coordinates as the same decimals, the owner as given.
///
/// `rows` and `next_id` are the table before the insert, `place` is what the
/// first step of the request made of `request` for `owner`, and `shown` is
/// any answer that shows the stored row.
pub proof fn law_created_place_reads_back(
    rows: Seq<Place>,
    next_id: i32,
    request: NewPlaceRequest,
    owner: Seq<char>,
    place: NewPlace,
    now: Timestamp,
    shown: PlaceResponse,
)
    requires
        well_numbered(rows, next_id as int),
        next_id < i32::MAX,
        is_place_for(place, request, owner),
        storable(place),
        found(rows.push(row_of(place, next_id, now)), next_id) matches Some(row) && shows(
            shown,
            row,
        ),
    ensures
        well_numbered(rows.push(row_of(place, next_id, now)), next_id + 1),
        found(rows.push(row_of(place, next_id, now)), next_id) == Some(row_of(place, next_id, now)),
        shown.id == next_id,
        shown.user_id@ == owner,
        shown.title == request.title,
        shown.description == request.description,
        Some(shown.latitude) == request.latitude,
        Some(shown.longitude) == request.longitude,
        shown.plans == request.plans,
        shown.category == Some(request.category),
        shown.hotels == request.hotels,
        shown.restaurants == request.restaurants,
        shown.image_uri == request.image_uri,
        shown.address == request.address,
{
    let row = row_of(place, next_id, now);
    let after = rows.push(row);
    assert(well_numbered(after, next_id + 1));
    assert(is_position(after, next_id, rows.len() as int));
    lemma_position_is_one(after, next_id + 1, next_id, rows.len() as int);
}

/// Deleting a place that is not there removes nothing, leaves the table as
/// it is, and is answered with 404 `Place not found`: a missing place is no
/// failure of the server.
pub proof fn law_deleting_a_missing_place(rows: Seq<Place>, id: i32, reply: Reply)
    requires
        !holds(rows, id),
        is_delete_reply(reply, Ok(touched(rows, id))),
    ensures
        touched(rows, id) == 0,
        after_delete(rows, id) == rows,
        reply.is_error(NOT_FOUND, "Place not found"@),
{
}

/// An update changes the fields it supplies and nothing else: in the row it
/// names, a supplied field takes the supplied value and an omitted field
/// keeps the stored one; number, owner and creation time stay; every other
/// row stays as it is, and no row comes or goes.
pub proof fn law_update_changes_supplied_fields_only(
    rows: Seq<Place>,
    next_id: int,
    id: i32,
    changes: UpdatePlaceRequest,
)
    requires
        well_numbered(rows, next_id),
        holds(rows, id),
    ensures
        well_numbered(after_update(rows, id, changes), next_id),
        after_update(rows, id, changes).len() == rows.len(),
        forall|i: int|
            0 <= i < rows.len() && rows[i].id != id ==> #[trigger] after_update(
                rows,
                id,
                changes,
            )[i] == rows[i],
        found(after_update(rows, id, changes), id) == Some(changed(found(rows, id)->0, changes)),
        ({
            let before = found(rows, id)->0;
            let after = found(after_update(rows, id, changes), id)->0;
            &&& after.id == before.id
            &&& after.user_id == before.user_id
            &&& after.created_at == before.created_at
            &&& after.title == if changes.title is Some {
                changes.title->0
            } else {
                before.title
            }
            &&& after.latitude == if changes.latitude is Some {
                changes.latitude->0
            } else {
                before.latitude
            }
            &&& after.longitude == if changes.longitude is Some {
                changes.longitude->0
            } else {
                before.longitude
            }
            &&& after.description == if changes.description is Some {
                changes.description
            } else {
                before.description
            }
            &&& after.plans == if changes.plans is Some {
                changes.plans
            } else {
                before.plans
            }
            &&& after.category == if changes.category is Some {
                changes.category
            } else {
                before.category
            }
            &&& after.hotels == if changes.hotels is Some {
                changes.hotels
            } else {
                before.hotels
            }
            &&& after.restaurants == if changes.restaurants is Some {
                changes.restaurants
            } else {
                before.restaurants
            }
            &&& after.image_uri == if changes.image_uri is Some {
                changes.image_uri
            } else {
                before.image_uri
            }
            &&& after.address == if changes.address is Some {
                changes.address
            } else {
                before.address
            }
        }),
{
    let at = position(rows, id);
    let after = after_update(rows, id, changes);
    assert(is_position(after, id, at));
    assert(well_numbered(after, next_id));
    lemma_position_is_one(after, next_id, id, at);
}

} // verus!
