//! Shelters: the rules of the shelter handlers.

use crate::records::{
    header_id, id_from_header, is_object_id, require_object_id, FetchOutcome, HeaderId,
    InsertOutcome, WriteOutcome,
};
use crate::reply::{
    refusal, refusal_view, refuse, refuse_with, succeeded_with, success_response, Refusal,
    RefusalView, Reply, BAD_REQUEST, CREATED, INTERNAL_SERVER_ERROR, NOT_FOUND, OK,
};
use crate::text::{blank, is_blank};
use vstd::prelude::*;

verus! {

/// A shelter.
#[derive(Debug, Clone)]
pub struct Shelter {
    pub name: String,
    pub capacity: u32,
    pub available_beds: u32,
    pub street: String,
    pub district: String,
    pub state: String,
    pub country: String,
}

/// Whether one of the shelter's texts is blank.
pub open spec fn has_blank_text(shelter: Shelter) -> bool {
    blank(shelter.name@) || blank(shelter.street@) || blank(shelter.district@) || blank(
        shelter.state@,
    ) || blank(shelter.country@)
}

/// Why a new shelter is turned down, if it is. The first rule it breaks
/// decides.
pub open spec fn new_shelter_refusal(shelter: Shelter) -> Option<RefusalView> {
    if has_blank_text(shelter) {
        Some(refusal(BAD_REQUEST, "All text fields must be non-empty"@))
    } else if shelter.capacity == 0 {
        Some(refusal(BAD_REQUEST, "Capacity must be greater than zero"@))
    } else if shelter.available_beds > shelter.capacity {
        Some(refusal(BAD_REQUEST, "Available beds cannot exceed total capacity"@))
    } else {
        None
    }
}

/// Checks a shelter that is to be created: no text may be blank, it must
/// have room, and no more beds may be free than it has.
pub fn create_shelter_service(shelter: &Shelter) -> (r: Result<(), Refusal>)
    ensures
        refusal_view(r) == new_shelter_refusal(*shelter),
{
    if is_blank(shelter.name.as_str()) || is_blank(shelter.street.as_str()) || is_blank(
        shelter.district.as_str(),
    ) || is_blank(shelter.state.as_str()) || is_blank(shelter.country.as_str()) {
        return Err(refuse(BAD_REQUEST, "All text fields must be non-empty"));
    }
    if shelter.capacity == 0 {
        return Err(refuse(BAD_REQUEST, "Capacity must be greater than zero"));
    }
    if shelter.available_beds > shelter.capacity {
        return Err(refuse(BAD_REQUEST, "Available beds cannot exceed total capacity"));
    }
    Ok(())
}

/// Takes the identifier of the shelter to remove from the request.
pub fn delete_shelter_service(header: HeaderId) -> (r: Result<String, Refusal>)
    ensures
        crate::reply::text_or_refusal(r) == header_id(header),
{
    id_from_header(header)
}

/// What updating a shelter works on, or why it does not start.
pub open spec fn shelter_update(shelter: Shelter, header: HeaderId) -> Result<
    Seq<char>,
    RefusalView,
> {
    if shelter.available_beds > shelter.capacity {
        Err(refusal(BAD_REQUEST, "Available beds cannot exceed total capacity"@))
    } else {
        header_id(header)
    }
}

/// Checks a shelter that is to replace a stored one, and takes the
/// identifier of that one from the request.
pub fn update_shelter_service(shelter: &Shelter, header: HeaderId) -> (r: Result<String, Refusal>)
    ensures
        crate::reply::text_or_refusal(r) == shelter_update(*shelter, header),
{
    if shelter.available_beds > shelter.capacity {
        return Err(refuse(BAD_REQUEST, "Available beds cannot exceed total capacity"));
    }
    id_from_header(header)
}

/// Turns a new shelter down where one of its name is stored already.
pub fn check_new_shelter(stored: bool) -> (r: Result<(), Refusal>)
    ensures
        refusal_view(r) == if stored {
            Some(refusal(BAD_REQUEST, "Shelter already present"@))
        } else {
            None
        },
{
    if stored {
        Err(refuse(BAD_REQUEST, "Shelter already present"))
    } else {
        Ok(())
    }
}

/// Answers the creation of a shelter once the store was asked to insert it.
/// The answer carries the identifier the store gave.
pub fn create_shelters(inserted: InsertOutcome) -> (r: Result<Reply<String>, Refusal>)
    ensures
        match inserted {
            InsertOutcome::Inserted(Some(id)) => r matches Ok(reply) && succeeded_with(
                reply,
                CREATED,
                "Shelter created successfully"@,
            ) && reply.body.data@ == id@,
            InsertOutcome::Inserted(None) => refusal_view(r) == Some(
                refusal(INTERNAL_SERVER_ERROR, "Failed to retrieve inserted ID"@),
            ),
            InsertOutcome::Failed(why) => refusal_view(r) == Some(
                refusal(INTERNAL_SERVER_ERROR, "Database error: "@ + why@),
            ),
        },
{
    match inserted {
        InsertOutcome::Inserted(Some(id)) => Ok(
            success_response("Shelter created successfully", id, CREATED),
        ),
        InsertOutcome::Inserted(None) => Err(
            refuse(INTERNAL_SERVER_ERROR, "Failed to retrieve inserted ID"),
        ),
        InsertOutcome::Failed(why) => Err(
            refuse_with(INTERNAL_SERVER_ERROR, "Database error: ", why.as_str()),
        ),
    }
}

/// Answers the listing of the shelters. Shelters that could not be read
/// count as none.
pub fn get_shelters(found: FetchOutcome<Shelter>) -> (r: Result<Reply<Vec<Shelter>>, Refusal>)
    ensures
        match found {
            FetchOutcome::Fetched(shelters) => r matches Ok(reply) && succeeded_with(
                reply,
                OK,
                "Shelters retrieved successfully"@,
            ) && reply.body.data == shelters,
            FetchOutcome::Unreadable(_) => r matches Ok(reply) && succeeded_with(
                reply,
                OK,
                "Shelters retrieved successfully"@,
            ) && reply.body.data@.len() == 0,
            FetchOutcome::Failed(why) => refusal_view(r) == Some(
                refusal(INTERNAL_SERVER_ERROR, "Error fetching shelters: "@ + why@),
            ),
        },
{
    match found {
        FetchOutcome::Fetched(shelters) => Ok(
            success_response("Shelters retrieved successfully", shelters, OK),
        ),
        FetchOutcome::Unreadable(_) => Ok(
            success_response("Shelters retrieved successfully", Vec::new(), OK),
        ),
        FetchOutcome::Failed(why) => Err(
            refuse_with(INTERNAL_SERVER_ERROR, "Error fetching shelters: ", why.as_str()),
        ),
    }
}

/// Checks the identifier of a shelter before the store is asked.
pub fn shelter_id(id: &str) -> (r: Result<(), Refusal>)
    ensures
        refusal_view(r) == if is_object_id(id@) {
            None
        } else {
            Some(refusal(BAD_REQUEST, "Invalid ID format"@))
        },
{
    require_object_id(id, "Invalid ID format")
}

/// How a write to one shelter is answered: `done` is the text where exactly
/// one shelter was affected.
pub open spec fn shelter_write(outcome: WriteOutcome, done: Seq<char>) -> Result<
    Seq<char>,
    RefusalView,
> {
    match outcome {
        WriteOutcome::Affected(n) => if n == 1 {
            Ok(done)
        } else {
            Err(refusal(NOT_FOUND, "Shelter not found"@))
        },
        WriteOutcome::Failed(why) => Err(
            refusal(INTERNAL_SERVER_ERROR, "Database error: "@ + why@),
        ),
    }
}

/// Answers a write to the shelter `id`.
fn answer_shelter_write(id: String, outcome: WriteOutcome, done: &str) -> (r: Result<
    Reply<String>,
    Refusal,
>)
    ensures
        match shelter_write(outcome, done@) {
            Ok(text) => r matches Ok(reply) && succeeded_with(reply, OK, text) && reply.body.data@
                == id@,
            Err(e) => refusal_view(r) == Some(e),
        },
{
    match outcome {
        WriteOutcome::Affected(n) => if n == 1 {
            Ok(success_response(done, id, OK))
        } else {
            Err(refuse(NOT_FOUND, "Shelter not found"))
        },
        WriteOutcome::Failed(why) => Err(
            refuse_with(INTERNAL_SERVER_ERROR, "Database error: ", why.as_str()),
        ),
    }
}

/// Answers the removal of the shelter `id` once the store was asked for it.
pub fn delete_shelter(id: String, outcome: WriteOutcome) -> (r: Result<Reply<String>, Refusal>)
    ensures
        match shelter_write(outcome, "Shelter deleted successfully"@) {
            Ok(text) => r matches Ok(reply) && succeeded_with(reply, OK, text) && reply.body.data@
                == id@,
            Err(e) => refusal_view(r) == Some(e),
        },
{
    answer_shelter_write(id, outcome, "Shelter deleted successfully")
}

/// Answers the update of the shelter `id` once the store was asked for it.
pub fn update_shelters(id: String, outcome: WriteOutcome) -> (r: Result<Reply<String>, Refusal>)
    ensures
        match shelter_write(outcome, "Shelter updated successfully"@) {
            Ok(text) => r matches Ok(reply) && succeeded_with(reply, OK, text) && reply.body.data@
                == id@,
            Err(e) => refusal_view(r) == Some(e),
        },
{
    answer_shelter_write(id, outcome, "Shelter updated successfully")
}

} // verus!
