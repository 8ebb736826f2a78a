//! Relief resources: the rules of the resource handlers.
//!
//! Where a resource lies is kept as two floating-point coordinates. Whether
//! they are in range is for the caller to say.

use crate::records::{
    header_id, id_from_header, is_object_id, require_object_id, FetchOutcome, HeaderId,
    InsertOutcome, WriteOutcome,
};
use crate::reply::{
    refusal, refusal_view, refuse, refuse_with, succeeded_with, success_response, text_or_refusal,
    Refusal, RefusalView, Reply, BAD_REQUEST, CREATED, INTERNAL_SERVER_ERROR, NOT_FOUND, OK,
};
use crate::text::{blank, is_blank};
use vstd::prelude::*;

verus! {

/// Whether a resource can still be had.
#[derive(Clone, Copy, Debug, PartialEq, Eq, Structural)]
pub enum ResourceStatus {
    Available,
    Reserved,
}

/// A resource, but for where it lies.
#[derive(Debug, Clone)]
pub struct ResourceDetails {
    pub name: String,
    pub quantity: u32,
    pub category: String,
    pub description: String,
    pub status: ResourceStatus,
}

/// The text that turns a resource with nothing of it down.
pub open spec fn no_quantity() -> RefusalView {
    refusal(BAD_REQUEST, "Quantity must be greater than zero"@)
}

/// The text that turns coordinates out of range down.
pub open spec fn bad_coordinates() -> RefusalView {
    refusal(
        BAD_REQUEST,
        "Invalid coordinates. Latitude must be between -90 and 90, longitude between -180 and 180"@,
    )
}

/// Why a new resource is turned down, if it is. The first rule it breaks
/// decides.
pub open spec fn new_resource_refusal(details: ResourceDetails, in_range: bool) -> Option<
    RefusalView,
> {
    if blank(details.name@) || blank(details.category@) || blank(details.description@) {
        Some(refusal(BAD_REQUEST, "All fields must be non-empty"@))
    } else if details.quantity == 0 {
        Some(no_quantity())
    } else if !in_range {
        Some(bad_coordinates())
    } else {
        None
    }
}

/// Checks a resource that is to be created. `in_range` says whether its
/// coordinates are.
pub fn create_resource_service(details: &ResourceDetails, in_range: bool) -> (r: Result<
    (),
    Refusal,
>)
    ensures
        refusal_view(r) == new_resource_refusal(*details, in_range),
{
    if is_blank(details.name.as_str()) || is_blank(details.category.as_str()) || is_blank(
        details.description.as_str(),
    ) {
        return Err(refuse(BAD_REQUEST, "All fields must be non-empty"));
    }
    if details.quantity == 0 {
        return Err(refuse(BAD_REQUEST, "Quantity must be greater than zero"));
    }
    if !in_range {
        return Err(
            refuse(
                BAD_REQUEST,
                "Invalid coordinates. Latitude must be between -90 and 90, longitude between -180 and 180",
            ),
        );
    }
    Ok(())
}

/// Takes the identifier of the resource to remove from the request.
pub fn delete_resource_service(header: HeaderId) -> (r: Result<String, Refusal>)
    ensures
        text_or_refusal(r) == header_id(header),
{
    id_from_header(header)
}

/// What updating a resource works on, or why it does not start.
pub open spec fn resource_update(quantity: u32, in_range: bool, header: HeaderId) -> Result<
    Seq<char>,
    RefusalView,
> {
    if quantity == 0 {
        Err(no_quantity())
    } else if !in_range {
        Err(bad_coordinates())
    } else {
        header_id(header)
    }
}

/// Checks a resource that is to replace a stored one, and takes the
/// identifier of that one from the request.
pub fn update_resource_service(details: &ResourceDetails, in_range: bool, header: HeaderId) -> (r:
    Result<String, Refusal>)
    ensures
        text_or_refusal(r) == resource_update(details.quantity, in_range, header),
{
    if details.quantity == 0 {
        return Err(refuse(BAD_REQUEST, "Quantity must be greater than zero"));
    }
    if !in_range {
        return Err(
            refuse(
                BAD_REQUEST,
                "Invalid coordinates. Latitude must be between -90 and 90, longitude between -180 and 180",
            ),
        );
    }
    id_from_header(header)
}

/// Answers the creation of a resource once the store was asked to insert
/// it. The answer carries the identifier the store gave.
pub fn create_resource(inserted: InsertOutcome) -> (r: Result<Reply<String>, Refusal>)
    ensures
        match inserted {
            InsertOutcome::Inserted(Some(id)) => r matches Ok(reply) && succeeded_with(
                reply,
                CREATED,
                "Resource created successfully"@,
            ) && reply.body.data@ == id@,
            InsertOutcome::Inserted(None) => refusal_view(r) == Some(
                refusal(INTERNAL_SERVER_ERROR, "Failed to retrieve inserted ID"@),
            ),
            InsertOutcome::Failed(why) => refusal_view(r) == Some(
                refusal(INTERNAL_SERVER_ERROR, "Database error: "@ + why@),
            ),
        },
{
    match inserted {
        InsertOutcome::Inserted(Some(id)) => Ok(
            success_response("Resource created successfully", id, CREATED),
        ),
        InsertOutcome::Inserted(None) => Err(
            refuse(INTERNAL_SERVER_ERROR, "Failed to retrieve inserted ID"),
        ),
        InsertOutcome::Failed(why) => Err(
            refuse_with(INTERNAL_SERVER_ERROR, "Database error: ", why.as_str()),
        ),
    }
}

/// Answers the listing of the resources.
pub fn get_resources<T>(found: FetchOutcome<T>) -> (r: Result<Reply<Vec<T>>, Refusal>)
    ensures
        match found {
            FetchOutcome::Fetched(resources) => r matches Ok(reply) && succeeded_with(
                reply,
                OK,
                "Resources retrieved successfully"@,
            ) && reply.body.data == resources,
            FetchOutcome::Unreadable(why) => refusal_view(r) == Some(
                refusal(INTERNAL_SERVER_ERROR, "Failed to collect resources: "@ + why@),
            ),
            FetchOutcome::Failed(why) => refusal_view(r) == Some(
                refusal(INTERNAL_SERVER_ERROR, "Database error: "@ + why@),
            ),
        },
{
    match found {
        FetchOutcome::Fetched(resources) => Ok(
            success_response("Resources retrieved successfully", resources, OK),
        ),
        FetchOutcome::Unreadable(why) => Err(
            refuse_with(INTERNAL_SERVER_ERROR, "Failed to collect resources: ", why.as_str()),
        ),
        FetchOutcome::Failed(why) => Err(
            refuse_with(INTERNAL_SERVER_ERROR, "Database error: ", why.as_str()),
        ),
    }
}

/// Checks the identifier of a resource before the store is asked.
pub fn resource_id(id: &str) -> (r: Result<(), Refusal>)
    ensures
        refusal_view(r) == if is_object_id(id@) {
            None
        } else {
            Some(refusal(BAD_REQUEST, "Invalid ID format"@))
        },
{
    require_object_id(id, "Invalid ID format")
}

/// Turns an update down whose resource could not be made into a document.
pub fn resource_document(problem: Option<String>) -> (r: Result<(), Refusal>)
    ensures
        refusal_view(r) == match problem {
            Some(why) => Some(
                refusal(INTERNAL_SERVER_ERROR, "Failed to serialize resource: "@ + why@),
            ),
            None => None,
        },
{
    match problem {
        Some(why) => Err(
            refuse_with(INTERNAL_SERVER_ERROR, "Failed to serialize resource: ", why.as_str()),
        ),
        None => Ok(()),
    }
}

/// How a write to one resource is answered: with the two texts given where
/// exactly one resource was affected.
pub open spec fn resource_write(outcome: WriteOutcome) -> Option<RefusalView> {
    match outcome {
        WriteOutcome::Affected(n) => if n == 1 {
            None
        } else {
            Some(refusal(NOT_FOUND, "Resource not found"@))
        },
        WriteOutcome::Failed(why) => Some(
            refusal(INTERNAL_SERVER_ERROR, "Database error: "@ + why@),
        ),
    }
}

/// Answers a write to one resource.
fn answer_resource_write(outcome: WriteOutcome, done: &str, note: &str) -> (r: Result<
    Reply<String>,
    Refusal,
>)
    ensures
        match resource_write(outcome) {
            None => r matches Ok(reply) && succeeded_with(reply, OK, done@) && reply.body.data@
                == note@,
            Some(e) => refusal_view(r) == Some(e),
        },
{
    match outcome {
        WriteOutcome::Affected(n) => if n == 1 {
            Ok(success_response(done, note.to_owned(), OK))
        } else {
            Err(refuse(NOT_FOUND, "Resource not found"))
        },
        WriteOutcome::Failed(why) => Err(
            refuse_with(INTERNAL_SERVER_ERROR, "Database error: ", why.as_str()),
        ),
    }
}

/// Answers the removal of a resource once the store was asked for it.
pub fn delete_resource(outcome: WriteOutcome) -> (r: Result<Reply<String>, Refusal>)
    ensures
        match resource_write(outcome) {
            None => r matches Ok(reply) && succeeded_with(
                reply,
                OK,
                "Resource deleted successfully"@,
            ) && reply.body.data@ == "Resource removed from database"@,
            Some(e) => refusal_view(r) == Some(e),
        },
{
    answer_resource_write(outcome, "Resource deleted successfully", "Resource removed from database")
}

/// Answers the update of a resource once the store was asked for it.
pub fn update_resource(outcome: WriteOutcome) -> (r: Result<Reply<String>, Refusal>)
    ensures
        match resource_write(outcome) {
            None => r matches Ok(reply) && succeeded_with(
                reply,
                OK,
                "Resource updated successfully"@,
            ) && reply.body.data@ == "Resource information updated"@,
            Some(e) => refusal_view(r) == Some(e),
        },
{
    answer_resource_write(outcome, "Resource updated successfully", "Resource information updated")
}

} // verus!
