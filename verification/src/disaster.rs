//! Disaster records and their guides: the rules of the disaster handlers.
//!
//! A disaster record comes with a guide: a list of things to do and a list
//! of things not to do. Entries are proposed, then accepted or rejected; a
//! rejected entry is removed.

use crate::records::{
    is_object_id, last_segment, path_tail, require_object_id, valid_object_id, FetchOutcome,
    InsertOutcome, WriteOutcome,
};
use crate::reply::{
    refusal, refusal_view, refuse, refuse_with, succeeded_with, success_response, text_or_refusal,
    Refusal, RefusalView, Reply, BAD_REQUEST, INTERNAL_SERVER_ERROR, NOT_FOUND, OK,
};
use crate::text::{blank, is_blank, same_text};
use vstd::prelude::*;

verus! {

/// A disaster record.
#[derive(Debug, Clone)]
pub struct DisasterRecord {
    /// The identifier the store gave, in hexadecimal, once it is stored.
    pub id: Option<String>,
    pub name: String,
    pub effects: String,
    pub short_description: String,
    pub youtube_link: String,
}

/// One entry of a guide.
#[derive(Debug, Clone)]
pub struct GuideItem {
    /// Who proposed the entry: an object identifier.
    pub user_id: String,
    /// `Accepted` or `Pending`.
    pub status: String,
    pub message: String,
}

/// The guide of a disaster.
#[derive(Debug, Clone)]
pub struct DisasterGuide {
    pub id: Option<String>,
    /// The record this guide belongs to: an object identifier.
    pub disaster_id: String,
    pub dos: Vec<GuideItem>,
    pub donts: Vec<GuideItem>,
}

/// What adding an entry answers with.
#[derive(Debug)]
pub struct AddedGuide {
    pub disaster_id: String,
    pub message: String,
}

/// What a change to an entry answers with.
#[derive(Debug)]
pub struct TouchedGuide<I> {
    pub item_id: String,
    pub matched_count: u64,
    /// The entry as it is stored now, where it was fetched.
    pub updated_item: Option<I>,
}

/// A disaster record with its guides.
#[derive(Debug)]
pub struct RecordWithGuides<R, G> {
    pub disaster_record: Vec<R>,
    pub disaster_guide: Vec<G>,
}

/// What becomes of an entry.
#[derive(Clone, Copy, Debug, PartialEq, Eq, Structural)]
pub enum GuideChange {
    /// Its status is set to `Accepted`.
    Accept,
    /// It is removed from its list.
    Remove,
}

/// What a change to an entry needs next.
#[derive(Debug)]
pub enum GuideUpdate {
    /// The entry is gone: this is the answer.
    Removed(Reply<TouchedGuide<String>>),
    /// The entry was accepted: fetch it, and answer with
    /// [`updated_item_reply`].
    Accepted { item_id: String, matched_count: u64 },
}

/// The user that entries are filed under.
pub open spec fn filing_user() -> Seq<char> {
    "67b17ff47acc96908fe325d8"@
}

/// The filing user is an object identifier.
pub proof fn filing_user_is_an_object_id()
    ensures
        is_object_id(filing_user()),
{
    reveal_strlit("67b17ff47acc96908fe325d8");
    assert(filing_user().len() == 24);
}

/// Checks a disaster record that is to be created: neither its name nor its
/// short description may be blank.
pub fn add_disaster_service(record: &DisasterRecord) -> (r: Result<(), Refusal>)
    ensures
        refusal_view(r) == if blank(record.name@) || blank(record.short_description@) {
            Some(refusal(BAD_REQUEST, "Name and description must not be empty"@))
        } else {
            None
        },
{
    if is_blank(record.name.as_str()) || is_blank(record.short_description.as_str()) {
        return Err(refuse(BAD_REQUEST, "Name and description must not be empty"));
    }
    Ok(())
}

/// The entry that a message gives rise to: filed under the filing user, and
/// accepted.
pub open spec fn is_entry_for(item: GuideItem, message: Seq<char>) -> bool {
    item.user_id@ == filing_user() && item.status@ == "Accepted"@ && item.message@ == message
}

/// Makes the entry for a message; `message` is the `message` field of the
/// request's body where it is a text.
fn entry_from(message: Option<&str>) -> (r: Result<GuideItem, Refusal>)
    ensures
        match message {
            Some(m) => r matches Ok(item) && is_entry_for(item, m@),
            None => refusal_view(r) == Some(refusal(BAD_REQUEST, "Message field is required"@)),
        },
{
    match message {
        Some(m) => Ok(
            GuideItem {
                user_id: "67b17ff47acc96908fe325d8".to_owned(),
                status: "Accepted".to_owned(),
                message: m.to_owned(),
            },
        ),
        None => Err(refuse(BAD_REQUEST, "Message field is required")),
    }
}

/// Checks a request to add a thing to do, and makes the entry to store.
pub fn add_dos_service(message: Option<&str>) -> (r: Result<GuideItem, Refusal>)
    ensures
        match message {
            Some(m) => r matches Ok(item) && is_entry_for(item, m@),
            None => refusal_view(r) == Some(refusal(BAD_REQUEST, "Message field is required"@)),
        },
{
    entry_from(message)
}

/// Checks a request to add a thing not to do, and makes the entry to store.
pub fn add_donts_service(message: Option<&str>) -> (r: Result<GuideItem, Refusal>)
    ensures
        match message {
            Some(m) => r matches Ok(item) && is_entry_for(item, m@),
            None => refusal_view(r) == Some(refusal(BAD_REQUEST, "Message field is required"@)),
        },
{
    entry_from(message)
}

/// The identifier that a request path names: its last segment, if that is an
/// object identifier.
pub open spec fn record_in_path(path: Seq<char>) -> Result<Seq<char>, RefusalView> {
    if is_object_id(last_segment(path)) {
        Ok(last_segment(path))
    } else {
        Err(refusal(BAD_REQUEST, "Invalid disaster record ID format"@))
    }
}

/// Takes the identifier of the record asked for from the request path.
pub fn get_disaster_record_service(path: &str) -> (r: Result<String, Refusal>)
    ensures
        text_or_refusal(r) == record_in_path(path@),
{
    let tail: String = path_tail(path);
    if valid_object_id(tail.as_str()) {
        Ok(tail)
    } else {
        Err(refuse(BAD_REQUEST, "Invalid disaster record ID format"))
    }
}

/// Takes the identifier of the record asked for, with all its entries, from
/// the request path.
pub fn get_all_disaster_record_service(path: &str) -> (r: Result<String, Refusal>)
    ensures
        text_or_refusal(r) == record_in_path(path@),
{
    get_disaster_record_service(path)
}

/// The status that a request to change an entry carries, or why the request
/// is turned down. The first rule it breaks decides.
pub open spec fn entry_change(record: Seq<char>, entry: Seq<char>, status: Option<Seq<char>>) -> Result<
    Seq<char>,
    RefusalView,
> {
    if !is_object_id(record) {
        Err(refusal(BAD_REQUEST, "Invalid disaster ID format"@))
    } else if !is_object_id(entry) {
        Err(refusal(BAD_REQUEST, "Invalid guide item ID format"@))
    } else {
        match status {
            Some(s) => Ok(s),
            None => Err(
                refusal(BAD_REQUEST, "Missing or invalid status field in request body"@),
            ),
        }
    }
}

/// Checks a request to change an entry: both identifiers, then the status.
fn check_entry_change(dr_id: &str, gi_id: &str, status: Option<&str>) -> (r: Result<
    String,
    Refusal,
>)
    ensures
        text_or_refusal(r) == entry_change(dr_id@, gi_id@, crate::bearer::slice_view(status)),
{
    match require_object_id(dr_id, "Invalid disaster ID format") {
        Err(e) => { return Err(e); },
        Ok(()) => {},
    }
    match require_object_id(gi_id, "Invalid guide item ID format") {
        Err(e) => { return Err(e); },
        Ok(()) => {},
    }
    match status {
        Some(s) => Ok(s.to_owned()),
        None => Err(refuse(BAD_REQUEST, "Missing or invalid status field in request body")),
    }
}

/// Checks a request to change a thing to do; `status` is the `status` field
/// of the request's body where it is a text.
pub fn update_dos_service(dr_id: &str, gi_id: &str, status: Option<&str>) -> (r: Result<
    String,
    Refusal,
>)
    ensures
        text_or_refusal(r) == entry_change(dr_id@, gi_id@, crate::bearer::slice_view(status)),
{
    check_entry_change(dr_id, gi_id, status)
}

/// Checks a request to change a thing not to do.
pub fn update_donts_service(dr_id: &str, gi_id: &str, status: Option<&str>) -> (r: Result<
    String,
    Refusal,
>)
    ensures
        text_or_refusal(r) == entry_change(dr_id@, gi_id@, crate::bearer::slice_view(status)),
{
    check_entry_change(dr_id, gi_id, status)
}

/// The identifier of a record that was inserted, or why there is none.
pub open spec fn inserted_record(inserted: InsertOutcome) -> Result<Seq<char>, RefusalView> {
    match inserted {
        InsertOutcome::Inserted(Some(id)) => Ok(id@),
        InsertOutcome::Inserted(None) => Err(
            refusal(INTERNAL_SERVER_ERROR, "Failed to extract ObjectId from inserted record"@),
        ),
        InsertOutcome::Failed(_) => Err(refusal(INTERNAL_SERVER_ERROR, "Failed to insert record"@)),
    }
}

/// Goes on with the creation of a disaster record once the store was asked
/// to insert it: its identifier is what the guide is then stored under.
pub fn add_disaster_record(inserted: InsertOutcome) -> (r: Result<String, Refusal>)
    ensures
        text_or_refusal(r) == inserted_record(inserted),
{
    match inserted {
        InsertOutcome::Inserted(Some(id)) => Ok(id),
        InsertOutcome::Inserted(None) => Err(
            refuse(INTERNAL_SERVER_ERROR, "Failed to extract ObjectId from inserted record"),
        ),
        InsertOutcome::Failed(_) => Err(refuse(INTERNAL_SERVER_ERROR, "Failed to insert record")),
    }
}

/// The empty guide that a new record starts with.
pub fn empty_guide(disaster_id: &str) -> (r: DisasterGuide)
    ensures
        r.id is None,
        r.disaster_id@ == disaster_id@,
        r.dos@.len() == 0,
        r.donts@.len() == 0,
{
    DisasterGuide { id: None, disaster_id: disaster_id.to_owned(), dos: Vec::new(), donts: Vec::new() }
}

/// Answers the creation of the record `id` once the store was asked to
/// insert its guide.
pub fn add_disaster(id: String, guide_inserted: bool) -> (r: Result<Reply<String>, Refusal>)
    ensures
        if guide_inserted {
            r matches Ok(reply) && succeeded_with(
                reply,
                OK,
                "New disaster record created successfully."@,
            ) && reply.body.data@ == id@
        } else {
            refusal_view(r) == Some(
                refusal(INTERNAL_SERVER_ERROR, "Failed to insert guide record"@),
            )
        },
{
    if guide_inserted {
        Ok(success_response("New disaster record created successfully.", id, OK))
    } else {
        Err(refuse(INTERNAL_SERVER_ERROR, "Failed to insert guide record"))
    }
}

/// Answers the addition of a thing to do once the store was asked for it.
pub fn add_dos(disaster_id: String, message: String, outcome: WriteOutcome) -> (r: Result<
    Reply<AddedGuide>,
    Refusal,
>)
    ensures
        match outcome {
            WriteOutcome::Affected(n) => if n == 0 {
                refusal_view(r) == Some(refusal(NOT_FOUND, "No record found"@))
            } else {
                r matches Ok(reply) && succeeded_with(
                    reply,
                    OK,
                    "Successfully added to do_s array"@,
                ) && reply.body.data.disaster_id@ == disaster_id@ && reply.body.data.message@
                    == message@
            },
            WriteOutcome::Failed(_) => refusal_view(r) == Some(
                refusal(INTERNAL_SERVER_ERROR, "Failed to update record"@),
            ),
        },
{
    match outcome {
        WriteOutcome::Affected(n) => if n == 0 {
            Err(refuse(NOT_FOUND, "No record found"))
        } else {
            Ok(
                success_response(
                    "Successfully added to do_s array",
                    AddedGuide { disaster_id, message },
                    OK,
                ),
            )
        },
        WriteOutcome::Failed(_) => Err(refuse(INTERNAL_SERVER_ERROR, "Failed to update record")),
    }
}

/// Answers the addition of a thing not to do once the store was asked for
/// it.
pub fn add_donts(disaster_id: String, message: String, outcome: WriteOutcome) -> (r: Result<
    Reply<AddedGuide>,
    Refusal,
>)
    ensures
        match outcome {
            WriteOutcome::Affected(n) => if n == 0 {
                refusal_view(r) == Some(refusal(NOT_FOUND, "No record found with the given ID"@))
            } else {
                r matches Ok(reply) && succeeded_with(
                    reply,
                    OK,
                    "Successfully added to dont_s array"@,
                ) && reply.body.data.disaster_id@ == disaster_id@ && reply.body.data.message@
                    == message@
            },
            WriteOutcome::Failed(why) => refusal_view(r) == Some(
                refusal(INTERNAL_SERVER_ERROR, "Failed to update record: "@ + why@),
            ),
        },
{
    match outcome {
        WriteOutcome::Affected(n) => if n == 0 {
            Err(refuse(NOT_FOUND, "No record found with the given ID"))
        } else {
            Ok(
                success_response(
                    "Successfully added to dont_s array",
                    AddedGuide { disaster_id, message },
                    OK,
                ),
            )
        },
        WriteOutcome::Failed(why) => Err(
            refuse_with(INTERNAL_SERVER_ERROR, "Failed to update record: ", why.as_str()),
        ),
    }
}

/// Goes on with a request for a record once its guides were asked for:
/// `guides` is what was found, or `None` where the store failed. A record
/// without a guide is not found.
pub fn guides_found<G>(guides: Option<Vec<G>>) -> (r: Result<Vec<G>, Refusal>)
    ensures
        match guides {
            Some(found) => if found@.len() == 0 {
                refusal_view(r) == Some(refusal(NOT_FOUND, "No matching records found"@))
            } else {
                r == Ok::<Vec<G>, Refusal>(found)
            },
            None => refusal_view(r) == Some(
                refusal(INTERNAL_SERVER_ERROR, "Failed to fetch disaster record"@),
            ),
        },
{
    match guides {
        Some(found) => if found.len() == 0 {
            Err(refuse(NOT_FOUND, "No matching records found"))
        } else {
            Ok(found)
        },
        None => Err(refuse(INTERNAL_SERVER_ERROR, "Failed to fetch disaster record")),
    }
}

/// Answers a request for a record with its guides once the record was asked
/// for. A record that could not be read counts as none.
fn answer_with_guides<R, G>(guides: Vec<G>, records: FetchOutcome<R>) -> (r: Result<
    Reply<RecordWithGuides<R, G>>,
    Refusal,
>)
    ensures
        match records {
            FetchOutcome::Fetched(found) => r matches Ok(reply) && succeeded_with(
                reply,
                OK,
                "Successfully fetched disaster record with accepted dos and donts"@,
            ) && reply.body.data.disaster_record == found && reply.body.data.disaster_guide
                == guides,
            FetchOutcome::Unreadable(_) => r matches Ok(reply) && succeeded_with(
                reply,
                OK,
                "Successfully fetched disaster record with accepted dos and donts"@,
            ) && reply.body.data.disaster_record@.len() == 0 && reply.body.data.disaster_guide
                == guides,
            FetchOutcome::Failed(_) => refusal_view(r) == Some(
                refusal(INTERNAL_SERVER_ERROR, "Failed to fetch disaster record"@),
            ),
        },
{
    let found: Vec<R> = match records {
        FetchOutcome::Fetched(found) => found,
        FetchOutcome::Unreadable(_) => Vec::new(),
        FetchOutcome::Failed(_) => {
            return Err(refuse(INTERNAL_SERVER_ERROR, "Failed to fetch disaster record"));
        },
    };
    Ok(
        success_response(
            "Successfully fetched disaster record with accepted dos and donts",
            RecordWithGuides { disaster_record: found, disaster_guide: guides },
            OK,
        ),
    )
}

/// Answers a request for a record with the accepted entries of its guides.
pub fn get_disaster_record<R, G>(guides: Vec<G>, records: FetchOutcome<R>) -> (r: Result<
    Reply<RecordWithGuides<R, G>>,
    Refusal,
>)
    ensures
        match records {
            FetchOutcome::Fetched(found) => r matches Ok(reply) && succeeded_with(
                reply,
                OK,
                "Successfully fetched disaster record with accepted dos and donts"@,
            ) && reply.body.data.disaster_record == found && reply.body.data.disaster_guide
                == guides,
            FetchOutcome::Unreadable(_) => r matches Ok(reply) && succeeded_with(
                reply,
                OK,
                "Successfully fetched disaster record with accepted dos and donts"@,
            ) && reply.body.data.disaster_record@.len() == 0 && reply.body.data.disaster_guide
                == guides,
            FetchOutcome::Failed(_) => refusal_view(r) == Some(
                refusal(INTERNAL_SERVER_ERROR, "Failed to fetch disaster record"@),
            ),
        },
{
    answer_with_guides(guides, records)
}

/// Answers a request for a record with all the entries of its guides.
pub fn get_all_disaster_record<R, G>(guides: Vec<G>, records: FetchOutcome<R>) -> (r: Result<
    Reply<RecordWithGuides<R, G>>,
    Refusal,
>)
    ensures
        match records {
            FetchOutcome::Fetched(found) => r matches Ok(reply) && succeeded_with(
                reply,
                OK,
                "Successfully fetched disaster record with accepted dos and donts"@,
            ) && reply.body.data.disaster_record == found && reply.body.data.disaster_guide
                == guides,
            FetchOutcome::Unreadable(_) => r matches Ok(reply) && succeeded_with(
                reply,
                OK,
                "Successfully fetched disaster record with accepted dos and donts"@,
            ) && reply.body.data.disaster_record@.len() == 0 && reply.body.data.disaster_guide
                == guides,
            FetchOutcome::Failed(_) => refusal_view(r) == Some(
                refusal(INTERNAL_SERVER_ERROR, "Failed to fetch disaster record"@),
            ),
        },
{
    answer_with_guides(guides, records)
}

/// What a status asks for.
pub open spec fn change_for(status: Seq<char>) -> Option<GuideChange> {
    if status == "Accepted"@ {
        Some(GuideChange::Accept)
    } else if status == "Rejected"@ {
        Some(GuideChange::Remove)
    } else {
        None
    }
}

/// Reads what a status asks for: `Accepted` accepts the entry, `Rejected`
/// removes it, and nothing else is a status.
pub fn guide_change(status: &str) -> (r: Result<GuideChange, Refusal>)
    ensures
        match change_for(status@) {
            Some(change) => r matches Ok(c) && c == change,
            None => refusal_view(r) == Some(refusal(BAD_REQUEST, "Invalid status provided"@)),
        },
{
    if same_text(status, "Accepted") {
        Ok(GuideChange::Accept)
    } else if same_text(status, "Rejected") {
        Ok(GuideChange::Remove)
    } else {
        Err(refuse(BAD_REQUEST, "Invalid status provided"))
    }
}

/// Why a change to an entry fails once the store was asked for it, if it
/// does.
pub open spec fn change_refusal(outcome: WriteOutcome) -> Option<RefusalView> {
    match outcome {
        WriteOutcome::Affected(n) => if n == 0 {
            Some(refusal(NOT_FOUND, "No matching record found"@))
        } else {
            None
        },
        WriteOutcome::Failed(why) => Some(
            refusal(INTERNAL_SERVER_ERROR, "Update failed: "@ + why@),
        ),
    }
}

/// The mathematical value of what a change needs next.
pub open spec fn removed_with(update: GuideUpdate, item_id: Seq<char>, matched: u64) -> bool {
    update matches GuideUpdate::Removed(reply) && succeeded_with(
        reply,
        OK,
        "Item removed successfully"@,
    ) && reply.body.data.item_id@ == item_id && reply.body.data.matched_count == matched
        && reply.body.data.updated_item is None
}

/// The mathematical value of what a change needs next.
pub open spec fn accepted_with(update: GuideUpdate, id: Seq<char>, matched: u64) -> bool {
    update matches GuideUpdate::Accepted { item_id, matched_count } && item_id@ == id
        && matched_count == matched
}

/// Goes on with a change to the entry `item_id` once the store was asked
/// for it.
fn follow_change(change: GuideChange, item_id: String, outcome: WriteOutcome) -> (r: Result<
    GuideUpdate,
    Refusal,
>)
    ensures
        match change_refusal(outcome) {
            Some(e) => refusal_view(r) == Some(e),
            None => r matches Ok(update) && outcome matches WriteOutcome::Affected(n) && (if change
                == GuideChange::Remove {
                removed_with(update, item_id@, n)
            } else {
                accepted_with(update, item_id@, n)
            }),
        },
{
    match outcome {
        WriteOutcome::Failed(why) => Err(
            refuse_with(INTERNAL_SERVER_ERROR, "Update failed: ", why.as_str()),
        ),
        WriteOutcome::Affected(n) => {
            if n == 0 {
                return Err(refuse(NOT_FOUND, "No matching record found"));
            }
            match change {
                GuideChange::Remove => Ok(
                    GuideUpdate::Removed(
                        success_response(
                            "Item removed successfully",
                            TouchedGuide { item_id, matched_count: n, updated_item: None },
                            OK,
                        ),
                    ),
                ),
                GuideChange::Accept => Ok(GuideUpdate::Accepted { item_id, matched_count: n }),
            }
        },
    }
}

/// Goes on with a change to a thing to do once the store was asked for it.
pub fn update_dos(change: GuideChange, item_id: String, outcome: WriteOutcome) -> (r: Result<
    GuideUpdate,
    Refusal,
>)
    ensures
        match change_refusal(outcome) {
            Some(e) => refusal_view(r) == Some(e),
            None => r matches Ok(update) && outcome matches WriteOutcome::Affected(n) && (if change
                == GuideChange::Remove {
                removed_with(update, item_id@, n)
            } else {
                accepted_with(update, item_id@, n)
            }),
        },
{
    follow_change(change, item_id, outcome)
}

/// Goes on with a change to a thing not to do once the store was asked for
/// it.
pub fn update_donts(change: GuideChange, item_id: String, outcome: WriteOutcome) -> (r: Result<
    GuideUpdate,
    Refusal,
>)
    ensures
        match change_refusal(outcome) {
            Some(e) => refusal_view(r) == Some(e),
            None => r matches Ok(update) && outcome matches WriteOutcome::Affected(n) && (if change
                == GuideChange::Remove {
                removed_with(update, item_id@, n)
            } else {
                accepted_with(update, item_id@, n)
            }),
        },
{
    follow_change(change, item_id, outcome)
}

/// Answers the acceptance of an entry once it was fetched again; `item` is
/// the entry where the store returned it.
pub fn updated_item_reply<I>(item_id: String, matched_count: u64, item: Option<I>) -> (r: Reply<
    TouchedGuide<I>,
>)
    ensures
        succeeded_with(
            r,
            OK,
            if item is Some {
                "Status updated successfully"@
            } else {
                "Status updated successfully, but no updated item found"@
            },
        ),
        r.body.data.item_id@ == item_id@,
        r.body.data.matched_count == matched_count,
        r.body.data.updated_item == item,
{
    let found: bool = item.is_some();
    let data = TouchedGuide { item_id, matched_count, updated_item: item };
    if found {
        success_response("Status updated successfully", data, OK)
    } else {
        success_response("Status updated successfully, but no updated item found", data, OK)
    }
}

} // verus!
