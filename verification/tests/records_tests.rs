use backend::disaster::{
    add_disaster, add_disaster_record, add_disaster_service, add_donts, add_donts_service, add_dos,
    add_dos_service, empty_guide, get_all_disaster_record, get_all_disaster_record_service,
    get_disaster_record, get_disaster_record_service, guide_change, guides_found, update_donts,
    update_donts_service, update_dos, update_dos_service, updated_item_reply, DisasterRecord,
    GuideChange, GuideUpdate,
};
use backend::feed::{disaster_event_data, events_url, FeedFailure};
use backend::log::log_request;
use backend::records::{
    id_from_header, path_tail, require_object_id, valid_object_id, FetchOutcome, HeaderId,
    InsertOutcome, WriteOutcome,
};
use backend::reply::{error_response, refuse, refuse_with, success_response};
use backend::resources::{
    create_resource, create_resource_service, delete_resource, delete_resource_service,
    get_resources, resource_document, resource_id, update_resource, update_resource_service,
    ResourceDetails, ResourceStatus,
};
use backend::routes::{
    create_routes, merge_routes, resources_routes, shelters_routes, user_routes, Method,
};
use backend::shelters::{
    check_new_shelter, create_shelter_service, create_shelters, delete_shelter,
    delete_shelter_service, get_shelters, shelter_id, update_shelter_service, update_shelters,
    Shelter,
};

const ID: &str = "67b17ff47acc96908fe325d8";

fn shelter(name: &str, capacity: u32, available_beds: u32) -> Shelter {
    Shelter {
        name: name.to_string(),
        capacity,
        available_beds,
        street: "1 Main".to_string(),
        district: "North".to_string(),
        state: "KA".to_string(),
        country: "IN".to_string(),
    }
}

fn details(name: &str, quantity: u32) -> ResourceDetails {
    ResourceDetails {
        name: name.to_string(),
        quantity,
        category: "Essential".to_string(),
        description: "Drinking water bottles".to_string(),
        status: ResourceStatus::Available,
    }
}

#[test]
fn object_ids_are_twenty_four_hex_digits() {
    assert!(valid_object_id(ID));
    assert!(valid_object_id("67B17FF47ACC96908FE325D8"));
    assert!(valid_object_id("000000000000000000000000"));
    assert!(!valid_object_id(""));
    assert!(!valid_object_id("67b17ff47acc96908fe325d"));
    assert!(!valid_object_id("67b17ff47acc96908fe325d80"));
    assert!(!valid_object_id("67b17ff47acc96908fe325d8aa"));
    assert!(!valid_object_id("67b17ff47acc96908fe325dg"));
    assert!(!valid_object_id("67b17ff47acc96908fe325d\u{00e9}"));
    assert!(!valid_object_id(" 7b17ff47acc96908fe325d8"));
}

#[test]
fn require_object_id_refuses_with_the_text_given() {
    assert!(require_object_id(ID, "Invalid ID format").is_ok());
    let refusal = require_object_id("nope", "Invalid ID format").unwrap_err();
    assert_eq!(refusal.status, 400);
    assert_eq!(refusal.message, "Invalid ID format");
}

#[test]
fn the_id_header_must_be_there_and_be_text() {
    assert_eq!(id_from_header(HeaderId::Text("abc".to_string())).unwrap(), "abc");
    let refusal = id_from_header(HeaderId::Missing).unwrap_err();
    assert_eq!((refusal.status, refusal.message.as_str()), (400, "Missing id header"));
    let refusal = id_from_header(HeaderId::NotText).unwrap_err();
    assert_eq!((refusal.status, refusal.message.as_str()), (400, "Invalid id format"));
}

#[test]
fn the_tail_of_a_path_is_what_follows_its_last_slash() {
    for path in ["", "abc", "a/b", "a/b/", "/", "//x", "a/\u{00e9}b/c\u{4e2d}"] {
        assert_eq!(path_tail(path), path.split('/').last().unwrap());
    }
    assert_eq!(path_tail("x/67b17ff47acc96908fe325d8"), ID);
}

#[test]
fn a_new_shelter_obeys_three_rules_in_order() {
    assert!(create_shelter_service(&shelter("Hall", 10, 10)).is_ok());
    assert!(create_shelter_service(&shelter("Hall", 10, 0)).is_ok());
    let refusal = create_shelter_service(&shelter(" ", 0, 5)).unwrap_err();
    assert_eq!((refusal.status, refusal.message.as_str()), (400, "All text fields must be non-empty"));
    let mut blank_country = shelter("Hall", 10, 5);
    blank_country.country = "\t".to_string();
    let refusal = create_shelter_service(&blank_country).unwrap_err();
    assert_eq!(refusal.message, "All text fields must be non-empty");
    let refusal = create_shelter_service(&shelter("Hall", 0, 5)).unwrap_err();
    assert_eq!((refusal.status, refusal.message.as_str()), (400, "Capacity must be greater than zero"));
    let refusal = create_shelter_service(&shelter("Hall", 10, 11)).unwrap_err();
    assert_eq!(
        (refusal.status, refusal.message.as_str()),
        (400, "Available beds cannot exceed total capacity")
    );
}

#[test]
fn a_shelter_update_checks_beds_before_the_header() {
    let refusal = update_shelter_service(&shelter("Hall", 10, 11), HeaderId::Missing).unwrap_err();
    assert_eq!(refusal.message, "Available beds cannot exceed total capacity");
    let refusal = update_shelter_service(&shelter("Hall", 10, 10), HeaderId::Missing).unwrap_err();
    assert_eq!(refusal.message, "Missing id header");
    assert_eq!(update_shelter_service(&shelter("", 0, 0), HeaderId::Text(ID.to_string())).unwrap(), ID);
    assert_eq!(delete_shelter_service(HeaderId::Text(ID.to_string())).unwrap(), ID);
    assert_eq!(delete_shelter_service(HeaderId::NotText).unwrap_err().message, "Invalid id format");
}

#[test]
fn creating_a_shelter_answers_with_its_id() {
    assert!(check_new_shelter(false).is_ok());
    let refusal = check_new_shelter(true).unwrap_err();
    assert_eq!((refusal.status, refusal.message.as_str()), (400, "Shelter already present"));
    let reply = create_shelters(InsertOutcome::Inserted(Some(ID.to_string()))).unwrap();
    assert_eq!(reply.code, 201);
    assert!(reply.body.status);
    assert_eq!(reply.body.message, "Shelter created successfully");
    assert_eq!(reply.body.data, ID);
    let refusal = create_shelters(InsertOutcome::Inserted(None)).unwrap_err();
    assert_eq!((refusal.status, refusal.message.as_str()), (500, "Failed to retrieve inserted ID"));
    let refusal = create_shelters(InsertOutcome::Failed("timeout".to_string())).unwrap_err();
    assert_eq!((refusal.status, refusal.message.as_str()), (500, "Database error: timeout"));
}

#[test]
fn listing_shelters_counts_unreadable_ones_as_none() {
    let reply = get_shelters(FetchOutcome::Fetched(vec![shelter("Hall", 1, 1)])).unwrap();
    assert_eq!(reply.code, 200);
    assert_eq!(reply.body.message, "Shelters retrieved successfully");
    assert_eq!(reply.body.data.len(), 1);
    assert_eq!(reply.body.data[0].name, "Hall");
    let reply = get_shelters(FetchOutcome::Unreadable("bad document".to_string())).unwrap();
    assert_eq!(reply.code, 200);
    assert!(reply.body.data.is_empty());
    let refusal = get_shelters(FetchOutcome::Failed("down".to_string())).unwrap_err();
    assert_eq!((refusal.status, refusal.message.as_str()), (500, "Error fetching shelters: down"));
}

#[test]
fn writes_to_a_shelter_need_exactly_one_match() {
    assert!(shelter_id(ID).is_ok());
    assert_eq!(shelter_id("x").unwrap_err().message, "Invalid ID format");
    let reply = delete_shelter(ID.to_string(), WriteOutcome::Affected(1)).unwrap();
    assert_eq!((reply.code, reply.body.message.as_str(), reply.body.data.as_str()), (200, "Shelter deleted successfully", ID));
    let reply = update_shelters(ID.to_string(), WriteOutcome::Affected(1)).unwrap();
    assert_eq!((reply.code, reply.body.message.as_str(), reply.body.data.as_str()), (200, "Shelter updated successfully", ID));
    for count in [0, 2] {
        let refusal = delete_shelter(ID.to_string(), WriteOutcome::Affected(count)).unwrap_err();
        assert_eq!((refusal.status, refusal.message.as_str()), (404, "Shelter not found"));
        let refusal = update_shelters(ID.to_string(), WriteOutcome::Affected(count)).unwrap_err();
        assert_eq!((refusal.status, refusal.message.as_str()), (404, "Shelter not found"));
    }
    let refusal = delete_shelter(ID.to_string(), WriteOutcome::Failed("down".to_string())).unwrap_err();
    assert_eq!((refusal.status, refusal.message.as_str()), (500, "Database error: down"));
}

#[test]
fn a_new_resource_obeys_three_rules_in_order() {
    assert!(create_resource_service(&details("Water", 1000), true).is_ok());
    let refusal = create_resource_service(&details(" ", 0), false).unwrap_err();
    assert_eq!((refusal.status, refusal.message.as_str()), (400, "All fields must be non-empty"));
    let refusal = create_resource_service(&details("Water", 0), false).unwrap_err();
    assert_eq!((refusal.status, refusal.message.as_str()), (400, "Quantity must be greater than zero"));
    let refusal = create_resource_service(&details("Water", 1), false).unwrap_err();
    assert_eq!(
        (refusal.status, refusal.message.as_str()),
        (400, "Invalid coordinates. Latitude must be between -90 and 90, longitude between -180 and 180")
    );
}

#[test]
fn a_resource_update_checks_quantity_coordinates_then_header() {
    let refusal = update_resource_service(&details("", 0), false, HeaderId::Missing).unwrap_err();
    assert_eq!(refusal.message, "Quantity must be greater than zero");
    let refusal = update_resource_service(&details("", 1), false, HeaderId::Missing).unwrap_err();
    assert!(refusal.message.starts_with("Invalid coordinates."));
    let refusal = update_resource_service(&details("", 1), true, HeaderId::Missing).unwrap_err();
    assert_eq!(refusal.message, "Missing id header");
    assert_eq!(update_resource_service(&details("", 1), true, HeaderId::Text(ID.to_string())).unwrap(), ID);
    assert_eq!(delete_resource_service(HeaderId::Text(ID.to_string())).unwrap(), ID);
}

#[test]
fn resource_answers_follow_the_store() {
    let reply = create_resource(InsertOutcome::Inserted(Some(ID.to_string()))).unwrap();
    assert_eq!((reply.code, reply.body.message.as_str(), reply.body.data.as_str()), (201, "Resource created successfully", ID));
    assert_eq!(create_resource(InsertOutcome::Inserted(None)).unwrap_err().message, "Failed to retrieve inserted ID");
    assert_eq!(create_resource(InsertOutcome::Failed("x".to_string())).unwrap_err().message, "Database error: x");

    let reply = get_resources(FetchOutcome::Fetched(vec![1u8, 2, 3])).unwrap();
    assert_eq!((reply.code, reply.body.message.as_str()), (200, "Resources retrieved successfully"));
    assert_eq!(reply.body.data, vec![1u8, 2, 3]);
    let refusal = get_resources::<u8>(FetchOutcome::Unreadable("x".to_string())).unwrap_err();
    assert_eq!((refusal.status, refusal.message.as_str()), (500, "Failed to collect resources: x"));
    let refusal = get_resources::<u8>(FetchOutcome::Failed("x".to_string())).unwrap_err();
    assert_eq!((refusal.status, refusal.message.as_str()), (500, "Database error: x"));

    assert!(resource_id(ID).is_ok());
    assert_eq!(resource_id("zz").unwrap_err().message, "Invalid ID format");
    assert!(resource_document(None).is_ok());
    let refusal = resource_document(Some("nan".to_string())).unwrap_err();
    assert_eq!((refusal.status, refusal.message.as_str()), (500, "Failed to serialize resource: nan"));

    let reply = delete_resource(WriteOutcome::Affected(1)).unwrap();
    assert_eq!((reply.code, reply.body.message.as_str(), reply.body.data.as_str()), (200, "Resource deleted successfully", "Resource removed from database"));
    let reply = update_resource(WriteOutcome::Affected(1)).unwrap();
    assert_eq!((reply.code, reply.body.message.as_str(), reply.body.data.as_str()), (200, "Resource updated successfully", "Resource information updated"));
    assert_eq!(delete_resource(WriteOutcome::Affected(0)).unwrap_err().status, 404);
    assert_eq!(update_resource(WriteOutcome::Affected(0)).unwrap_err().message, "Resource not found");
    assert_eq!(update_resource(WriteOutcome::Failed("x".to_string())).unwrap_err().message, "Database error: x");
}

#[test]
fn a_disaster_record_needs_a_name_and_a_description() {
    let record = |name: &str, short: &str| DisasterRecord {
        id: None,
        name: name.to_string(),
        effects: String::new(),
        short_description: short.to_string(),
        youtube_link: String::new(),
    };
    assert!(add_disaster_service(&record("Flood", "Rising water")).is_ok());
    for (name, short) in [("", "Rising water"), ("Flood", " "), ("", "")] {
        let refusal = add_disaster_service(&record(name, short)).unwrap_err();
        assert_eq!((refusal.status, refusal.message.as_str()), (400, "Name and description must not be empty"));
    }
}

#[test]
fn an_entry_needs_a_message_and_starts_accepted() {
    let item = add_dos_service(Some("Move to higher ground")).unwrap();
    assert_eq!(item.user_id, ID);
    assert!(valid_object_id(&item.user_id));
    assert_eq!(item.status, "Accepted");
    assert_eq!(item.message, "Move to higher ground");
    let item = add_donts_service(Some("")).unwrap();
    assert_eq!(item.message, "");
    for refusal in [add_dos_service(None).unwrap_err(), add_donts_service(None).unwrap_err()] {
        assert_eq!((refusal.status, refusal.message.as_str()), (400, "Message field is required"));
    }
}

#[test]
fn a_record_is_named_by_the_tail_of_the_path() {
    assert_eq!(get_disaster_record_service(ID).unwrap(), ID);
    assert_eq!(get_disaster_record_service("a/b/67b17ff47acc96908fe325d8").unwrap(), ID);
    assert_eq!(get_all_disaster_record_service("/67b17ff47acc96908fe325d8").unwrap(), ID);
    for path in ["", "abc", "67b17ff47acc96908fe325d8/", "67b17ff47acc96908fe325d8/x"] {
        let refusal = get_disaster_record_service(path).unwrap_err();
        assert_eq!((refusal.status, refusal.message.as_str()), (400, "Invalid disaster record ID format"));
        assert_eq!(get_all_disaster_record_service(path).unwrap_err().message, "Invalid disaster record ID format");
    }
}

#[test]
fn a_change_checks_the_record_then_the_entry_then_the_status() {
    assert_eq!(update_dos_service(ID, ID, Some("Accepted")).unwrap(), "Accepted");
    assert_eq!(update_donts_service(ID, ID, Some("anything")).unwrap(), "anything");
    let refusal = update_dos_service("x", "y", None).unwrap_err();
    assert_eq!((refusal.status, refusal.message.as_str()), (400, "Invalid disaster ID format"));
    let refusal = update_dos_service(ID, "y", None).unwrap_err();
    assert_eq!((refusal.status, refusal.message.as_str()), (400, "Invalid guide item ID format"));
    let refusal = update_donts_service(ID, ID, None).unwrap_err();
    assert_eq!(
        (refusal.status, refusal.message.as_str()),
        (400, "Missing or invalid status field in request body")
    );
}

#[test]
fn creating_a_record_stores_its_guide_under_its_id() {
    assert_eq!(add_disaster_record(InsertOutcome::Inserted(Some(ID.to_string()))).unwrap(), ID);
    let refusal = add_disaster_record(InsertOutcome::Inserted(None)).unwrap_err();
    assert_eq!((refusal.status, refusal.message.as_str()), (500, "Failed to extract ObjectId from inserted record"));
    let refusal = add_disaster_record(InsertOutcome::Failed("x".to_string())).unwrap_err();
    assert_eq!((refusal.status, refusal.message.as_str()), (500, "Failed to insert record"));
    let guide = empty_guide(ID);
    assert_eq!(guide.disaster_id, ID);
    assert!(guide.id.is_none() && guide.dos.is_empty() && guide.donts.is_empty());
    let reply = add_disaster(ID.to_string(), true).unwrap();
    assert_eq!((reply.code, reply.body.message.as_str(), reply.body.data.as_str()), (200, "New disaster record created successfully.", ID));
    let refusal = add_disaster(ID.to_string(), false).unwrap_err();
    assert_eq!((refusal.status, refusal.message.as_str()), (500, "Failed to insert guide record"));
}

#[test]
fn adding_an_entry_needs_a_record_to_add_to() {
    let reply = add_dos(ID.to_string(), "m".to_string(), WriteOutcome::Affected(1)).unwrap();
    assert_eq!((reply.code, reply.body.message.as_str()), (200, "Successfully added to do_s array"));
    assert_eq!((reply.body.data.disaster_id.as_str(), reply.body.data.message.as_str()), (ID, "m"));
    let refusal = add_dos(ID.to_string(), "m".to_string(), WriteOutcome::Affected(0)).unwrap_err();
    assert_eq!((refusal.status, refusal.message.as_str()), (404, "No record found"));
    let refusal = add_dos(ID.to_string(), "m".to_string(), WriteOutcome::Failed("x".to_string())).unwrap_err();
    assert_eq!((refusal.status, refusal.message.as_str()), (500, "Failed to update record"));

    let reply = add_donts(ID.to_string(), "m".to_string(), WriteOutcome::Affected(2)).unwrap();
    assert_eq!((reply.code, reply.body.message.as_str()), (200, "Successfully added to dont_s array"));
    let refusal = add_donts(ID.to_string(), "m".to_string(), WriteOutcome::Affected(0)).unwrap_err();
    assert_eq!((refusal.status, refusal.message.as_str()), (404, "No record found with the given ID"));
    let refusal = add_donts(ID.to_string(), "m".to_string(), WriteOutcome::Failed("x".to_string())).unwrap_err();
    assert_eq!((refusal.status, refusal.message.as_str()), (500, "Failed to update record: x"));
}

#[test]
fn a_record_without_guide_is_not_found() {
    assert_eq!(guides_found(Some(vec![1u8])).unwrap(), vec![1u8]);
    let refusal = guides_found::<u8>(Some(vec![])).unwrap_err();
    assert_eq!((refusal.status, refusal.message.as_str()), (404, "No matching records found"));
    let refusal = guides_found::<u8>(None).unwrap_err();
    assert_eq!((refusal.status, refusal.message.as_str()), (500, "Failed to fetch disaster record"));

    let reply = get_disaster_record(vec![1u8], FetchOutcome::Fetched(vec!["r"])).unwrap();
    assert_eq!(reply.code, 200);
    assert_eq!(reply.body.message, "Successfully fetched disaster record with accepted dos and donts");
    assert_eq!(reply.body.data.disaster_record, vec!["r"]);
    assert_eq!(reply.body.data.disaster_guide, vec![1u8]);
    let reply = get_all_disaster_record(vec![1u8], FetchOutcome::<&str>::Unreadable("x".to_string())).unwrap();
    assert!(reply.body.data.disaster_record.is_empty());
    assert_eq!(reply.body.data.disaster_guide, vec![1u8]);
    let refusal = get_disaster_record(vec![1u8], FetchOutcome::<&str>::Failed("x".to_string())).unwrap_err();
    assert_eq!((refusal.status, refusal.message.as_str()), (500, "Failed to fetch disaster record"));
}

#[test]
fn only_accepted_and_rejected_are_statuses() {
    assert_eq!(guide_change("Accepted").unwrap(), GuideChange::Accept);
    assert_eq!(guide_change("Rejected").unwrap(), GuideChange::Remove);
    for status in ["accepted", "Pending", "", "Accepted "] {
        let refusal = guide_change(status).unwrap_err();
        assert_eq!((refusal.status, refusal.message.as_str()), (400, "Invalid status provided"));
    }
}

#[test]
fn a_rejected_entry_is_removed_and_an_accepted_one_fetched() {
    match update_dos(GuideChange::Remove, ID.to_string(), WriteOutcome::Affected(1)).unwrap() {
        GuideUpdate::Removed(reply) => {
            assert_eq!((reply.code, reply.body.message.as_str()), (200, "Item removed successfully"));
            assert_eq!(reply.body.data.item_id, ID);
            assert_eq!(reply.body.data.matched_count, 1);
            assert!(reply.body.data.updated_item.is_none());
        }
        other => panic!("unexpected {:?}", other),
    }
    match update_donts(GuideChange::Accept, ID.to_string(), WriteOutcome::Affected(3)).unwrap() {
        GuideUpdate::Accepted { item_id, matched_count } => {
            assert_eq!(item_id, ID);
            assert_eq!(matched_count, 3);
        }
        other => panic!("unexpected {:?}", other),
    }
    let refusal = update_dos(GuideChange::Accept, ID.to_string(), WriteOutcome::Affected(0)).unwrap_err();
    assert_eq!((refusal.status, refusal.message.as_str()), (404, "No matching record found"));
    let refusal = update_donts(GuideChange::Remove, ID.to_string(), WriteOutcome::Failed("x".to_string())).unwrap_err();
    assert_eq!((refusal.status, refusal.message.as_str()), (500, "Update failed: x"));

    let reply = updated_item_reply(ID.to_string(), 1, Some("item"));
    assert_eq!((reply.code, reply.body.message.as_str()), (200, "Status updated successfully"));
    assert_eq!(reply.body.data.updated_item, Some("item"));
    let reply = updated_item_reply::<&str>(ID.to_string(), 1, None);
    assert_eq!(reply.body.message, "Status updated successfully, but no updated item found");
    assert_eq!((reply.body.data.item_id.as_str(), reply.body.data.matched_count), (ID, 1));
}

#[test]
fn the_route_tables_say_what_is_protected() {
    let shelters = shelters_routes();
    assert_eq!(shelters.len(), 4);
    assert!(shelters.iter().all(|r| r.authenticated && r.required_role.is_none()));
    assert_eq!((shelters[0].method, shelters[0].path.as_str()), (Method::Get, "/get_shelters"));

    let resources = resources_routes();
    let open: Vec<&str> = resources.iter().filter(|r| !r.authenticated).map(|r| r.path.as_str()).collect();
    assert_eq!(open, vec!["/get_resources"]);

    assert!(user_routes().iter().all(|r| !r.authenticated && r.method == Method::Post));

    let disaster = create_routes();
    let ngo: Vec<&str> = disaster
        .iter()
        .filter(|r| r.required_role.as_deref() == Some("ngo"))
        .map(|r| r.path.as_str())
        .collect();
    assert_eq!(ngo, vec!["/update_do/{dr_id}/{gi_id}", "/update_dont/{dr_id}/{gi_id}"]);
    assert!(disaster.iter().all(|r| r.authenticated));
}

#[test]
fn merging_mounts_each_family_under_its_prefix() {
    let all = merge_routes();
    let paths: Vec<&str> = all.iter().map(|r| r.path.as_str()).collect();
    assert_eq!(
        paths,
        vec![
            "/shelters/get_shelters",
            "/shelters/create_shelter",
            "/shelters/delete_shelter",
            "/shelters/update_shelter",
            "/user/login",
            "/user/register",
            "/resources/create_resource",
            "/resources/delete_resource",
            "/resources/update_resource",
            "/resources/get_resources",
            "/disaster/update_do/{dr_id}/{gi_id}",
            "/disaster/update_dont/{dr_id}/{gi_id}",
            "/disaster/add_disaster_record",
            "/disaster/add_do/{dr_id}",
            "/disaster/add_dont/{dr_id}",
            "/disaster/get_disaster_record/{dr_id}",
        ]
    );
    assert!(all.iter().all(|r| r.required_role.is_none() || r.authenticated));
    assert_eq!(all[10].required_role.as_deref(), Some("ngo"));
    assert_eq!(all[10].method, Method::Patch);
    assert_eq!(all[9].method, Method::Get);
    assert!(!all[9].authenticated);
}

#[test]
fn a_log_line_holds_time_method_and_address() {
    assert_eq!(
        log_request("2025-02-16T10:00:00+05:30", "GET", "/shelters/get_shelters"),
        "[2025-02-16T10:00:00+05:30] GET /shelters/get_shelters\n"
    );
    assert_eq!(log_request("", "", ""), "[]  \n");
}

#[test]
fn a_failing_feed_is_answered_with_500() {
    assert_eq!(events_url(), "https://www.gdacs.org/gdacsapi/api/events/geteventlist/EVENTS4APP");
    let refusal = disaster_event_data(FeedFailure::Unreachable("dns".to_string()));
    assert_eq!((refusal.status, refusal.message.as_str()), (500, "Error fetching GDACS API: dns"));
    let refusal = disaster_event_data(FeedFailure::Unreadable("eof".to_string()));
    assert_eq!((refusal.status, refusal.message.as_str()), (500, "Error parsing JSON: eof"));
}

#[test]
fn envelopes_say_whether_the_request_succeeded() {
    let reply = success_response("done", 7u8, 201);
    assert_eq!((reply.code, reply.body.status, reply.body.message.as_str(), reply.body.data), (201, true, "done", 7u8));
    let reply = error_response("failed", 404);
    assert_eq!((reply.code, reply.body.status, reply.body.message.as_str()), (404, false, "failed"));
    assert!(reply.body.data.is_empty());
    let reply = refuse(400, "no").envelope();
    assert_eq!((reply.code, reply.body.status, reply.body.message.as_str()), (400, false, "no"));
    assert_eq!(refuse_with(500, "Database error: ", "x").message, "Database error: x");
}
