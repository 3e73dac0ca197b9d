use txio_api::error::{is_duplicate_key_error, text_mentions, AppError, DatabaseError};
use txio_api::indexes::{
    otp_created_at_ttl_index, otp_email_unique_index, otp_index, otp_index_setup_next,
    otp_index_setup_start, recipe_template_user_index, rpc_log_user_index,
    saved_request_collection_index, workspace_user_index, OtpIndex, OtpIndexSetup, SetupAction,
    OTP_TTL_SECONDS,
};
use txio_api::model::{ObjectId, Otp, RecipeTemplate, SavedRequest, Workspace};
use txio_api::otp::{otp_replace_filter, otp_upsert_outcome, surplus_ids};
use txio_api::outcome::{
    otp_found, recipe_template_deleted, recipe_template_found, saved_request_deleted,
    saved_request_found, saved_request_update_target, workspace_found,
};
use txio_api::queries::{recent_logs_query, user_logs_query};
use txio_api::routes::{admin_routes, AdminEndpoint, HttpMethod};
use txio_api::workspace::sort_by_creation;

fn oid(seed: u8) -> ObjectId {
    let mut bytes = [0u8; 12];
    for (i, b) in bytes.iter_mut().enumerate() {
        *b = seed.wrapping_add(i as u8);
    }
    ObjectId { bytes }
}

fn otp(email: &str, created_at_ms: i64) -> Otp {
    Otp {
        id: None,
        email: email.to_string(),
        code: "123456".to_string(),
        created_at_ms,
        failed_attempts: 0,
    }
}

fn db_error(command_code: Option<i32>, write_error_code: Option<i32>, message: &str) -> DatabaseError {
    DatabaseError { command_code, write_error_code, message: message.to_string() }
}

fn workspace(name: &str, created_at_ms: i64) -> Workspace {
    Workspace { id: None, user_id: oid(1), name: name.to_string(), created_at_ms }
}

#[test]
fn object_id_text_is_lower_case_hex() {
    assert_eq!(oid(0).to_hex(), "000102030405060708090a0b");
    assert_eq!(oid(0xf0).to_hex(), "f0f1f2f3f4f5f6f7f8f9fafb");
}

#[test]
fn otp_save_keeps_own_id_without_object_id() {
    let mut with_id = otp("a@b.io", 10);
    with_id.id = Some(oid(7));
    let stored = with_id.clone().with_inserted_id(None);
    assert_eq!(stored.id, Some(oid(7)));
    let stored = with_id.with_inserted_id(Some(oid(9)));
    assert_eq!(stored.id, Some(oid(9)));
    assert_eq!(stored.email, "a@b.io");
}

#[test]
fn other_saves_take_the_inserted_id() {
    let template = RecipeTemplate { id: Some(oid(3)), user_id: oid(1), name: "t".into(), content: "{}".into() };
    assert_eq!(template.with_inserted_id(None).id, None);
    let request = SavedRequest {
        id: None,
        collection_id: oid(2),
        name: "r".into(),
        method: "sui_getChainIdentifier".into(),
        params: "[]".into(),
    };
    let stored = request.with_inserted_id(Some(oid(4)));
    assert_eq!(stored.id, Some(oid(4)));
    assert_eq!(stored.collection_id, oid(2));
    let ws = workspace("w", 5).with_inserted_id(Some(oid(6)));
    assert_eq!(ws.id, Some(oid(6)));
    assert_eq!(ws.created_at_ms, 5);
}

#[test]
fn duplicate_key_by_codes() {
    assert!(is_duplicate_key_error(&db_error(Some(11000), None, "")));
    assert!(is_duplicate_key_error(&db_error(Some(11001), None, "x")));
    assert!(is_duplicate_key_error(&db_error(None, Some(12582), "x")));
    assert!(!is_duplicate_key_error(&db_error(Some(121), None, "Document failed validation")));
    assert!(!is_duplicate_key_error(&db_error(None, Some(11002), "write failed")));
}

#[test]
fn duplicate_key_by_text() {
    assert!(is_duplicate_key_error(&db_error(None, None, "E11000 duplicate key error collection: txio.otps")));
    assert!(is_duplicate_key_error(&db_error(Some(2), None, "Plan executor error :: caused by :: DuplicateKey")));
    assert!(is_duplicate_key_error(&db_error(None, None, "écriture: duplicate key")));
    assert!(!is_duplicate_key_error(&db_error(None, None, "duplicate  key")));
    assert!(!is_duplicate_key_error(&db_error(None, None, "e11000")));
    assert!(!is_duplicate_key_error(&db_error(None, None, "")));
}

#[test]
fn text_search_edges() {
    assert!(text_mentions("abc", ""));
    assert!(text_mentions("", ""));
    assert!(!text_mentions("", "a"));
    assert!(text_mentions("abc", "abc"));
    assert!(!text_mentions("ab", "abc"));
    assert!(text_mentions("xxE11000", "E11000"));
}

#[test]
fn cooldown_filter_cutoff() {
    let new_otp = otp("a@b.io", 1_700_000_000_000);
    let filter = otp_replace_filter(&new_otp, 60);
    assert_eq!(filter.email, "a@b.io");
    assert_eq!(filter.issued_no_later_than_ms, 1_699_999_940_000);
    let filter = otp_replace_filter(&new_otp, 0);
    assert_eq!(filter.issued_no_later_than_ms, 1_700_000_000_000);
    let filter = otp_replace_filter(&otp("a@b.io", -5), -2);
    assert_eq!(filter.issued_no_later_than_ms, 1_995);
}

#[test]
fn cooldown_selects_only_old_otps() {
    let new_otp = otp("a@b.io", 100_000);
    let filter = otp_replace_filter(&new_otp, 30);
    let old = otp("a@b.io", 70_000);
    let recent = otp("a@b.io", 70_001);
    assert!(old.created_at_ms <= filter.issued_no_later_than_ms);
    assert!(recent.created_at_ms > filter.issued_no_later_than_ms);
}

#[test]
fn upsert_success_returns_the_otp() {
    let res = otp_upsert_outcome(otp("a@b.io", 1), Ok(()));
    assert_eq!(res.unwrap().email, "a@b.io");
}

#[test]
fn upsert_duplicate_is_rate_limited() {
    let res = otp_upsert_outcome(otp("a@b.io", 1), Err(db_error(Some(11000), None, "E11000")));
    match res {
        Err(AppError::BadRequest(msg)) => {
            assert_eq!(msg, "OTP request rate limit exceeded. Please try again later.")
        }
        other => panic!("unexpected {:?}", other),
    }
}

#[test]
fn upsert_other_failure_is_a_database_error() {
    let res = otp_upsert_outcome(otp("a@b.io", 1), Err(db_error(Some(13), None, "Unauthorized")));
    match res {
        Err(AppError::Database(err)) => {
            assert_eq!(err.command_code, Some(13));
            assert_eq!(err.message, "Unauthorized");
        }
        other => panic!("unexpected {:?}", other),
    }
}

#[test]
fn surplus_keeps_the_first_id() {
    assert_eq!(surplus_ids(vec![1, 2, 3]), Some(vec![2, 3]));
    assert_eq!(surplus_ids(vec![1, 2]), Some(vec![2]));
    assert_eq!(surplus_ids(vec![1]), None);
    assert_eq!(surplus_ids(Vec::<i32>::new()), None);
}

#[test]
fn lookups_and_not_found_messages() {
    let id = oid(0);
    match recipe_template_found(None, &id) {
        Err(AppError::NotFound(msg)) => assert_eq!(msg, "Recipe template not found with id: 000102030405060708090a0b"),
        other => panic!("unexpected {:?}", other),
    }
    match saved_request_found(None, &id) {
        Err(AppError::NotFound(msg)) => assert_eq!(msg, "Request not found with id: 000102030405060708090a0b"),
        other => panic!("unexpected {:?}", other),
    }
    match workspace_found(None, &id) {
        Err(AppError::NotFound(msg)) => assert_eq!(msg, "Workspace not found with id: 000102030405060708090a0b"),
        other => panic!("unexpected {:?}", other),
    }
    match otp_found(None) {
        Err(AppError::NotFound(msg)) => assert_eq!(msg, "OTP not found for email"),
        other => panic!("unexpected {:?}", other),
    }
    assert_eq!(workspace_found(Some(workspace("w", 1)), &id).unwrap().name, "w");
    assert_eq!(otp_found(Some(otp("x@y.z", 2))).unwrap().created_at_ms, 2);
}

#[test]
fn deletions_need_a_deleted_document() {
    let id = oid(0x10);
    assert!(recipe_template_deleted(1, &id).is_ok());
    assert!(saved_request_deleted(3, &id).is_ok());
    match recipe_template_deleted(0, &id) {
        Err(AppError::NotFound(msg)) => assert_eq!(msg, "Recipe template not found for deletion: 101112131415161718191a1b"),
        other => panic!("unexpected {:?}", other),
    }
    match saved_request_deleted(0, &id) {
        Err(AppError::NotFound(msg)) => assert_eq!(msg, "Request not found for deletion: 101112131415161718191a1b"),
        other => panic!("unexpected {:?}", other),
    }
}

#[test]
fn update_needs_an_id() {
    let mut request = SavedRequest {
        id: None,
        collection_id: oid(2),
        name: "r".into(),
        method: "m".into(),
        params: "[]".into(),
    };
    match saved_request_update_target(&request) {
        Err(AppError::InternalError(msg)) => assert_eq!(msg, "Cannot update request without ID"),
        other => panic!("unexpected {:?}", other),
    }
    request.id = Some(oid(8));
    assert_eq!(saved_request_update_target(&request).unwrap(), oid(8));
}

#[test]
fn index_definitions() {
    let ttl = otp_created_at_ttl_index();
    assert_eq!((ttl.field.as_str(), ttl.name.as_str()), ("created_at", "otps_created_at_ttl"));
    assert_eq!(ttl.expire_after_secs, Some(600));
    assert_eq!(OTP_TTL_SECONDS, 600);
    assert!(!ttl.unique);
    let email = otp_email_unique_index();
    assert_eq!((email.field.as_str(), email.name.as_str(), email.unique), ("email", "otps_email_unique", true));
    assert_eq!(email.expire_after_secs, None);
    assert_eq!(otp_index(OtpIndex::EmailUnique).name, "otps_email_unique");
    assert_eq!(otp_index(OtpIndex::CreatedAtTtl).name, "otps_created_at_ttl");
    assert_eq!(recipe_template_user_index().name, "recipe_templates_user_id_idx");
    assert_eq!(saved_request_collection_index().field, "collection_id");
    assert_eq!(saved_request_collection_index().name, "saved_requests_collection_id_idx");
    assert_eq!(rpc_log_user_index().name, "rpc_logs_user_id_idx");
    assert_eq!(workspace_user_index().name, "workspaces_user_id_idx");
    assert_eq!(workspace_user_index().field, "user_id");
}

#[test]
fn otp_index_setup_in_order() {
    let (state, action) = otp_index_setup_start::<AppError>();
    assert_eq!(state, OtpIndexSetup::RemovingDuplicates);
    assert!(matches!(action, SetupAction::RemoveDuplicateEmails));
    let (state, action) = otp_index_setup_next::<AppError>(state, Ok(()));
    assert_eq!(state, OtpIndexSetup::CreatingTtlIndex);
    assert!(matches!(action, SetupAction::CreateIndex(OtpIndex::CreatedAtTtl)));
    let (state, action) = otp_index_setup_next::<AppError>(state, Ok(()));
    assert_eq!(state, OtpIndexSetup::CreatingEmailIndex);
    assert!(matches!(action, SetupAction::CreateIndex(OtpIndex::EmailUnique)));
    let (state, action) = otp_index_setup_next::<AppError>(state, Ok(()));
    assert_eq!(state, OtpIndexSetup::Ended);
    assert!(matches!(action, SetupAction::Finish(Ok(()))));
}

#[test]
fn otp_index_setup_stops_at_first_failure() {
    let (state, _) = otp_index_setup_start::<AppError>();
    let (state, action) =
        otp_index_setup_next(state, Err(AppError::Database(db_error(Some(11000), None, "E11000"))));
    assert_eq!(state, OtpIndexSetup::Ended);
    match action {
        SetupAction::Finish(Err(AppError::Database(err))) => assert_eq!(err.command_code, Some(11000)),
        other => panic!("unexpected {:?}", other),
    }
    let (state, _) = otp_index_setup_next::<AppError>(OtpIndexSetup::RemovingDuplicates, Ok(()));
    let (state, action) = otp_index_setup_next(state, Err(AppError::InternalError("down".into())));
    assert_eq!(state, OtpIndexSetup::Ended);
    assert!(matches!(action, SetupAction::Finish(Err(AppError::InternalError(_)))));
}

#[test]
fn workspaces_oldest_first_and_stable() {
    let sorted = sort_by_creation(vec![
        workspace("c", 30),
        workspace("a1", 10),
        workspace("b", 20),
        workspace("a2", 10),
        workspace("z", -5),
        workspace("a3", 10),
    ]);
    let names: Vec<&str> = sorted.iter().map(|w| w.name.as_str()).collect();
    assert_eq!(names, vec!["z", "a1", "a2", "a3", "b", "c"]);
}

#[test]
fn sorting_sorted_workspaces_changes_nothing() {
    let once = sort_by_creation(vec![workspace("b", 2), workspace("a", 1), workspace("c", 2)]);
    let twice = sort_by_creation(once.clone());
    let a: Vec<&str> = once.iter().map(|w| w.name.as_str()).collect();
    let b: Vec<&str> = twice.iter().map(|w| w.name.as_str()).collect();
    assert_eq!(a, vec!["a", "b", "c"]);
    assert_eq!(a, b);
    assert!(sort_by_creation(Vec::new()).is_empty());
}

#[test]
fn log_queries() {
    let q = user_logs_query(oid(1), 50);
    assert_eq!(q.user_id, Some(oid(1)));
    assert!(q.newest_first);
    assert_eq!(q.limit, 50);
    let q = recent_logs_query(20);
    assert_eq!(q.user_id, None);
    assert!(q.newest_first);
    assert_eq!(q.limit, 20);
}

#[test]
fn admin_route_table() {
    let routes = admin_routes();
    let table: Vec<(&str, HttpMethod, AdminEndpoint)> =
        routes.iter().map(|r| (r.path.as_str(), r.method, r.endpoint)).collect();
    assert_eq!(
        table,
        vec![
            ("/users", HttpMethod::Get, AdminEndpoint::ListUsers),
            ("/users/delete", HttpMethod::Post, AdminEndpoint::DeleteUser),
            ("/stats", HttpMethod::Get, AdminEndpoint::Stats),
            ("/logs", HttpMethod::Get, AdminEndpoint::ListLogs),
        ]
    );
}
