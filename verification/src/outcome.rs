//! How a repository turns the database's reply into its result.
use crate::error::AppError;
use crate::model::{hex_lower, ObjectId, Otp, RecipeTemplate, SavedRequest, Workspace};
use vstd::prelude::*;

verus! {

/// `prefix` followed by the id's text.
fn text_with_id(prefix: &str, id: &ObjectId) -> (text: String)
    ensures
        text@ == prefix@ + hex_lower(id.bytes@),
{
    let mut text = String::from_str(prefix);
    let hex = id.to_hex();
    text.append(hex.as_str());
    text
}

/// The reply to a lookup by id of a recipe template.
pub fn recipe_template_found(found: Option<RecipeTemplate>, id: &ObjectId) -> (res: Result<RecipeTemplate, AppError>)
    ensures
        match found {
            Some(template) => res == Ok::<RecipeTemplate, AppError>(template),
            None => res matches Err(AppError::NotFound(msg))
                && msg@ == "Recipe template not found with id: "@ + hex_lower(id.bytes@),
        },
{
    match found {
        Some(template) => Ok(template),
        None => Err(AppError::NotFound(text_with_id("Recipe template not found with id: ", id))),
    }
}

/// The reply to the deletion by id of a recipe template, given how many
/// documents the server deleted.
pub fn recipe_template_deleted(deleted_count: u64, id: &ObjectId) -> (res: Result<(), AppError>)
    ensures
        deleted_count == 0 <==> res is Err,
        deleted_count == 0 ==> (res matches Err(AppError::NotFound(msg))
            && msg@ == "Recipe template not found for deletion: "@ + hex_lower(id.bytes@)),
{
    if deleted_count == 0 {
        return Err(AppError::NotFound(text_with_id("Recipe template not found for deletion: ", id)));
    }
    Ok(())
}

/// The reply to a lookup by id of a saved request.
pub fn saved_request_found(found: Option<SavedRequest>, id: &ObjectId) -> (res: Result<SavedRequest, AppError>)
    ensures
        match found {
            Some(request) => res == Ok::<SavedRequest, AppError>(request),
            None => res matches Err(AppError::NotFound(msg))
                && msg@ == "Request not found with id: "@ + hex_lower(id.bytes@),
        },
{
    match found {
        Some(request) => Ok(request),
        None => Err(AppError::NotFound(text_with_id("Request not found with id: ", id))),
    }
}

/// The reply to the deletion by id of a saved request, given how many
/// documents the server deleted.
pub fn saved_request_deleted(deleted_count: u64, id: &ObjectId) -> (res: Result<(), AppError>)
    ensures
        deleted_count == 0 <==> res is Err,
        deleted_count == 0 ==> (res matches Err(AppError::NotFound(msg))
            && msg@ == "Request not found for deletion: "@ + hex_lower(id.bytes@)),
{
    if deleted_count == 0 {
        return Err(AppError::NotFound(text_with_id("Request not found for deletion: ", id)));
    }
    Ok(())
}

/// The id under which a saved request is replaced; a request without an id
/// cannot be updated.
pub fn saved_request_update_target(request: &SavedRequest) -> (res: Result<ObjectId, AppError>)
    ensures
        match request.id {
            Some(id) => res == Ok::<ObjectId, AppError>(id),
            None => res matches Err(AppError::InternalError(msg))
                && msg@ == "Cannot update request without ID"@,
        },
{
    match request.id {
        Some(id) => Ok(id),
        None => Err(AppError::InternalError(String::from_str("Cannot update request without ID"))),
    }
}

/// The reply to a lookup by id of a workspace.
pub fn workspace_found(found: Option<Workspace>, id: &ObjectId) -> (res: Result<Workspace, AppError>)
    ensures
        match found {
            Some(workspace) => res == Ok::<Workspace, AppError>(workspace),
            None => res matches Err(AppError::NotFound(msg))
                && msg@ == "Workspace not found with id: "@ + hex_lower(id.bytes@),
        },
{
    match found {
        Some(workspace) => Ok(workspace),
        None => Err(AppError::NotFound(text_with_id("Workspace not found with id: ", id))),
    }
}

/// The reply to a lookup of the OTP of an e-mail address.
pub fn otp_found(found: Option<Otp>) -> (res: Result<Otp, AppError>)
    ensures
        match found {
            Some(otp) => res == Ok::<Otp, AppError>(otp),
            None => res matches Err(AppError::NotFound(msg)) && msg@ == "OTP not found for email"@,
        },
{
    match found {
        Some(otp) => Ok(otp),
        None => Err(AppError::NotFound(String::from_str("OTP not found for email"))),
    }
}

} // verus!
