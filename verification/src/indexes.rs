//! The indexes of the collections, and the order in which the OTP
//! collection's indexes are set up.
use vstd::prelude::*;

verus! {

/// An ascending single-field index.
#[derive(Clone, Debug)]
pub struct IndexSpec {
    /// The indexed field.
    pub field: String,
    /// The index's name.
    pub name: String,
    /// For a TTL index, how many seconds after the field's time a document
    /// expires.
    pub expire_after_secs: Option<u64>,
    /// No two documents may share the field's value.
    pub unique: bool,
}

/// The index `name` on `field`, ascending, with the given options.
fn index_on(field: &str, name: &str, expire_after_secs: Option<u64>, unique: bool) -> (spec: IndexSpec)
    ensures
        spec.field@ == field@,
        spec.name@ == name@,
        spec.expire_after_secs == expire_after_secs,
        spec.unique == unique,
{
    IndexSpec { field: String::from_str(field), name: String::from_str(name), expire_after_secs, unique }
}

/// How long, in seconds, MongoDB keeps an OTP document after it was issued,
/// even if it is never verified.
pub const OTP_TTL_SECONDS: u64 = 600;

/// The index of the OTP collection on `created_at` that makes MongoDB purge
/// an OTP ten minutes after it was issued.
pub fn otp_created_at_ttl_index() -> (spec: IndexSpec)
    ensures
        spec.field@ == "created_at"@,
        spec.name@ == "otps_created_at_ttl"@,
        spec.expire_after_secs == Some(600u64),
        !spec.unique,
{
    index_on("created_at", "otps_created_at_ttl", Some(OTP_TTL_SECONDS), false)
}

/// The index of the OTP collection that allows one OTP per e-mail address.
pub fn otp_email_unique_index() -> (spec: IndexSpec)
    ensures
        spec.field@ == "email"@,
        spec.name@ == "otps_email_unique"@,
        spec.expire_after_secs is None,
        spec.unique,
{
    index_on("email", "otps_email_unique", None, true)
}

/// The index of the recipe templates on their owner.
pub fn recipe_template_user_index() -> (spec: IndexSpec)
    ensures
        spec.field@ == "user_id"@,
        spec.name@ == "recipe_templates_user_id_idx"@,
        spec.expire_after_secs is None,
        !spec.unique,
{
    index_on("user_id", "recipe_templates_user_id_idx", None, false)
}

/// The index of the saved requests on their collection.
pub fn saved_request_collection_index() -> (spec: IndexSpec)
    ensures
        spec.field@ == "collection_id"@,
        spec.name@ == "saved_requests_collection_id_idx"@,
        spec.expire_after_secs is None,
        !spec.unique,
{
    index_on("collection_id", "saved_requests_collection_id_idx", None, false)
}

/// The index of the RPC logs on their user.
pub fn rpc_log_user_index() -> (spec: IndexSpec)
    ensures
        spec.field@ == "user_id"@,
        spec.name@ == "rpc_logs_user_id_idx"@,
        spec.expire_after_secs is None,
        !spec.unique,
{
    index_on("user_id", "rpc_logs_user_id_idx", None, false)
}

/// The index of the workspaces on their owner.
pub fn workspace_user_index() -> (spec: IndexSpec)
    ensures
        spec.field@ == "user_id"@,
        spec.name@ == "workspaces_user_id_idx"@,
        spec.expire_after_secs is None,
        !spec.unique,
{
    index_on("user_id", "workspaces_user_id_idx", None, false)
}

/// The two indexes of the OTP collection.
#[derive(Clone, Copy, Debug, PartialEq, Eq)]
pub enum OtpIndex {
    /// `otp_created_at_ttl_index`.
    CreatedAtTtl,
    /// `otp_email_unique_index`.
    EmailUnique,
}

/// The definition of one of the OTP collection's indexes.
pub fn otp_index(which: OtpIndex) -> (spec: IndexSpec)
    ensures
        which == OtpIndex::CreatedAtTtl ==> spec.name@ == "otps_created_at_ttl"@ && spec.field@ == "created_at"@
            && spec.expire_after_secs == Some(600u64) && !spec.unique,
        which == OtpIndex::EmailUnique ==> spec.name@ == "otps_email_unique"@ && spec.field@ == "email"@
            && spec.expire_after_secs is None && spec.unique,
{
    match which {
        OtpIndex::CreatedAtTtl => otp_created_at_ttl_index(),
        OtpIndex::EmailUnique => otp_email_unique_index(),
    }
}

/// Where the set-up of the OTP indexes stands.
#[derive(Clone, Copy, Debug, PartialEq, Eq)]
pub enum OtpIndexSetup {
    /// Removing the extra OTPs of addresses that have several.
    RemovingDuplicates,
    /// Creating the TTL index on `created_at`.
    CreatingTtlIndex,
    /// Creating the unique index on `email`.
    CreatingEmailIndex,
    /// The set-up has ended, well or not.
    Ended,
}

/// What the set-up asks of the database next.
#[derive(Debug)]
pub enum SetupAction<E> {
    /// Delete all OTPs of each address but one.
    RemoveDuplicateEmails,
    /// Create the index.
    CreateIndex(OtpIndex),
    /// Nothing more: the set-up ends with this result.
    Finish(Result<(), E>),
}

/// The set-up's first step: it starts by removing duplicate addresses,
/// without which the unique index could not be built.
pub fn otp_index_setup_start<E>() -> (step: (OtpIndexSetup, SetupAction<E>))
    ensures
        step == (OtpIndexSetup::RemovingDuplicates, SetupAction::<E>::RemoveDuplicateEmails),
{
    (OtpIndexSetup::RemovingDuplicates, SetupAction::RemoveDuplicateEmails)
}

/// The next state and action of the set-up, given where it stands.
pub open spec fn setup_transition<E>(state: OtpIndexSetup, outcome: Result<(), E>) -> (OtpIndexSetup, SetupAction<E>) {
    match outcome {
        Err(err) => (OtpIndexSetup::Ended, SetupAction::Finish(Err(err))),
        Ok(()) => match state {
            OtpIndexSetup::RemovingDuplicates => (OtpIndexSetup::CreatingTtlIndex, SetupAction::CreateIndex(OtpIndex::CreatedAtTtl)),
            OtpIndexSetup::CreatingTtlIndex => (OtpIndexSetup::CreatingEmailIndex, SetupAction::CreateIndex(OtpIndex::EmailUnique)),
            _ => (OtpIndexSetup::Ended, SetupAction::Finish(Ok(()))),
        },
    }
}

/// The set-up's next step, given the outcome of the action it asked for
/// last: after duplicates are removed it creates the TTL index, then the
/// unique index, then it ends well; the first failure ends it with that
/// failure.
pub fn otp_index_setup_next<E>(state: OtpIndexSetup, outcome: Result<(), E>) -> (step: (OtpIndexSetup, SetupAction<E>))
    requires
        state != OtpIndexSetup::Ended,
    ensures
        step == setup_transition(state, outcome),
{
    match outcome {
        Err(err) => (OtpIndexSetup::Ended, SetupAction::Finish(Err(err))),
        Ok(()) => match state {
            OtpIndexSetup::RemovingDuplicates => (OtpIndexSetup::CreatingTtlIndex, SetupAction::CreateIndex(OtpIndex::CreatedAtTtl)),
            OtpIndexSetup::CreatingTtlIndex => (OtpIndexSetup::CreatingEmailIndex, SetupAction::CreateIndex(OtpIndex::EmailUnique)),
            _ => (OtpIndexSetup::Ended, SetupAction::Finish(Ok(()))),
        },
    }
}

/// The actions the set-up asks for from `state` on, given the outcomes of
/// the database in order; it asks for nothing once it has ended.
pub open spec fn setup_actions_from<E>(state: OtpIndexSetup, outcomes: Seq<Result<(), E>>) -> Seq<SetupAction<E>>
    decreases outcomes.len(),
{
    if state == OtpIndexSetup::Ended || outcomes.len() == 0 {
        Seq::empty()
    } else {
        let (next, action) = setup_transition(state, outcomes[0]);
        seq![action] + setup_actions_from(next, outcomes.drop_first())
    }
}

/// Every action of a whole set-up, given the outcomes of the database.
pub open spec fn setup_actions<E>(outcomes: Seq<Result<(), E>>) -> Seq<SetupAction<E>> {
    seq![SetupAction::RemoveDuplicateEmails] + setup_actions_from(OtpIndexSetup::RemovingDuplicates, outcomes)
}

/// The set-up asks for the unique e-mail index only as its third action,
/// once the duplicates are gone and the TTL index is built; it never asks
/// for anything after its end; and it ends well exactly when the three steps
/// succeeded, otherwise with the first failure.
pub proof fn lemma_setup_order<E>(outcomes: Seq<Result<(), E>>)
    ensures
        forall|k: int| 0 <= k < setup_actions(outcomes).len()
            && #[trigger] setup_actions(outcomes)[k] == SetupAction::<E>::CreateIndex(OtpIndex::EmailUnique)
            ==> k == 2 && outcomes[0] is Ok && outcomes[1] is Ok,
        forall|k: int| 0 <= k < setup_actions(outcomes).len()
            && #[trigger] setup_actions(outcomes)[k] is Finish ==> k == setup_actions(outcomes).len() - 1,
        setup_actions(outcomes).len() <= 4,
        outcomes.len() >= 3 && outcomes[0] is Ok && outcomes[1] is Ok && outcomes[2] is Ok
            ==> setup_actions(outcomes) == seq![
                SetupAction::RemoveDuplicateEmails,
                SetupAction::CreateIndex(OtpIndex::CreatedAtTtl),
                SetupAction::CreateIndex(OtpIndex::EmailUnique),
                SetupAction::<E>::Finish(Ok(())),
            ],
        forall|i: int| 0 <= i < 3 && i < outcomes.len() && outcomes[i] is Err
            && (forall|j: int| 0 <= j < i ==> outcomes[j] is Ok)
            ==> #[trigger] setup_actions(outcomes) == setup_actions(outcomes).take(i + 1).push(SetupAction::Finish(outcomes[i])),
{
    let o = outcomes;
    let r = SetupAction::<E>::RemoveDuplicateEmails;
    let ttl = SetupAction::<E>::CreateIndex(OtpIndex::CreatedAtTtl);
    let email = SetupAction::<E>::CreateIndex(OtpIndex::EmailUnique);
    let t = setup_actions(o);
    if o.len() == 0 {
        assert(t =~= seq![r]);
    } else if o[0] is Err {
        assert(setup_actions_from(OtpIndexSetup::Ended, o.drop_first()) == Seq::<SetupAction<E>>::empty());
        assert(t =~= seq![r, SetupAction::Finish(o[0])]);
    } else {
        let o1 = o.drop_first();
        assert(setup_actions_from(OtpIndexSetup::RemovingDuplicates, o)
            == seq![ttl] + setup_actions_from(OtpIndexSetup::CreatingTtlIndex, o1));
        if o1.len() == 0 {
            assert(t =~= seq![r, ttl]);
        } else if o1[0] is Err {
            assert(setup_actions_from(OtpIndexSetup::Ended, o1.drop_first()) == Seq::<SetupAction<E>>::empty());
            assert(t =~= seq![r, ttl, SetupAction::Finish(o[1])]);
        } else {
            let o2 = o1.drop_first();
            assert(setup_actions_from(OtpIndexSetup::CreatingTtlIndex, o1)
                == seq![email] + setup_actions_from(OtpIndexSetup::CreatingEmailIndex, o2));
            if o2.len() == 0 {
                assert(t =~= seq![r, ttl, email]);
            } else {
                assert(setup_actions_from(OtpIndexSetup::Ended, o2.drop_first()) == Seq::<SetupAction<E>>::empty());
                if o2[0] is Err {
                    assert(t =~= seq![r, ttl, email, SetupAction::Finish(o[2])]);
                } else {
                    assert(t =~= seq![r, ttl, email, SetupAction::Finish(Ok(()))]);
                }
            }
        }
    }
}

} // verus!
