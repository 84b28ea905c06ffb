//! The chain side of a function: checking the registry's record against
//! the on-chain object, and minting that object.

use vstd::prelude::*;
use crate::error::{
    chain_error,
    chain_error_of,
    local_error,
    local_error_of,
    remote_error,
    remote_error_of,
    ChainFault,
    ErrorKind,
    Fault,
};
use crate::record::{
    bytes_of,
    lemma_same_text_same_bytes,
    ChainObjectRecord,
    ChainObjectRecordView,
    FunctionRecord,
    FunctionRecordView,
};
use crate::registry::info_action;
use crate::request::{get_of, member_url_of, Request, FUNCTIONS_URL};

verus! {

/// The outcome of comparing a registry record with the on-chain object:
/// success when the two contents are the same text, an assertion failure
/// when they are not.
pub open spec fn content_check_of(
    record: FunctionRecordView,
    object: ChainObjectRecordView,
) -> Result<(), ErrorKind> {
    if object.content == record.content {
        Ok(())
    } else {
        Err(ErrorKind::AssertionFailure)
    }
}

/// Compares the content that the registry holds with the content that
/// the chain holds. Only the contents count; names, descriptions and
/// addresses may differ.
pub fn check_content(
    record: &FunctionRecord,
    object: &ChainObjectRecord,
) -> (outcome: Result<(), ErrorKind>)
    ensures
        outcome == content_check_of(record@, object@),
{
    if object.content == record.content {
        Ok(())
    } else {
        Err(ErrorKind::AssertionFailure)
    }
}

/// How far a verification has come, with what the last step brought.
#[derive(Debug, PartialEq, Eq)]
pub enum VerifyStage {
    /// Nothing has happened yet; `name` is the function to verify.
    Begin { name: String },
    /// The registry answered with the function's record, or that failed.
    Record { fetched: Result<FunctionRecord, Fault> },
    /// The chain answered with the object, decoded, or that failed.
    Object { record: FunctionRecord, found: Result<ChainObjectRecord, ChainFault> },
}

/// What a shell has to do next for a verification.
#[derive(Debug, PartialEq, Eq)]
pub enum VerifyStep {
    /// Send `request` and decode the answer as a function record.
    FetchRecord { request: Request },
    /// Read the object `object_id` from the chain and decode its fields;
    /// keep `record` for the next stage.
    FetchObject { object_id: String, record: FunctionRecord },
    /// The on-chain content is the registry's content.
    Verified,
    /// The verification failed.
    Fail { error: ErrorKind },
}

/// The step that follows a stage of a verification.
pub open spec fn verify_follows(stage: VerifyStage, step: VerifyStep) -> bool {
    match stage {
        VerifyStage::Begin { name } => {
            &&& step matches VerifyStep::FetchRecord { request }
            &&& request@ == get_of(member_url_of(FUNCTIONS_URL@, name@))
        },
        VerifyStage::Record { fetched: Err(fault) } => {
            &&& step matches VerifyStep::Fail { error }
            &&& error == remote_error_of(fault)
        },
        VerifyStage::Record { fetched: Ok(fetched) } => {
            &&& step matches VerifyStep::FetchObject { object_id, record }
            &&& object_id@ == fetched.object_id@
            &&& record@ == fetched@
        },
        VerifyStage::Object { record, found: Err(fault) } => {
            &&& step matches VerifyStep::Fail { error }
            &&& error == chain_error_of(fault)
        },
        VerifyStage::Object { record, found: Ok(object) } => match content_check_of(
            record@,
            object@,
        ) {
            Ok(_) => step is Verified,
            Err(failure) => {
                &&& step matches VerifyStep::Fail { error }
                &&& error == failure
            },
        },
    }
}

/// Plans the `verify` command, one step at a time. A shell starts with
/// `VerifyStage::Begin`, performs the step that comes back, reports the
/// outcome as the next stage, and goes on until the step is `Verified`
/// or `Fail`.
///
/// The record is fetched from the registry by name; the object that its
/// `object_id` names is read from the chain; the two contents must be the
/// same. This checks one moment in time and nothing after it.
pub fn verify_action(stage: VerifyStage) -> (step: VerifyStep)
    ensures
        verify_follows(stage, step),
{
    match stage {
        VerifyStage::Begin { name } => VerifyStep::FetchRecord { request: info_action(name) },
        VerifyStage::Record { fetched } => match fetched {
            Ok(record) => {
                let object_id = record.object_id.clone();
                VerifyStep::FetchObject { object_id, record }
            },
            Err(fault) => VerifyStep::Fail { error: remote_error(fault) },
        },
        VerifyStage::Object { record, found } => match found {
            Ok(object) => match check_content(&record, &object) {
                Ok(_) => VerifyStep::Verified,
                Err(error) => VerifyStep::Fail { error },
            },
            Err(fault) => VerifyStep::Fail { error: chain_error(fault) },
        },
    }
}

/// Once registry record and on-chain object are both at hand, the outcome
/// depends on the bytes of the two contents alone: the function is
/// verified when they are equal, and the verification fails with an
/// assertion failure when the lengths differ or any one byte differs.
pub proof fn lemma_verify_compares_every_byte(
    record: FunctionRecord,
    object: ChainObjectRecord,
    step: VerifyStep,
)
    requires
        verify_follows(VerifyStage::Object { record, found: Ok(object) }, step),
    ensures
        bytes_of(object.content@) == bytes_of(record.content@) ==> step is Verified,
        bytes_of(object.content@).len() != bytes_of(record.content@).len() ==> step == (
        VerifyStep::Fail { error: ErrorKind::AssertionFailure }),
        forall|at: int|
            0 <= at < bytes_of(object.content@).len() && 0 <= at < bytes_of(record.content@).len()
                && bytes_of(object.content@)[at] != bytes_of(record.content@)[at] ==> step == (
            VerifyStep::Fail { error: ErrorKind::AssertionFailure }),
{
    lemma_same_text_same_bytes(object.content@, record.content@);
}

/// What is written on chain for a function: its name, its description
/// and its source.
#[derive(Clone, Debug, PartialEq, Eq)]
pub struct MintCall {
    pub name: String,
    pub description: String,
    pub content: String,
}

/// The view of [`MintCall`], every string as its sequence of characters.
pub struct MintCallView {
    pub name: Seq<char>,
    pub description: Seq<char>,
    pub content: Seq<char>,
}

impl View for MintCall {
    type V = MintCallView;

    open spec fn view(&self) -> MintCallView {
        MintCallView { name: self.name@, description: self.description@, content: self.content@ }
    }
}

/// The call that mints the on-chain object of a record.
pub open spec fn mint_call_of(record: FunctionRecordView) -> MintCallView {
    MintCallView { name: record.name, description: record.description, content: record.content }
}

/// Builds the call that mints the on-chain object of a record.
pub fn mint_call(record: FunctionRecord) -> (call: MintCall)
    ensures
        call@ == mint_call_of(record@),
{
    MintCall { name: record.name, description: record.description, content: record.content }
}

/// How far a minting has come, with what the last step brought.
#[derive(Debug, PartialEq, Eq)]
pub enum MintStage {
    /// Nothing has happened yet; `record` is the function to mint.
    Begin { record: FunctionRecord },
    /// The keystore was loaded, or that failed. The keys stay with the
    /// shell.
    Keystore { record: FunctionRecord, loaded: Result<(), Fault> },
    /// The transaction was executed and its effects name the object it
    /// created, or name none, or the submission failed.
    Effects { created: Result<Option<String>, Fault> },
}

/// What a shell has to do next for a minting.
#[derive(Debug, PartialEq, Eq)]
pub enum MintStep {
    /// Load the local keystore; keep `record` for the next stage.
    LoadKeystore { record: FunctionRecord },
    /// Build the move call from `call`, sign it, submit it and wait until
    /// it has been executed.
    Submit { call: MintCall },
    /// The object `object_id` now records the function.
    Minted { object_id: String },
    /// The minting failed.
    Fail { error: ErrorKind },
}

/// The step that follows a stage of a minting.
pub open spec fn mint_follows(stage: MintStage, step: MintStep) -> bool {
    match stage {
        MintStage::Begin { record } => {
            &&& step matches MintStep::LoadKeystore { record: kept }
            &&& kept@ == record@
        },
        MintStage::Keystore { record, loaded: Err(fault) } => {
            &&& step matches MintStep::Fail { error }
            &&& error == local_error_of(fault)
        },
        MintStage::Keystore { record, loaded: Ok(_) } => {
            &&& step matches MintStep::Submit { call }
            &&& call@ == mint_call_of(record@)
        },
        MintStage::Effects { created: Err(fault) } => {
            &&& step matches MintStep::Fail { error }
            &&& error == remote_error_of(fault)
        },
        MintStage::Effects { created: Ok(None) } => {
            &&& step matches MintStep::Fail { error }
            &&& error == ErrorKind::AssertionFailure
        },
        MintStage::Effects { created: Ok(Some(created)) } => {
            &&& step matches MintStep::Minted { object_id }
            &&& object_id@ == created@
        },
    }
}

/// Plans the minting of a function's on-chain object, one step at a time.
/// A shell starts with `MintStage::Begin`, performs the step that comes
/// back, reports the outcome as the next stage, and goes on until the
/// step is `Minted` or `Fail`.
///
/// The transaction carries the function's name, description and source.
/// Effects that name no created object are an assertion failure.
pub fn mint_action(stage: MintStage) -> (step: MintStep)
    ensures
        mint_follows(stage, step),
{
    match stage {
        MintStage::Begin { record } => MintStep::LoadKeystore { record },
        MintStage::Keystore { record, loaded } => match loaded {
            Ok(_) => MintStep::Submit { call: mint_call(record) },
            Err(fault) => MintStep::Fail { error: local_error(fault) },
        },
        MintStage::Effects { created } => match created {
            Ok(Some(object_id)) => MintStep::Minted { object_id },
            Ok(None) => MintStep::Fail { error: ErrorKind::AssertionFailure },
            Err(fault) => MintStep::Fail { error: remote_error(fault) },
        },
    }
}

} // verus!
