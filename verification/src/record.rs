//! The records that travel between the local project, the remote service
//! and the chain, each with its mathematical view.

use vstd::prelude::*;
use vstd::utf8::{encode_utf8, encode_utf8_decode_utf8};

verus! {

/// The bytes of a text, as it is stored and sent: its UTF-8 encoding.
pub open spec fn bytes_of(text: Seq<char>) -> Seq<u8> {
    encode_utf8(text)
}

/// Two texts are the same exactly when their bytes are the same.
pub proof fn lemma_same_text_same_bytes(first: Seq<char>, second: Seq<char>)
    ensures
        first == second <==> bytes_of(first) == bytes_of(second),
{
    encode_utf8_decode_utf8(first);
    encode_utf8_decode_utf8(second);
}

/// The view of an optional string.
pub open spec fn optional_text(value: Option<String>) -> Option<Seq<char>> {
    match value {
        Some(text) => Some(text@),
        None => None,
    }
}

/// Copies an optional string.
pub fn copy_optional(value: &Option<String>) -> (copy: Option<String>)
    ensures
        optional_text(copy) == optional_text(*value),
{
    match value {
        Some(text) => Some(text.clone()),
        None => None,
    }
}

/// A function as the registry knows it. `name` identifies it everywhere.
#[derive(Clone, Debug, PartialEq, Eq)]
pub struct FunctionRecord {
    pub name: String,
    pub description: String,
    pub url: Option<String>,
    /// The source code of the function.
    pub content: String,
    pub txn_hash: Option<String>,
    /// The address of the owner.
    pub owner: String,
    /// The identifier of the on-chain object; empty until one is minted.
    pub object_id: String,
    /// The template kind, `"deno"` or `"node"`.
    pub template: String,
}

/// The view of [`FunctionRecord`], every string as its sequence of characters.
pub struct FunctionRecordView {
    pub name: Seq<char>,
    pub description: Seq<char>,
    pub url: Option<Seq<char>>,
    pub content: Seq<char>,
    pub txn_hash: Option<Seq<char>>,
    pub owner: Seq<char>,
    pub object_id: Seq<char>,
    pub template: Seq<char>,
}

impl View for FunctionRecord {
    type V = FunctionRecordView;

    open spec fn view(&self) -> FunctionRecordView {
        FunctionRecordView {
            name: self.name@,
            description: self.description@,
            url: optional_text(self.url),
            content: self.content@,
            txn_hash: optional_text(self.txn_hash),
            owner: self.owner@,
            object_id: self.object_id@,
            template: self.template@,
        }
    }
}

impl FunctionRecord {
    /// A copy with the same view.
    pub fn duplicate(&self) -> (copy: FunctionRecord)
        ensures
            copy@ == self@,
    {
        FunctionRecord {
            name: self.name.clone(),
            description: self.description.clone(),
            url: copy_optional(&self.url),
            content: self.content.clone(),
            txn_hash: copy_optional(&self.txn_hash),
            owner: self.owner.clone(),
            object_id: self.object_id.clone(),
            template: self.template.clone(),
        }
    }
}

/// The views of a sequence of records, in the same order.
pub open spec fn record_views(records: Seq<FunctionRecord>) -> Seq<FunctionRecordView> {
    records.map_values(|record: FunctionRecord| record@)
}

/// What a project's `config.toml` says under `[basic]`.
#[derive(Clone, Debug, PartialEq, Eq)]
pub struct LocalProjectConfig {
    pub template: String,
    pub name: String,
    pub description: String,
    pub owner: String,
    pub version: String,
}

/// The view of [`LocalProjectConfig`], every string as its sequence of characters.
pub struct LocalProjectConfigView {
    pub template: Seq<char>,
    pub name: Seq<char>,
    pub description: Seq<char>,
    pub owner: Seq<char>,
    pub version: Seq<char>,
}

impl View for LocalProjectConfig {
    type V = LocalProjectConfigView;

    open spec fn view(&self) -> LocalProjectConfigView {
        LocalProjectConfigView {
            template: self.template@,
            name: self.name@,
            description: self.description@,
            owner: self.owner@,
            version: self.version@,
        }
    }
}

/// The error part of a deploy answer.
#[derive(Clone, Debug, PartialEq, Eq)]
pub struct DeployError {
    pub code: String,
    pub details: String,
    pub message: String,
}

/// The view of [`DeployError`], every string as its sequence of characters.
pub struct DeployErrorView {
    pub code: Seq<char>,
    pub details: Seq<char>,
    pub message: Seq<char>,
}

impl View for DeployError {
    type V = DeployErrorView;

    open spec fn view(&self) -> DeployErrorView {
        DeployErrorView { code: self.code@, details: self.details@, message: self.message@ }
    }
}

/// The outcome of one deploy call, as the remote service reports it.
#[derive(Clone, Debug, PartialEq, Eq)]
pub struct DeployResult {
    pub error: Option<DeployError>,
    pub status: i32,
}

/// The view of [`DeployResult`], every string as its sequence of characters.
pub struct DeployResultView {
    pub error: Option<DeployErrorView>,
    pub status: i32,
}

impl View for DeployResult {
    type V = DeployResultView;

    open spec fn view(&self) -> DeployResultView {
        DeployResultView {
            error: match self.error {
                Some(error) => Some(error@),
                None => None,
            },
            status: self.status,
        }
    }
}

/// A snapshot of the on-chain object that records a function.
#[derive(Clone, Debug, PartialEq, Eq)]
pub struct ChainObjectRecord {
    pub name: String,
    pub description: String,
    pub url: String,
    pub content: String,
}

/// The view of [`ChainObjectRecord`], every string as its sequence of characters.
pub struct ChainObjectRecordView {
    pub name: Seq<char>,
    pub description: Seq<char>,
    pub url: Seq<char>,
    pub content: Seq<char>,
}

impl View for ChainObjectRecord {
    type V = ChainObjectRecordView;

    open spec fn view(&self) -> ChainObjectRecordView {
        ChainObjectRecordView {
            name: self.name@,
            description: self.description@,
            url: self.url@,
            content: self.content@,
        }
    }
}

} // verus!
