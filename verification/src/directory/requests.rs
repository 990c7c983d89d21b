//! Request and response types of the directory module.
use vstd::prelude::*;
use crate::common::own;
use crate::directory::types::{AgentDirectoryProfile, DirectoryFilter, Params, VisibilityLevel};

verus! {

/// Request to update an agent's directory profile, signed by its owner or a
/// delegated VC.
#[derive(Clone, Debug, PartialEq, Eq)]
pub struct UpdateProfileRequest {
    pub agent_hash: String,
    pub display_name: String,
    pub description: String,
    pub tags: String,
    pub owner_signature: Vec<u8>,
}

impl UpdateProfileRequest {
    /// A profile update with no description or tags.
    pub fn new(agent_hash: &str, display_name: &str, owner_signature: Vec<u8>) -> (r: Self)
        ensures
            r.agent_hash@ == agent_hash@,
            r.display_name@ == display_name@,
            r.description@ == Seq::<char>::empty(),
            r.tags@ == Seq::<char>::empty(),
            r.owner_signature == owner_signature,
    {
        UpdateProfileRequest {
            agent_hash: own(agent_hash),
            display_name: own(display_name),
            description: String::new(),
            tags: String::new(),
            owner_signature,
        }
    }

    /// Sets the profile description.
    pub fn with_description(self, description: &str) -> (r: Self)
        ensures
            r.description@ == description@,
            r == (UpdateProfileRequest { description: r.description, ..self }),
    {
        UpdateProfileRequest { description: own(description), ..self }
    }
    /// Sets the profile tags (comma-separated).
    pub fn with_tags(self, tags: &str) -> (r: Self)
        ensures
            r.tags@ == tags@,
            r == (UpdateProfileRequest { tags: r.tags, ..self }),
    {
        UpdateProfileRequest { tags: own(tags), ..self }
    }
}

/// Response from updating a directory profile.
#[derive(Clone, Debug, PartialEq, Eq)]
pub struct UpdateProfileResponse {
    pub success: bool,
    pub updated_at: u64,
    pub new_profile_hash: String,
}

/// Request to change the visibility of an agent's profile.
#[derive(Clone, Debug, PartialEq, Eq)]
pub struct UpdateVisibilityRequest {
    pub agent_hash: String,
    pub new_visibility: VisibilityLevel,
    pub owner_signature: Vec<u8>,
}

impl UpdateVisibilityRequest {
    /// Creates a visibility update.
    pub fn new(agent_hash: &str, new_visibility: VisibilityLevel, owner_signature: Vec<u8>) -> (r: Self)
        ensures
            r.agent_hash@ == agent_hash@,
            r == (UpdateVisibilityRequest { agent_hash: r.agent_hash, new_visibility: new_visibility, owner_signature: owner_signature }),
    {
        UpdateVisibilityRequest { agent_hash: own(agent_hash), new_visibility: new_visibility, owner_signature: owner_signature }
    }
}

/// Response from updating visibility.
#[derive(Clone, Debug, PartialEq, Eq)]
pub struct UpdateVisibilityResponse {
    pub success: bool,
    pub updated_at: u64,
}

/// Request to update module parameters (governance only).
#[derive(Clone, Debug, PartialEq, Eq)]
pub struct UpdateParamsRequest {
    pub params: Params,
    pub gov_signature: Vec<u8>,
}

impl UpdateParamsRequest {
    /// Creates a parameter update.
    pub fn new(params: Params, gov_signature: Vec<u8>) -> (r: Self)
        ensures
            r == (UpdateParamsRequest { params: params, gov_signature: gov_signature }),
    {
        UpdateParamsRequest { params: params, gov_signature: gov_signature }
    }
}

/// Response from updating parameters.
#[derive(Clone, Debug, PartialEq, Eq)]
pub struct UpdateParamsResponse {
    pub success: bool,
}

/// Query the directory profile of one agent.
#[derive(Clone, Debug, PartialEq, Eq)]
pub struct QueryDirectoryProfileRequest {
    pub agent_hash: String,
}

impl QueryDirectoryProfileRequest {
    /// The query for one agent's profile.
    pub fn new(agent_hash: &str) -> (r: Self)
        ensures
            r.agent_hash@ == agent_hash@,
            r == (QueryDirectoryProfileRequest { agent_hash: r.agent_hash }),
    {
        QueryDirectoryProfileRequest { agent_hash: own(agent_hash) }
    }
}

/// An agent's directory profile, if found.
#[derive(Clone, Debug, PartialEq, Eq)]
pub struct QueryDirectoryProfileResponse {
    pub profile: Option<AgentDirectoryProfile>,
    pub found: bool,
}

/// Query several directory profiles with an optional filter (paginated).
#[derive(Clone, Debug, PartialEq, Eq)]
pub struct QueryDirectoryProfilesRequest {
    pub filter: Option<DirectoryFilter>,
    pub limit: u32,
    pub offset: u32,
}

impl QueryDirectoryProfilesRequest {
    /// One unfiltered page of profiles.
    pub fn new(limit: u32, offset: u32) -> (r: Self)
        ensures
            r == (QueryDirectoryProfilesRequest { limit: limit, offset: offset, filter: None }),
    {
        QueryDirectoryProfilesRequest { limit: limit, offset: offset, filter: None }
    }
    /// Sets the filter of the query.
    pub fn with_filter(self, filter: DirectoryFilter) -> (r: Self)
        ensures
            r == (QueryDirectoryProfilesRequest { filter: Some(filter), ..self }),
    {
        QueryDirectoryProfilesRequest { filter: Some(filter), ..self }
    }
}

/// A page of directory profiles.
#[derive(Clone, Debug, PartialEq, Eq)]
pub struct QueryDirectoryProfilesResponse {
    pub profiles: Vec<AgentDirectoryProfile>,
    pub total_count: u32,
}

/// Query the current module parameters.
#[derive(Clone, Debug, PartialEq, Eq)]
pub struct QueryParamsRequest;

/// The current module parameters.
#[derive(Clone, Debug, PartialEq, Eq)]
pub struct QueryParamsResponse {
    pub params: Option<Params>,
}

} // verus!
