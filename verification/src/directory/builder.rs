//! Fluent builders for the directory transactions.
use vstd::prelude::*;
use crate::common::{fails_with, opt_view, own, require, text_or_empty, SdkError};
use crate::directory::requests::{UpdateProfileRequest, UpdateVisibilityRequest};
use crate::directory::types::VisibilityLevel;

verus! {


/// Builder for a profile update; the request is built unsigned.
pub struct UpdateProfileBuilder {
    pub agent_hash: Option<String>,
    pub display_name: Option<String>,
    pub description: Option<String>,
    pub tags: Option<String>,
}

impl UpdateProfileBuilder {
    /// A builder with no field set.
    pub fn new() -> (r: Self)
        ensures
            r.agent_hash is None,
            r.display_name is None,
            r.description is None,
            r.tags is None,
    {
        UpdateProfileBuilder { agent_hash: None, display_name: None, description: None, tags: None }
    }

    /// Sets the agent hash (SHA-256 of the agent's DID).
    pub fn agent_hash(self, hash: &str) -> (r: Self)
        ensures
            opt_view(r.agent_hash) == Some(hash@),
            r == (UpdateProfileBuilder { agent_hash: r.agent_hash, ..self }),
    {
        UpdateProfileBuilder { agent_hash: Some(own(hash)), ..self }
    }

    /// Sets the display name.
    pub fn display_name(self, name: &str) -> (r: Self)
        ensures
            opt_view(r.display_name) == Some(name@),
            r == (UpdateProfileBuilder { display_name: r.display_name, ..self }),
    {
        UpdateProfileBuilder { display_name: Some(own(name)), ..self }
    }

    /// Sets the profile description.
    pub fn description(self, desc: &str) -> (r: Self)
        ensures
            opt_view(r.description) == Some(desc@),
            r == (UpdateProfileBuilder { description: r.description, ..self }),
    {
        UpdateProfileBuilder { description: Some(own(desc)), ..self }
    }

    /// Sets the profile tags (comma-separated).
    pub fn tags(self, tags: &str) -> (r: Self)
        ensures
            opt_view(r.tags) == Some(tags@),
            r == (UpdateProfileBuilder { tags: r.tags, ..self }),
    {
        UpdateProfileBuilder { tags: Some(own(tags)), ..self }
    }

    /// Builds the profile update. The agent hash and display name are
    /// required, in that order; an absent description or tag list is empty,
    /// and the signature is left empty for the signer to fill in.
    pub fn build(self) -> (r: Result<UpdateProfileRequest, SdkError>)
        ensures
            self.agent_hash is None ==> fails_with(r, "agent_hash is required for UpdateProfile"@),
            self.agent_hash is Some && self.display_name is None ==> fails_with(
                r,
                "display_name is required for UpdateProfile"@,
            ),
            self.agent_hash is Some && self.display_name is Some ==> (r matches Ok(req) && {
                &&& req.agent_hash == self.agent_hash.unwrap()
                &&& req.display_name == self.display_name.unwrap()
                &&& req.description@ == text_or_empty(self.description)
                &&& req.tags@ == text_or_empty(self.tags)
                &&& req.owner_signature@.len() == 0
            }),
    {
        let agent_hash = require(self.agent_hash, "agent_hash is required for UpdateProfile")?;
        let display_name = require(self.display_name, "display_name is required for UpdateProfile")?;
        let description = match self.description {
            Some(d) => d,
            None => String::new(),
        };
        let tags = match self.tags {
            Some(t) => t,
            None => String::new(),
        };
        Ok(UpdateProfileRequest { agent_hash, display_name, description, tags, owner_signature: Vec::new() })
    }
}

/// Builder for a visibility update; the request is built unsigned.
pub struct UpdateVisibilityBuilder {
    pub agent_hash: Option<String>,
    pub new_visibility: Option<VisibilityLevel>,
}

impl UpdateVisibilityBuilder {
    /// A builder with no field set.
    pub fn new() -> (r: Self)
        ensures
            r.agent_hash is None,
            r.new_visibility is None,
    {
        UpdateVisibilityBuilder { agent_hash: None, new_visibility: None }
    }

    /// Sets the agent hash.
    pub fn agent_hash(self, hash: &str) -> (r: Self)
        ensures
            opt_view(r.agent_hash) == Some(hash@),
            r == (UpdateVisibilityBuilder { agent_hash: r.agent_hash, ..self }),
    {
        UpdateVisibilityBuilder { agent_hash: Some(own(hash)), ..self }
    }

    /// Sets the new visibility level.
    pub fn new_visibility(self, visibility: VisibilityLevel) -> (r: Self)
        ensures
            r == (UpdateVisibilityBuilder { new_visibility: Some(visibility), ..self }),
    {
        UpdateVisibilityBuilder { new_visibility: Some(visibility), ..self }
    }

    /// Builds the visibility update; both fields are required, in order, and
    /// the signature is left empty.
    pub fn build(self) -> (r: Result<UpdateVisibilityRequest, SdkError>)
        ensures
            self.agent_hash is None ==> fails_with(r, "agent_hash is required for UpdateVisibility"@),
            self.agent_hash is Some && self.new_visibility is None ==> fails_with(
                r,
                "new_visibility is required for UpdateVisibility"@,
            ),
            self.agent_hash is Some && self.new_visibility is Some ==> (r matches Ok(req) && {
                &&& req.agent_hash == self.agent_hash.unwrap()
                &&& req.new_visibility == self.new_visibility.unwrap()
                &&& req.owner_signature@.len() == 0
            }),
    {
        let agent_hash = require(self.agent_hash, "agent_hash is required for UpdateVisibility")?;
        let new_visibility = require(self.new_visibility, "new_visibility is required for UpdateVisibility")?;
        Ok(UpdateVisibilityRequest { agent_hash, new_visibility, owner_signature: Vec::new() })
    }
}

} // verus!
