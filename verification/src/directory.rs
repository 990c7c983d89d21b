//! Agent directory module: rich agent profiles, visibility settings,
//! filtered discovery queries and governance parameters.
pub mod builder;
pub mod requests;
pub mod types;

pub use builder::{UpdateProfileBuilder, UpdateVisibilityBuilder};
pub use crate::common::{SdkError, VERSION};
pub use requests::{
    QueryDirectoryProfileRequest, QueryDirectoryProfileResponse, QueryDirectoryProfilesRequest,
    QueryDirectoryProfilesResponse, QueryParamsRequest, QueryParamsResponse, UpdateParamsRequest,
    UpdateParamsResponse, UpdateProfileRequest, UpdateProfileResponse, UpdateVisibilityRequest,
    UpdateVisibilityResponse,
};
pub use types::{AgentDirectoryProfile, DirectoryFilter, Params, VisibilityLevel};
