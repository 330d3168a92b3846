pub mod domain;
pub mod profile_request;
pub mod profile_response;

pub use domain::{AboutMe, Age, Username};
pub use profile_request::{CreateProfileRequest, ValidCreateProfileRequest};
pub use profile_response::ProfileEntity;
