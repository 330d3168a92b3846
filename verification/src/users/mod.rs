pub mod domain;
pub mod user_request;
pub mod user_response;

pub use domain::{Email, Password};
pub use user_request::{
    CreateUserRequest, LoginUserRequest, PatchUserRequest, ValidCreateUserRequest,
    ValidLoginUserRequest, ValidPatchUserRequest,
};
pub use user_response::{UserEntity, UserResponse};
