use server::jwt::{verify_jwt, verify_jwt_at, AuthorizationHeader};
use server::jwt_coding::decode_jwt_at;
use server::password::verify_password;
use server::request_error::{RequestError, StoreError};
use server::user_service::{
    account_found, create_user, login_user, login_user_at, login_verification, patch_user,
};
use server::users::{
    CreateUserRequest, LoginUserRequest, Password, PatchUserRequest, UserEntity, UserResponse,
    ValidCreateUserRequest, ValidLoginUserRequest, ValidPatchUserRequest,
};

const SECRET: &str = "0123456789abcdef0123456789abcdef";
const NOW: u64 = 1_764_447_532;
const ID: u128 = 0x3d162d80_1916_43b0_9824_d45f29f31fd0;

/// A user store of one table, as a test needs it.
struct Store {
    users: Vec<UserEntity>,
}

impl Store {
    fn register(&mut self, email: &str, password: &str) -> u128 {
        let request = CreateUserRequest { email: email.to_string(), password: password.to_string() };
        let valid = ValidCreateUserRequest::try_from(request).unwrap();
        let account = create_user(valid).unwrap();
        let id = ID + self.users.len() as u128;
        self.users.push(UserEntity {
            id,
            email: account.email.as_ref().to_string(),
            password: account.password_hash,
            created_at: 1_764_447_532_012_315,
            updated_at: 1_764_447_532_012_315,
        });
        id
    }

    fn by_email(&self, email: &str) -> Option<UserEntity> {
        self.users.iter().find(|u| u.email == email).map(|u| UserEntity {
            id: u.id,
            email: u.email.clone(),
            password: u.password.clone(),
            created_at: u.created_at,
            updated_at: u.updated_at,
        })
    }

    fn patch(&mut self, id: u128, request: PatchUserRequest) -> Result<u128, RequestError> {
        let valid = ValidPatchUserRequest::try_from(request)?;
        let patch = patch_user(valid)?;
        let user = self.users.iter_mut().find(|u| u.id == id).unwrap();
        if let Some(email) = patch.email {
            user.email = email.as_ref().to_string();
        }
        if let Some(hash) = patch.password_hash {
            user.password = hash;
        }
        Ok(id)
    }

    fn lookup(&self, email: &str) -> Result<UserEntity, StoreError> {
        self.by_email(email).ok_or(StoreError::RowNotFound)
    }

    fn login_at(&self, email: &str, password: &str, now: u64) -> Result<String, RequestError> {
        let request = LoginUserRequest { email: email.to_string(), password: password.to_string() };
        let valid = ValidLoginUserRequest::try_from(request)?;
        let found = account_found(self.lookup(valid.email.as_ref()))?;
        login_user_at(valid, found, SECRET, now)
    }
}

fn failure(r: Result<String, RequestError>) -> (u16, String, String) {
    match r {
        Err(error) => {
            let written = error.to_string();
            let status = error.status_code();
            match error {
                RequestError::Unauthorized(context) => (status, context, written),
                _ => panic!("expected Unauthorized, got {}", written),
            }
        }
        Ok(_) => panic!("expected a failure"),
    }
}

#[test]
fn register_login_and_pass_the_guard() {
    let mut store = Store { users: Vec::new() };
    let id = store.register("a@b.com", "Secret123");
    let token = store.login_at("a@b.com", "Secret123", NOW).unwrap();

    let header = AuthorizationHeader::Text(format!("Bearer {}", token));
    let claims = verify_jwt_at(Some(SECRET), &header, NOW + 60).unwrap();
    assert_eq!(claims.sub, id);
    assert_eq!(claims.email, "a@b.com");
    assert_eq!(claims.iat, NOW);
    assert_eq!(claims.exp, NOW + 86_400);
}

#[test]
fn login_with_a_wrong_password_is_unauthorized() {
    let mut store = Store { users: Vec::new() };
    store.register("a@b.com", "Secret123");
    let (status, context, written) = failure(store.login_at("a@b.com", "wrong", NOW));
    assert_eq!(status, 401);
    assert_eq!(context, "invalid email or password");
    assert_eq!(written, "401 Unauthorized. Context: invalid email or password");
}

#[test]
fn unknown_email_and_wrong_password_are_answered_alike() {
    let mut store = Store { users: Vec::new() };
    store.register("a@b.com", "Secret123");
    let unknown = failure(store.login_at("nobody@b.com", "Secret123", NOW));
    let wrong = failure(store.login_at("a@b.com", "wrong", NOW));
    assert_eq!(unknown, wrong);
    assert_eq!(unknown.0, 401);
    assert_eq!(unknown.1, "invalid email or password");
}

#[test]
fn the_stored_password_is_a_hash() {
    let mut store = Store { users: Vec::new() };
    store.register("a@b.com", "Secret123");
    let stored = store.by_email("a@b.com").unwrap();
    assert_ne!(stored.password, "Secret123");
    assert!(verify_password(b"Secret123", &stored.password));
    assert!(!verify_password(b"wrong", &stored.password));
}

#[test]
fn a_blank_bearer_token_does_not_pass_the_guard() {
    let header = AuthorizationHeader::Text("Bearer ".to_string());
    match verify_jwt(Some(SECRET), &header) {
        Err(error) => {
            assert_eq!(error.status_code(), 401);
            assert_eq!(error.to_string(), "401 Unauthorized. Context: Extract token error");
        }
        Ok(_) => panic!("a blank token was let through"),
    }
}

#[test]
fn an_expired_token_does_not_pass_the_guard() {
    let mut store = Store { users: Vec::new() };
    store.register("a@b.com", "Secret123");
    // Issued long ago: by the clock it has expired.
    let token = store.login_at("a@b.com", "Secret123", 1_000_000_000).unwrap();
    let header = AuthorizationHeader::Text(format!("Bearer {}", token));
    match verify_jwt(Some(SECRET), &header) {
        Err(error) => assert_eq!(error.status_code(), 401),
        Ok(_) => panic!("an expired token was let through"),
    }
    // At a time before its expiry the same token passes.
    assert!(verify_jwt_at(Some(SECRET), &header, 1_000_000_000 + 86_400).is_ok());
    assert!(verify_jwt_at(Some(SECRET), &header, 1_000_000_000 + 86_401).is_err());
}

#[test]
fn after_a_password_change_only_the_new_password_logs_in() {
    let mut store = Store { users: Vec::new() };
    let id = store.register("a@b.com", "Secret123");
    let old_hash = store.by_email("a@b.com").unwrap().password;
    let change = PatchUserRequest { email: None, password: Some("updatedPassword".to_string()) };
    assert_eq!(store.patch(id, change).unwrap(), id);
    assert_ne!(store.by_email("a@b.com").unwrap().password, old_hash);

    let (status, context, _) = failure(store.login_at("a@b.com", "Secret123", NOW));
    assert_eq!((status, context.as_str()), (401, "invalid email or password"));
    let token = store.login_at("a@b.com", "updatedPassword", NOW).unwrap();
    assert_eq!(decode_jwt_at(&token, SECRET, NOW).unwrap().sub, id);
}

#[test]
fn an_email_change_keeps_the_password() {
    let mut store = Store { users: Vec::new() };
    let id = store.register("rost@gmail.com", "somepass");
    let old_hash = store.by_email("rost@gmail.com").unwrap().password;
    let change = PatchUserRequest { email: Some("updatedRost@gmail.com".to_string()), password: None };
    store.patch(id, change).unwrap();
    assert!(store.by_email("rost@gmail.com").is_none());
    assert_eq!(store.by_email("updatedRost@gmail.com").unwrap().password, old_hash);
    assert!(store.login_at("updatedRost@gmail.com", "somepass", NOW).is_ok());
}

#[test]
fn an_empty_patch_is_a_bad_request() {
    let mut store = Store { users: Vec::new() };
    let id = store.register("a@b.com", "Secret123");
    match store.patch(id, PatchUserRequest { email: None, password: None }) {
        Err(RequestError::BadRequest(context)) => assert_eq!(context, "user info is empty"),
        _ => panic!("expected BadRequest"),
    }
}

#[test]
fn malformed_input_is_rejected_before_any_lookup() {
    let store = Store { users: Vec::new() };
    match store.login_at("not an email", "Secret123", NOW) {
        Err(RequestError::BadRequest(context)) => assert_eq!(context, "invalid email address"),
        _ => panic!("expected BadRequest"),
    }
    match store.login_at("a@b.com", "", NOW) {
        Err(RequestError::BadRequest(context)) => assert_eq!(context, "invalid user password"),
        _ => panic!("expected BadRequest"),
    }
}

#[test]
fn login_by_the_clock_gives_a_token_that_passes_the_guard() {
    let mut store = Store { users: Vec::new() };
    let id = store.register("a@b.com", "Secret123");
    let request = LoginUserRequest { email: "a@b.com".to_string(), password: "Secret123".to_string() };
    let valid = ValidLoginUserRequest::try_from(request).unwrap();
    let token = login_user(valid, store.by_email("a@b.com"), SECRET).unwrap();
    let header = AuthorizationHeader::Text(format!("Bearer {}", token));
    let claims = verify_jwt(Some(SECRET), &header).unwrap();
    assert_eq!(claims.sub, id);
    assert_eq!(claims.exp, claims.iat + 86_400);

    let request = LoginUserRequest { email: "a@b.com".to_string(), password: "wrong".to_string() };
    let valid = ValidLoginUserRequest::try_from(request).unwrap();
    let (status, context, _) = failure(login_user(valid, store.by_email("a@b.com"), SECRET));
    assert_eq!((status, context.as_str()), (401, "invalid email or password"));
}

#[test]
fn a_corrupt_stored_hash_fails_the_login_and_nothing_else() {
    let mut store = Store { users: Vec::new() };
    store.register("a@b.com", "Secret123");
    let good = store.users[0].password.clone();
    for corrupt in [
        String::new(),
        "Secret123".to_string(),
        good[..good.len() - 1].to_string(),
        good.replace("p=1$", "p=536870912$"),
        good.replace("$argon2id$", "$argon9$"),
    ] {
        store.users[0].password = corrupt;
        let (status, context, _) = failure(store.login_at("a@b.com", "Secret123", NOW));
        assert_eq!((status, context.as_str()), (401, "invalid email or password"));
    }
    store.users[0].password = good;
    assert!(store.login_at("a@b.com", "Secret123", NOW).is_ok());
}

#[test]
fn login_verification_is_against_the_account_or_the_dummy() {
    let mut store = Store { users: Vec::new() };
    store.register("a@b.com", "Secret123");
    let right = Password::try_from("Secret123".to_string()).unwrap();
    let wrong = Password::try_from("wrong".to_string()).unwrap();
    let found = account_found(store.lookup("a@b.com")).unwrap();
    assert!(login_verification(&right, &found));
    assert!(!login_verification(&wrong, &found));
    assert!(!login_verification(&right, &None));
    assert!(!login_verification(&wrong, &None));
}

#[test]
fn a_lookup_finds_an_account_or_none() {
    let mut store = Store { users: Vec::new() };
    let id = store.register("a@b.com", "Secret123");
    let found = account_found(store.lookup("a@b.com")).unwrap().unwrap();
    assert_eq!(found.id, id);
    assert_eq!(found.email, "a@b.com");
    assert!(account_found(store.lookup("nobody@b.com")).unwrap().is_none());
    assert!(account_found(Err(StoreError::RowNotFound)).unwrap().is_none());
}

#[test]
fn a_failing_store_ends_the_login_with_its_own_error() {
    match account_found(Err(StoreError::Other)) {
        Err(error) => {
            assert_eq!(error.status_code(), 500);
            assert_eq!(
                error.to_string(),
                "500 Internal Server Error. Context: internal server error"
            );
        }
        Ok(_) => panic!("a failing store was taken for an answer"),
    }
    match account_found(Err(StoreError::Database("57P01".to_string()))) {
        Err(RequestError::InternalServerError(context)) => assert_eq!(context, "57P01"),
        _ => panic!("expected InternalServerError"),
    }
    match account_found(Err(StoreError::Database("23505".to_string()))) {
        Err(RequestError::Conflict(context)) => assert_eq!(context, "23505"),
        _ => panic!("expected Conflict"),
    }
}

#[test]
fn a_user_response_leaves_the_password_out() {
    let entity = UserEntity {
        id: ID,
        email: "rost@gmail.com".to_string(),
        password: "somepass".to_string(),
        created_at: 1_764_447_532_012_315,
        updated_at: 1_764_447_532_064_844,
    };
    let response = UserResponse::from(entity);
    assert_eq!(response.id, ID);
    assert_eq!(response.email, "rost@gmail.com");
    assert_eq!(response.created_at, 1_764_447_532_012_315);
    assert_eq!(response.updated_at, 1_764_447_532_064_844);
}
