use user_auth::auth::{authenticate_at, rejection};
use user_auth::config::AuthConfig;
use user_auth::controllers::{
    delete_user, get_users, logged_in, register, respond, update_user,
};
use user_auth::errors::AppError;
use user_auth::gateway::GatewayError;
use user_auth::models::{CreateUserDto, LoginDto, UpdateUserDto, User};
use user_auth::response::{Body, Response};
use user_auth::services::UserService;

/// A store in memory that answers as a persistence gateway does.
struct Store {
    users: Vec<User>,
}

impl Store {
    fn new() -> Store {
        Store { users: Vec::new() }
    }

    fn duplicate() -> GatewayError {
        GatewayError {
            code: Some("23000".to_string()),
            message: "Duplicate entry for key 'users.email'".to_string(),
        }
    }

    fn insert(&mut self, user: User) -> Result<(), GatewayError> {
        if self.users.iter().any(|u| u.id == user.id || u.email == user.email) {
            return Err(Store::duplicate());
        }
        self.users.push(user);
        Ok(())
    }

    fn find_by_email(&self, email: &str) -> Result<Option<User>, GatewayError> {
        Ok(self.users.iter().find(|u| u.email == email).cloned())
    }

    fn list_all(&self) -> Result<Vec<User>, GatewayError> {
        Ok(self.users.clone())
    }

    fn update_by_id(&mut self, id: &str, data: &UpdateUserDto) -> Result<u64, GatewayError> {
        if self.users.iter().any(|u| u.id != id && u.email == data.email) {
            if self.users.iter().any(|u| u.id == id) {
                return Err(Store::duplicate());
            }
        }
        let mut rows = 0;
        for user in self.users.iter_mut().filter(|u| u.id == id) {
            user.name = data.name.clone();
            user.email = data.email.clone();
            rows += 1;
        }
        Ok(rows)
    }

    fn delete_by_id(&mut self, id: &str) -> Result<u64, GatewayError> {
        let before = self.users.len();
        self.users.retain(|u| u.id != id);
        Ok((before - self.users.len()) as u64)
    }
}

fn config() -> AuthConfig {
    AuthConfig { secret: "secret_banget".to_string(), token_ttl: 5000 }
}

fn post_register(store: &mut Store, name: &str, email: &str, password: &str) -> Response {
    let dto = CreateUserDto {
        name: name.to_string(),
        email: email.to_string(),
        password: password.to_string(),
    };
    let reply = match UserService::register(dto) {
        Ok(user) => register(store.insert(user)),
        Err(error) => Err(error),
    };
    respond(reply)
}

fn post_login(store: &Store, email: &str, password: &str, now: u64) -> Response {
    let dto = LoginDto { email: email.to_string(), password: password.to_string() };
    let found = store.find_by_email(email);
    respond(logged_in(UserService::login_at(&config(), dto, found, now)))
}

fn get_api_users(store: &Store, authorization: Option<&str>, now: u64) -> Response {
    match authenticate_at(&config(), authorization, now) {
        Ok(_) => respond(get_users(store.list_all())),
        Err(_) => rejection(),
    }
}

fn token_of(reply: Response) -> String {
    match reply.body {
        Body::Token(auth) => auth.token,
        _ => panic!("the reply carries no token"),
    }
}

#[test]
fn register_login_and_list_end_to_end() {
    let mut store = Store::new();
    let created = post_register(&mut store, "A", "a@x.com", "p1");
    assert_eq!(created.status, 201);

    let logged = post_login(&store, "a@x.com", "p1", 1000);
    assert_eq!(logged.status, 200);
    let token = token_of(logged);
    assert!(!token.is_empty());

    let refused = get_api_users(&store, None, 1001);
    assert_eq!(refused.status, 401);

    let header = format!("Bearer {}", token);
    let listed = get_api_users(&store, Some(&header), 1001);
    assert_eq!(listed.status, 200);
    match listed.body {
        Body::Users(users) => assert!(users.iter().any(|u| u.email == "a@x.com")),
        _ => panic!("the listing carries the users"),
    }
}

#[test]
fn the_stored_credential_is_never_the_plaintext() {
    let mut store = Store::new();
    assert_eq!(post_register(&mut store, "A", "a@x.com", "correct horse").status, 201);
    assert_eq!(store.users.len(), 1);
    assert_ne!(store.users[0].password, "correct horse");
    assert!(!store.users[0].password.contains("correct horse"));
}

#[test]
fn registering_the_same_email_again_is_a_conflict_each_time() {
    let mut store = Store::new();
    assert_eq!(post_register(&mut store, "A", "a@x.com", "correct horse").status, 201);
    let dto = CreateUserDto {
        name: "B".to_string(),
        email: "a@x.com".to_string(),
        password: "wrong horse".to_string(),
    };
    let second = UserService::register(dto.clone()).unwrap();
    assert_eq!(register(store.insert(second)), Err(AppError::Conflict));
    let third = UserService::register(dto).unwrap();
    assert_eq!(register(store.insert(third)), Err(AppError::Conflict));
    assert_eq!(store.users.len(), 1);
    assert_eq!(store.users[0].name, "A");
}

#[test]
fn login_tells_wrong_password_from_unknown_email() {
    let mut store = Store::new();
    assert_eq!(post_register(&mut store, "A", "a@x.com", "correct horse").status, 201);
    let wrong = LoginDto { email: "a@x.com".to_string(), password: "wrong horse".to_string() };
    assert_eq!(
        UserService::login_at(&config(), wrong, store.find_by_email("a@x.com"), 1000),
        Err(AppError::Unauthorized)
    );
    let unknown = LoginDto { email: "b@x.com".to_string(), password: "correct horse".to_string() };
    assert_eq!(
        UserService::login_at(&config(), unknown, store.find_by_email("b@x.com"), 1000),
        Err(AppError::NotFound)
    );
    assert_eq!(post_login(&store, "a@x.com", "wrong horse", 1000).status, 401);
    assert_eq!(post_login(&store, "b@x.com", "correct horse", 1000).status, 500);
}

#[test]
fn an_expired_token_never_reaches_the_listing() {
    let mut store = Store::new();
    assert_eq!(post_register(&mut store, "A", "a@x.com", "correct horse").status, 201);
    let token = token_of(post_login(&store, "a@x.com", "correct horse", 1000));
    let header = format!("Bearer {}", token);
    assert_eq!(get_api_users(&store, Some(&header), 5999).status, 200);
    let late = get_api_users(&store, Some(&header), 6000);
    assert_eq!(late.status, 401);
    match late.body {
        Body::Users(_) => panic!("the listing ran behind a rejected token"),
        _ => {},
    }
}

#[test]
fn delete_succeeds_once_and_is_not_found_afterwards() {
    let mut store = Store::new();
    assert_eq!(post_register(&mut store, "A", "a@x.com", "correct horse").status, 201);
    let id = store.users[0].id.clone();
    assert_eq!(respond(delete_user(store.delete_by_id(&id))).status, 204);
    assert_eq!(delete_user(store.delete_by_id(&id)), Err(AppError::NotFound));
    assert_eq!(UserService::delete(store.delete_by_id(&id)), Err(AppError::NotFound));
    assert!(store.users.is_empty());
}

#[test]
fn update_and_delete_of_a_missing_id_are_not_found() {
    let mut store = Store::new();
    assert_eq!(post_register(&mut store, "A", "a@x.com", "correct horse").status, 201);
    let data = UpdateUserDto { name: "B".to_string(), email: "b@x.com".to_string() };
    assert_eq!(update_user(store.update_by_id("missing", &data)), Err(AppError::NotFound));
    assert_eq!(delete_user(store.delete_by_id("missing")), Err(AppError::NotFound));
    assert_eq!(store.users[0].email, "a@x.com");
}

#[test]
fn update_changes_name_and_email_but_not_the_identifier() {
    let mut store = Store::new();
    assert_eq!(post_register(&mut store, "A", "a@x.com", "correct horse").status, 201);
    let before = store.users[0].clone();
    let data = UpdateUserDto { name: "B".to_string(), email: "b@x.com".to_string() };
    assert_eq!(respond(update_user(store.update_by_id(&before.id, &data))).status, 200);
    assert_eq!(store.users[0].id, before.id);
    assert_eq!(store.users[0].password, before.password);
    assert_eq!(store.users[0].name, "B");
    assert_eq!(post_login(&store, "b@x.com", "correct horse", 1000).status, 200);
    assert_eq!(post_login(&store, "a@x.com", "correct horse", 1000).status, 500);
}

#[test]
fn update_to_the_email_of_another_user_is_a_conflict() {
    let mut store = Store::new();
    assert_eq!(post_register(&mut store, "A", "a@x.com", "correct horse").status, 201);
    assert_eq!(post_register(&mut store, "B", "b@x.com", "correct horse").status, 201);
    let before = store.users[1].clone();
    let data = UpdateUserDto { name: "C".to_string(), email: "a@x.com".to_string() };
    assert_eq!(update_user(store.update_by_id(&before.id, &data)), Err(AppError::Conflict));
    assert_eq!(store.users[1], before);
    assert_eq!(store.users.len(), 2);
}

#[test]
fn a_registered_password_logs_in() {
    let mut store = Store::new();
    assert_eq!(post_register(&mut store, "A", "a@x.com", "correct horse").status, 201);
    let dto = LoginDto { email: "a@x.com".to_string(), password: "correct horse".to_string() };
    let token = UserService::login_at(&config(), dto, store.find_by_email("a@x.com"), 1000);
    let claims = user_auth::token::validate(&config(), &token.unwrap(), 1000).unwrap();
    assert_eq!(claims.sub, "a@x.com");
    assert_eq!(claims.exp, 6000);
}

#[test]
fn a_token_outlives_the_account_it_was_issued_for() {
    let mut store = Store::new();
    assert_eq!(post_register(&mut store, "A", "a@x.com", "correct horse").status, 201);
    let token = token_of(post_login(&store, "a@x.com", "correct horse", 1000));
    let id = store.users[0].id.clone();
    assert_eq!(respond(delete_user(store.delete_by_id(&id))).status, 204);
    let header = format!("Bearer {}", token);
    assert_eq!(get_api_users(&store, Some(&header), 2000).status, 200);
}
