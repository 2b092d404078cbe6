use user_crud::api::{CreateUserRequest, HttpUserApiClient, UpdateUserRequest, User};

#[test]
fn test_user_creation() {
    let user = User {
        id: 1,
        name: "Test User".to_string(),
        email: "test@example.com".to_string(),
    };
    assert_eq!(user.id, 1);
    assert_eq!(user.name, "Test User");
    assert_eq!(user.email, "test@example.com");
}

#[test]
fn test_user_clone() {
    let user = User {
        id: 1,
        name: "Test User".to_string(),
        email: "test@example.com".to_string(),
    };
    let cloned = user.clone();
    assert_eq!(user, cloned);
}

#[test]
fn test_create_user_request() {
    let request = CreateUserRequest {
        name: "New User".to_string(),
        email: "new@example.com".to_string(),
        password: "password123".to_string(),
    };
    assert_eq!(request.name, "New User");
    assert_eq!(request.email, "new@example.com");
    assert_eq!(request.password, "password123");
}

#[test]
fn test_update_user_request() {
    let request = UpdateUserRequest {
        id: 1,
        name: "Updated User".to_string(),
        email: "updated@example.com".to_string(),
        password: "newpassword".to_string(),
    };
    assert_eq!(request.id, 1);
    assert_eq!(request.name, "Updated User");
    assert_eq!(request.email, "updated@example.com");
    assert_eq!(request.password, "newpassword");
}

#[test]
fn test_http_client_creation() {
    let client = HttpUserApiClient::new();
    assert_eq!(client.base_url, "http://127.0.0.1:8000/api");
}

#[test]
fn test_http_client_default() {
    let client = HttpUserApiClient::default();
    assert_eq!(client.base_url, "http://127.0.0.1:8000/api");
}

#[test]
fn test_http_client_with_base_url() {
    let custom_url = "http://localhost:3000/api".to_string();
    let client = HttpUserApiClient::with_base_url(custom_url.clone());
    assert_eq!(client.base_url, custom_url);
}

#[test]
fn test_user_struct() {
    let user = User {
        id: 1,
        name: "Test User".to_string(),
        email: "test@example.com".to_string(),
    };

    assert_eq!(user.id, 1);
    assert_eq!(user.name, "Test User");
    assert_eq!(user.email, "test@example.com");
}

#[test]
fn test_http_client_instantiation() {
    let _client = HttpUserApiClient::new();
    let _client = HttpUserApiClient::default();
}

#[test]
fn test_schema_sql_is_valid() {
    let schema = user_crud::sql::schema_init_sql();
    assert!(schema.contains("CREATE TABLE"));
    assert!(schema.contains("users"));
    assert!(schema.contains("email TEXT NOT NULL UNIQUE"));
    assert!(schema.contains("password TEXT NOT NULL"));
}

#[test]
fn test_connection_string_format() {
    let conn = user_crud::sql::connection_string();
    assert!(conn.contains("host="));
    assert!(conn.contains("user="));
    assert!(conn.contains("dbname="));
}
