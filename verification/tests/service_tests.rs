use user_crud::models::{ReasonCode, User};
use user_crud::repository::InMemoryUserRepository;
use user_crud::service::{ServiceError, UserService};

fn create_test_service() -> UserService<InMemoryUserRepository> {
    let repo = InMemoryUserRepository::new();
    UserService::new(repo)
}

#[test]
fn test_create_user_valid() {
    let mut service = create_test_service();
    let user = User::new(
        "John Doe".to_string(),
        "john@example.com".to_string(),
        "password123".to_string(),
    );

    let result = service.create_user(user);
    assert!(result.is_ok());

    let users = result.unwrap();
    assert_eq!(users.len(), 1);
    assert_eq!(users[0].name, "John Doe");
}

#[test]
fn test_create_user_invalid_name() {
    let mut service = create_test_service();
    let user = User::new(
        "".to_string(),
        "john@example.com".to_string(),
        "password123".to_string(),
    );

    let result = service.create_user(user);
    assert!(result.is_err());

    let err = result.unwrap_err();
    match err {
        ServiceError::Validation(code) => assert_eq!(code.message(), "Name cannot be empty"),
        other => panic!("expected a validation failure, got {:?}", other),
    }
}

#[test]
fn test_create_user_invalid_email() {
    let mut service = create_test_service();
    let user = User::new(
        "John Doe".to_string(),
        "invalid_email".to_string(),
        "password123".to_string(),
    );

    let result = service.create_user(user);
    assert!(result.is_err());

    let err = result.unwrap_err();
    match err {
        ServiceError::Validation(code) => assert_eq!(code.message(), "Invalid email format"),
        other => panic!("expected a validation failure, got {:?}", other),
    }
}

#[test]
fn test_get_all_users() {
    let mut service = create_test_service();
    let user1 = User::new(
        "John Doe".to_string(),
        "john@example.com".to_string(),
        "password123".to_string(),
    );
    let user2 = User::new(
        "Jane Doe".to_string(),
        "jane@example.com".to_string(),
        "password456".to_string(),
    );

    service.create_user(user1).unwrap();
    service.create_user(user2).unwrap();

    let users = service.get_all_users().unwrap();
    assert_eq!(users.len(), 2);
}

#[test]
fn test_update_user_valid() {
    let mut service = create_test_service();
    let user = User::new(
        "John Doe".to_string(),
        "john@example.com".to_string(),
        "password123".to_string(),
    );
    service.create_user(user).unwrap();

    let updated_user = User::new(
        "John Smith".to_string(),
        "johnsmith@example.com".to_string(),
        "newpassword123".to_string(),
    );
    let result = service.update_user(1, updated_user);
    assert!(result.is_ok());

    let users = result.unwrap();
    assert_eq!(users[0].name, "John Smith");
}

#[test]
fn test_update_user_invalid() {
    let mut service = create_test_service();
    let user = User::new(
        "John Doe".to_string(),
        "john@example.com".to_string(),
        "password123".to_string(),
    );
    service.create_user(user).unwrap();

    let invalid_user = User::new(
        "".to_string(),
        "john@example.com".to_string(),
        "password123".to_string(),
    );
    let result = service.update_user(1, invalid_user);
    assert!(result.is_err());

    let err = result.unwrap_err();
    assert!(matches!(err, ServiceError::Validation(_)));
}

#[test]
fn test_delete_user() {
    let mut service = create_test_service();
    let user = User::new(
        "John Doe".to_string(),
        "john@example.com".to_string(),
        "password123".to_string(),
    );
    service.create_user(user).unwrap();

    let result = service.delete_user(1);
    assert!(result.is_ok());

    let users = service.get_all_users().unwrap();
    assert_eq!(users.len(), 0);
}

#[test]
fn test_delete_nonexistent_user() {
    let mut service = create_test_service();

    let result = service.delete_user(999);
    assert!(result.is_err());
    assert_eq!(result.unwrap_err(), ServiceError::NotFound(999));
}

#[test]
fn test_crud_scenario() {
    let mut service = create_test_service();

    let created = service
        .create_user(User::new(
            "John Doe".to_string(),
            "john@example.com".to_string(),
            "password123".to_string(),
        ))
        .unwrap();
    assert_eq!(created.len(), 1);
    assert_eq!(created[0].name, "John Doe");

    let updated = service
        .update_user(
            1,
            User::new(
                "John Smith".to_string(),
                "johnsmith@example.com".to_string(),
                "newpassword123".to_string(),
            ),
        )
        .unwrap();
    assert_eq!(updated[0].name, "John Smith");

    service.delete_user(1).unwrap();
    assert!(service.get_all_users().unwrap().is_empty());
}

#[test]
fn test_create_rejected_leaves_list_empty() {
    let mut service = create_test_service();

    let result = service.create_user(User::new(
        "".to_string(),
        "john@example.com".to_string(),
        "password123".to_string(),
    ));
    match result.unwrap_err() {
        ServiceError::Validation(code) => assert_eq!(code.message(), "Name cannot be empty"),
        other => panic!("expected a validation failure, got {:?}", other),
    }

    assert!(service.get_all_users().unwrap().is_empty());
}

#[test]
fn test_list_idempotent() {
    let mut service = create_test_service();
    service
        .create_user(User::new(
            "John Doe".to_string(),
            "john@example.com".to_string(),
            "password123".to_string(),
        ))
        .unwrap();

    let first = service.get_all_users().unwrap();
    let second = service.get_all_users().unwrap();
    assert_eq!(first, second);
}

#[test]
fn test_create_round_trip_assigns_id() {
    let mut service = create_test_service();
    let listed = service
        .create_user(User::new(
            "John Doe".to_string(),
            "john@example.com".to_string(),
            "password123".to_string(),
        ))
        .unwrap();

    assert_eq!(listed.len(), 1);
    assert_eq!(listed[0].id, Some(1));
    assert_eq!(listed[0].name, "John Doe");
    assert_eq!(listed[0].email, "john@example.com");
    assert_eq!(listed[0].password, "password123");
}

#[test]
fn test_update_nonexistent_leaves_collection_unchanged() {
    let mut service = create_test_service();
    service
        .create_user(User::new(
            "John Doe".to_string(),
            "john@example.com".to_string(),
            "password123".to_string(),
        ))
        .unwrap();
    let before = service.get_all_users().unwrap();

    let result = service.update_user(
        999,
        User::new(
            "Jane".to_string(),
            "jane@example.com".to_string(),
            "password456".to_string(),
        ),
    );
    assert_eq!(result.unwrap_err(), ServiceError::NotFound(999));

    let after = service.get_all_users().unwrap();
    assert_eq!(before, after);
}

#[test]
fn test_create_duplicate_email_is_conflict() {
    let mut service = create_test_service();
    service
        .create_user(User::new(
            "John Doe".to_string(),
            "same@example.com".to_string(),
            "password123".to_string(),
        ))
        .unwrap();

    let result = service.create_user(User::new(
        "Jane Doe".to_string(),
        "same@example.com".to_string(),
        "password456".to_string(),
    ));
    assert_eq!(result.unwrap_err(), ServiceError::Conflict);
    assert_eq!(service.get_all_users().unwrap().len(), 1);
}

#[test]
fn test_validation_reason_propagates() {
    let mut service = create_test_service();
    let result = service.create_user(User::new(
        "John".to_string(),
        "j@x.com".to_string(),
        "12345".to_string(),
    ));
    assert_eq!(
        result.unwrap_err(),
        ServiceError::Validation(ReasonCode::PasswordTooShort)
    );
}
