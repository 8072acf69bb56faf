use high_concurrency_api::domain::models::BetStatus;
use high_concurrency_api::errors::{AppError, ErrorResponse};
use high_concurrency_api::handlers::subscriptions::FormData;

#[test]
fn status_codes() {
    assert_eq!(AppError::UnexpectedError(String::from("boom")).status_code(), 500);
    assert_eq!(AppError::ValidationError(String::from("odds below 1")).status_code(), 400);
    assert_eq!(AppError::NotFoundError.status_code(), 404);
    assert_eq!(AppError::DatabaseError(String::from("pool timed out")).status_code(), 500);
}

#[test]
fn messages() {
    assert_eq!(AppError::UnexpectedError(String::from("boom")).message(), "Error Interno del Servidor");
    assert_eq!(
        AppError::ValidationError(String::from("odds below 1")).message(),
        "Error de Validación: odds below 1"
    );
    assert_eq!(AppError::ValidationError(String::new()).message(), "Error de Validación: ");
    assert_eq!(AppError::NotFoundError.message(), "Recurso No Encontrado");
    assert_eq!(AppError::DatabaseError(String::from("pool timed out")).message(), "Error de Base de Datos");
}

#[test]
fn response_to_an_unexpected_error_hides_the_cause() {
    let expected = ErrorResponse {
        status: 500,
        error: String::from("Error Interno del Servidor"),
        message: None,
    };
    assert_eq!(AppError::UnexpectedError(String::from("boom")).error_response(), expected);
    assert_eq!(AppError::UnexpectedError(String::new()).error_response(), expected);
    assert_eq!(AppError::DatabaseError(String::from("password authentication failed")).error_response(), expected);
}

#[test]
fn response_to_a_validation_error_gives_the_reason() {
    assert_eq!(
        AppError::ValidationError(String::from("amount must be positive")).error_response(),
        ErrorResponse {
            status: 400,
            error: String::from("Error de Validación"),
            message: Some(String::from("amount must be positive")),
        }
    );
}

#[test]
fn response_to_not_found() {
    assert_eq!(
        AppError::NotFoundError.error_response(),
        ErrorResponse { status: 404, error: String::from("No Encontrado"), message: None }
    );
}

#[test]
fn response_status_is_the_status_code() {
    let errors = [
        AppError::UnexpectedError(String::from("a")),
        AppError::ValidationError(String::from("b")),
        AppError::NotFoundError,
        AppError::DatabaseError(String::from("c")),
    ];
    for error in errors {
        assert_eq!(error.error_response().status, error.status_code());
    }
}

#[test]
fn bet_status_variants_differ() {
    assert_ne!(BetStatus::Pending, BetStatus::Validated);
    assert_ne!(BetStatus::Validated, BetStatus::Rejected);
    assert_ne!(BetStatus::Pending, BetStatus::Rejected);
    assert_eq!(BetStatus::Pending, BetStatus::Pending.clone());
}

#[test]
fn form_data_holds_email_and_name() {
    let form = FormData { email: String::from("a@b.example"), name: String::from("Ana") };
    assert_eq!(form.email, "a@b.example");
    assert_eq!(form.name, "Ana");
    assert_eq!(form.clone(), form);
}
