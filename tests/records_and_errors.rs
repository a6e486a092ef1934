use clinic::accounts::{LoginPatientReq, PatientLoginInput};
use clinic::diagnosis::{diagnosis_access, insert_outcome};
use clinic::order::{group_items, validate_order_amounts};
use clinic::password::check_login;
use clinic::shipping::{orders_passing, passes_filter, status_filter};
use clinic::error::{store_failure, AppError};
use clinic::order::OrderStatus;
use clinic::password::{hash_password, verify_password};
use clinic::prescription::{UpdatePrescriptionInput, UpdatePrescriptionReq};
use clinic::auth::UserId;

#[test]
fn error_kinds_map_to_distinct_status_codes() {
    assert_eq!(AppError::BadRequest("x".to_string()).status_code(), 400);
    assert_eq!(AppError::Unauthorized.status_code(), 401);
    assert_eq!(AppError::Forbidden.status_code(), 403);
    assert_eq!(AppError::NotFound.status_code(), 404);
    assert_eq!(AppError::Conflict.status_code(), 409);
    assert_eq!(AppError::Db("x".to_string()).status_code(), 500);
    assert_eq!(AppError::Other("x".to_string()).status_code(), 500);
}

#[test]
fn constraint_violations_become_conflicts() {
    assert_eq!(store_failure(Some("23505"), "dup".to_string()), AppError::Conflict);
    assert_eq!(store_failure(Some("23P01"), "overlap".to_string()), AppError::Conflict);
    assert_eq!(store_failure(Some("08006"), "down".to_string()), AppError::Db("down".to_string()));
    assert_eq!(store_failure(None, "io".to_string()), AppError::Db("io".to_string()));
}

#[test]
fn passwords_check_against_their_hash() {
    let h = hash_password("correct horse").unwrap();
    assert_ne!(h, "correct horse");
    assert_eq!(verify_password("correct horse", &h), Ok(true));
    assert_eq!(verify_password("wrong horse", &h), Ok(false));
}

#[test]
fn unreadable_stored_hash_never_matches() {
    assert_eq!(verify_password("plain", "plain"), Ok(false));
    assert_eq!(verify_password("plain", "not-a-hash"), Ok(false));
}

#[test]
fn order_status_codes_and_labels() {
    assert_eq!(OrderStatus::PENDING.code(), 1);
    assert_eq!(OrderStatus::SHIPPING.code(), 2);
    assert_eq!(OrderStatus::CANCELED.code(), 3);
    assert_eq!(OrderStatus::SUCCESS.code(), 4);
    assert_eq!(OrderStatus::PENDING.label(), "PENDING");
    assert_eq!(OrderStatus::SHIPPING.label(), "SHIPPING");
    assert_eq!(clinic::shipping::OrderStatus::SUCCESS.label(), "SUCCESS");
}

#[test]
fn request_records_convert_field_for_field() {
    let input: PatientLoginInput =
        LoginPatientReq { hn: 5, citizen_id: "c".to_string(), password: "p".to_string() }.into();
    assert_eq!(input.hn, 5);
    assert_eq!(input.citizen_id, "c");
    let u = UpdatePrescriptionInput::from_request(
        8,
        UpdatePrescriptionReq {
            medicine_id: 3,
            patient_id: UserId { value: 4 },
            doctor_comment: None,
            dosage: "1/day".to_string(),
            amount: 10,
            on_going: true,
        },
    );
    assert_eq!(u.prescription_id, 8);
    assert_eq!(u.medicine_id, 3);
    assert_eq!(u.dosage, "1/day");
}

#[test]
fn order_items_group_under_their_orders() {
    let groups = group_items(&vec![7, 3, 9], &vec![3, 7, 3, 5, 7]);
    assert_eq!(groups, vec![vec![1, 4], vec![0, 2], vec![]]);
    assert!(group_items(&vec![], &vec![1, 2]).is_empty());
    assert_eq!(group_items(&vec![1], &vec![]), vec![Vec::<usize>::new()]);
}

#[test]
fn shipping_status_filter_reads_codes() {
    assert_eq!(status_filter(None), Ok(None));
    assert_eq!(status_filter(Some(0)), Ok(None));
    assert_eq!(status_filter(Some(1)), Ok(Some(OrderStatus::PENDING)));
    assert_eq!(status_filter(Some(2)), Ok(Some(OrderStatus::SHIPPING)));
    assert_eq!(status_filter(Some(3)), Ok(Some(OrderStatus::CANCELED)));
    assert_eq!(status_filter(Some(4)), Ok(Some(OrderStatus::SUCCESS)));
    assert!(matches!(status_filter(Some(5)), Err(AppError::BadRequest(_))));
    assert!(matches!(status_filter(Some(-1)), Err(AppError::BadRequest(_))));
    assert!(passes_filter(2, None));
    assert!(passes_filter(2, Some(OrderStatus::SHIPPING)));
    assert!(!passes_filter(1, Some(OrderStatus::SHIPPING)));
}

#[test]
fn diagnoses_are_recorded_by_the_appointments_doctor_for_its_patient() {
    let (p, d, x) = (UserId { value: 1 }, UserId { value: 2 }, UserId { value: 3 });
    assert_eq!(diagnosis_access(p, d, p, d), Ok(()));
    assert_eq!(diagnosis_access(p, d, x, d), Err(AppError::Forbidden));
    assert_eq!(diagnosis_access(p, d, p, x), Err(AppError::Forbidden));
    assert_eq!(insert_outcome(0), Err(AppError::Conflict));
    assert_eq!(insert_outcome(1), Ok(()));
}

#[test]
fn order_labels_read_back_as_their_status() {
    for s in [OrderStatus::PENDING, OrderStatus::SHIPPING, OrderStatus::CANCELED, OrderStatus::SUCCESS] {
        assert_eq!(OrderStatus::from_label(s.label()), Some(s));
    }
    assert_eq!(OrderStatus::from_label("DELIVERED"), None);
}

#[test]
fn login_needs_an_account_and_a_matching_password() {
    let h = hash_password("s3cret").unwrap();
    let id = UserId { value: 77 };
    assert_eq!(check_login(Some((id, h.clone())), "s3cret"), Ok(id));
    assert_eq!(check_login(Some((id, h)), "wrong"), Err(AppError::Unauthorized));
    assert_eq!(check_login(None, "s3cret"), Err(AppError::Unauthorized));
    assert_eq!(check_login(Some((id, "s3cret".to_string())), "s3cret"), Err(AppError::Unauthorized));
}

#[test]
fn order_amounts_must_be_positive() {
    assert_eq!(validate_order_amounts(&vec![1, 2, 30]), Ok(()));
    assert_eq!(validate_order_amounts(&vec![]), Ok(()));
    assert!(matches!(validate_order_amounts(&vec![1, 0, 3]), Err(AppError::BadRequest(_))));
    assert!(matches!(validate_order_amounts(&vec![-4]), Err(AppError::BadRequest(_))));
}

#[test]
fn status_filter_keeps_matching_orders_in_order() {
    assert_eq!(orders_passing(&vec![1, 2, 1, 4], Some(OrderStatus::PENDING)), vec![0, 2]);
    assert_eq!(orders_passing(&vec![1, 2, 1, 4], None), vec![0, 1, 2, 3]);
    assert!(orders_passing(&vec![1, 2], Some(OrderStatus::SUCCESS)).is_empty());
}
