use clinic::appointment::{
    parse_action, status_to_code, validate_booking, view_access, rows_outcome, AppointmentStatus,
    CreateAppointmentReq, UpdateTimeslotReq,
};
use clinic::auth::{Role, UserId};
use clinic::calendar::{CalendarDate, TimeOfDay};
use clinic::error::AppError;
use clinic::store::ClinicStore;

const PATIENT: UserId = UserId { value: 1 };
const OTHER_PATIENT: UserId = UserId { value: 2 };
const DOCTOR: UserId = UserId { value: 10 };
const OTHER_DOCTOR: UserId = UserId { value: 11 };
const ADMIN: UserId = UserId { value: 99 };

fn slot_req(day: i32, start: &str, end: &str) -> UpdateTimeslotReq {
    UpdateTimeslotReq {
        day_of_weeks: day,
        place_name: "Room 3".to_string(),
        start_time: start.to_string(),
        end_time: end.to_string(),
    }
}

fn booking(doctor: UserId, date: &str, start: &str, end: &str) -> CreateAppointmentReq {
    CreateAppointmentReq {
        doctor_id: doctor,
        date: date.to_string(),
        start_time: start.to_string(),
        end_time: end.to_string(),
    }
}

/// A store with two patients, two doctors, an admin, and doctor D's Monday
/// 09:00-12:00 slot.
fn clinic() -> (ClinicStore, i32) {
    let mut s = ClinicStore::new();
    s.grant_role(PATIENT, Role::Patient);
    s.grant_role(OTHER_PATIENT, Role::Patient);
    s.grant_role(DOCTOR, Role::Doctor);
    s.grant_role(OTHER_DOCTOR, Role::Doctor);
    s.grant_role(ADMIN, Role::Admin);
    let slot = s.create_timeslot(DOCTOR, &slot_req(1, "09:00", "12:00")).unwrap();
    (s, slot)
}

#[test]
fn role_guard_reads_the_role_relation() {
    let (mut s, _) = clinic();
    assert!(s.user_has_role(PATIENT, Role::Patient));
    assert!(!s.user_has_role(PATIENT, Role::Doctor));
    assert_eq!(s.ensure_user_role(DOCTOR, Role::Doctor), Ok(()));
    assert_eq!(s.ensure_user_role(DOCTOR, Role::Admin), Err(AppError::Forbidden));
    s.grant_role(DOCTOR, Role::Admin);
    assert_eq!(s.ensure_user_role(DOCTOR, Role::Admin), Ok(()));
}

#[test]
fn book_accept_cancel_then_cancel_again() {
    let (mut s, slot) = clinic();
    let a = s.book(PATIENT, &booking(DOCTOR, "2030-09-23", "09:00", "12:00"), 1_000).unwrap();
    assert_eq!(a.status, AppointmentStatus::PENDING);
    assert_eq!(a.patient_id, PATIENT);
    assert_eq!(a.timeslot_id, slot);
    assert_eq!(a.date, CalendarDate { year: 2030, month: 9, day: 23 });
    assert_eq!(a.created_at, 1_000);
    assert_eq!(s.doctor_update_appointment_status(a.appointment_id, DOCTOR, "accept"), Ok(()));
    assert_eq!(s.get_by_id(PATIENT, a.appointment_id).unwrap().status, AppointmentStatus::ACCEPTED);
    assert_eq!(s.cancel_appointment(a.appointment_id, PATIENT), Ok(()));
    assert_eq!(s.get_by_id(PATIENT, a.appointment_id).unwrap().status, AppointmentStatus::CANCELED);
    assert_eq!(s.cancel_appointment(a.appointment_id, PATIENT), Err(AppError::NotFound));
    assert_eq!(s.get_by_id(PATIENT, a.appointment_id).unwrap().status, AppointmentStatus::CANCELED);
}

#[test]
fn cancelling_another_patients_appointment_is_not_found() {
    let (mut s, _) = clinic();
    let a = s.book(OTHER_PATIENT, &booking(DOCTOR, "2030-09-23", "09:00", "12:00"), 0).unwrap();
    assert_eq!(s.cancel_appointment(a.appointment_id, PATIENT), Err(AppError::NotFound));
    assert_eq!(s.get_by_id(OTHER_PATIENT, a.appointment_id).unwrap().status, AppointmentStatus::PENDING);
}

#[test]
fn second_booking_of_the_same_slot_and_date_conflicts() {
    let (mut s, _) = clinic();
    let first = s.book(PATIENT, &booking(DOCTOR, "2030-09-23", "09:00", "12:00"), 0);
    let second = s.book(OTHER_PATIENT, &booking(DOCTOR, "2030-09-23", "09:00", "12:00"), 0);
    assert_eq!(first.unwrap().status, AppointmentStatus::PENDING);
    assert_eq!(second, Err(AppError::Conflict));
    let next_week = s.book(OTHER_PATIENT, &booking(DOCTOR, "2030-09-30", "09:00", "12:00"), 0);
    assert_eq!(next_week.unwrap().status, AppointmentStatus::PENDING);
}

#[test]
fn a_canceled_booking_frees_the_slot() {
    let (mut s, _) = clinic();
    let a = s.book(PATIENT, &booking(DOCTOR, "2030-09-23", "09:00", "12:00"), 0).unwrap();
    assert_eq!(s.cancel_appointment(a.appointment_id, PATIENT), Ok(()));
    let b = s.book(OTHER_PATIENT, &booking(DOCTOR, "2030-09-23", "09:00", "12:00"), 0).unwrap();
    assert_ne!(a.appointment_id, b.appointment_id);
}

#[test]
fn inverted_or_empty_time_range_is_bad_request() {
    let (mut s, _) = clinic();
    let r = s.book(PATIENT, &booking(DOCTOR, "2030-09-23", "12:00", "09:00"), 0);
    assert!(matches!(r, Err(AppError::BadRequest(_))));
    let r = s.book(PATIENT, &booking(DOCTOR, "2030-09-23", "09:00", "09:00"), 0);
    assert!(matches!(r, Err(AppError::BadRequest(_))));
    assert!(matches!(
        validate_booking(&booking(DOCTOR, "2030-09-23", "12:00", "09:00")),
        Err(AppError::BadRequest(_))
    ));
    let r = s.book(PATIENT, &booking(DOCTOR, "23/09/2030", "09:00", "12:00"), 0);
    assert!(matches!(r, Err(AppError::BadRequest(_))));
}

#[test]
fn validated_booking_finds_the_weekday() {
    let q = validate_booking(&booking(DOCTOR, "2030-09-23", "09:00", "12:00")).unwrap();
    assert_eq!(q.day_of_week, 1);
    assert_eq!(q.start_time, TimeOfDay { hour: 9, minute: 0, second: 0 });
    assert_eq!(q.end_time, TimeOfDay { hour: 12, minute: 0, second: 0 });
}

#[test]
fn booking_without_a_matching_slot_is_not_found() {
    let (mut s, _) = clinic();
    assert_eq!(s.book(PATIENT, &booking(DOCTOR, "2030-09-24", "09:00", "12:00"), 0), Err(AppError::NotFound));
    assert_eq!(s.book(PATIENT, &booking(DOCTOR, "2030-09-23", "09:00", "11:00"), 0), Err(AppError::NotFound));
    assert_eq!(
        s.book(PATIENT, &booking(OTHER_DOCTOR, "2030-09-23", "09:00", "12:00"), 0),
        Err(AppError::NotFound)
    );
}

#[test]
fn inverted_times_are_bad_request_for_every_caller() {
    let (mut s, _) = clinic();
    let stranger = UserId { value: 12_345 };
    for caller in [PATIENT, DOCTOR, ADMIN, stranger] {
        let r = s.book(caller, &booking(DOCTOR, "2030-09-23", "12:00", "09:00"), 0);
        assert!(matches!(r, Err(AppError::BadRequest(_))));
        let r = s.book(caller, &booking(DOCTOR, "not a date", "09:00", "12:00"), 0);
        assert!(matches!(r, Err(AppError::BadRequest(_))));
    }
    assert!(s.doctor_pending_requests(DOCTOR).unwrap().is_empty());
}

#[test]
fn booking_needs_the_patient_role() {
    let (mut s, _) = clinic();
    assert_eq!(s.book(DOCTOR, &booking(DOCTOR, "2030-09-23", "09:00", "12:00"), 0), Err(AppError::Forbidden));
}

#[test]
fn only_the_slot_owner_accepts_or_rejects() {
    let (mut s, _) = clinic();
    let a = s.book(PATIENT, &booking(DOCTOR, "2030-09-23", "09:00", "12:00"), 0).unwrap();
    assert_eq!(s.doctor_update_appointment_status(a.appointment_id, OTHER_DOCTOR, "accept"), Err(AppError::NotFound));
    assert_eq!(s.doctor_update_appointment_status(a.appointment_id, PATIENT, "accept"), Err(AppError::Forbidden));
    assert!(matches!(
        s.doctor_update_appointment_status(a.appointment_id, DOCTOR, "maybe"),
        Err(AppError::BadRequest(_))
    ));
    assert_eq!(s.doctor_update_appointment_status(a.appointment_id, DOCTOR, "REJECT"), Ok(()));
    assert_eq!(s.get_by_id(DOCTOR, a.appointment_id).unwrap().status, AppointmentStatus::REJECTED);
}

#[test]
fn doctor_cannot_cancel() {
    let (mut s, _) = clinic();
    let a = s.book(PATIENT, &booking(DOCTOR, "2030-09-23", "09:00", "12:00"), 0).unwrap();
    assert_eq!(s.cancel_appointment(a.appointment_id, DOCTOR), Err(AppError::Forbidden));
    assert_eq!(s.set_status(a.appointment_id, DOCTOR, AppointmentStatus::CANCELED), Err(AppError::Forbidden));
}

#[test]
fn repeating_a_status_change_is_not_found() {
    let (mut s, _) = clinic();
    let a = s.book(PATIENT, &booking(DOCTOR, "2030-09-23", "09:00", "12:00"), 0).unwrap();
    assert_eq!(s.set_status(a.appointment_id, DOCTOR, AppointmentStatus::REJECTED), Ok(()));
    assert_eq!(s.set_status(a.appointment_id, DOCTOR, AppointmentStatus::REJECTED), Err(AppError::NotFound));
    assert_eq!(s.set_status(a.appointment_id, DOCTOR, AppointmentStatus::ACCEPTED), Err(AppError::NotFound));
    assert_eq!(s.cancel_appointment(a.appointment_id, PATIENT), Err(AppError::NotFound));
    assert!(matches!(
        s.set_status(a.appointment_id, PATIENT, AppointmentStatus::PENDING),
        Err(AppError::BadRequest(_))
    ));
}

#[test]
fn deleting_removes_only_ones_own_appointment() {
    let (mut s, _) = clinic();
    let a = s.book(PATIENT, &booking(DOCTOR, "2030-09-23", "09:00", "12:00"), 0).unwrap();
    assert_eq!(s.delete_appointment(a.appointment_id, OTHER_PATIENT), Err(AppError::NotFound));
    assert_eq!(s.delete_appointment(a.appointment_id, PATIENT), Ok(()));
    assert_eq!(s.get_by_id(PATIENT, a.appointment_id), Err(AppError::NotFound));
    assert_eq!(s.delete_appointment(a.appointment_id, PATIENT), Err(AppError::NotFound));
}

#[test]
fn reading_an_appointment_is_for_its_parties_and_admins() {
    let (mut s, _) = clinic();
    let a = s.book(PATIENT, &booking(DOCTOR, "2030-09-23", "09:00", "12:00"), 0).unwrap();
    assert_eq!(s.get_by_id(PATIENT, a.appointment_id), Ok(a));
    assert_eq!(s.get_by_id(DOCTOR, a.appointment_id), Ok(a));
    assert_eq!(s.get_by_id(ADMIN, a.appointment_id), Ok(a));
    assert_eq!(s.get_by_id(OTHER_PATIENT, a.appointment_id), Err(AppError::NotFound));
    assert_eq!(s.get_by_id(OTHER_DOCTOR, a.appointment_id), Err(AppError::NotFound));
    assert_eq!(s.get_by_id(PATIENT, 12_345), Err(AppError::NotFound));
}

#[test]
fn timeslots_change_only_for_their_doctor() {
    let (mut s, slot) = clinic();
    assert!(matches!(
        s.update_timeslot(DOCTOR, slot, &slot_req(7, "09:00", "12:00")),
        Err(AppError::BadRequest(_))
    ));
    assert!(matches!(
        s.update_timeslot(DOCTOR, slot, &slot_req(2, "12:00", "09:00")),
        Err(AppError::BadRequest(_))
    ));
    assert_eq!(s.update_timeslot(OTHER_DOCTOR, slot, &slot_req(2, "09:00", "12:00")), Err(AppError::NotFound));
    assert_eq!(s.update_timeslot(PATIENT, slot, &slot_req(2, "09:00", "12:00")), Err(AppError::Forbidden));
    assert_eq!(s.update_timeslot(DOCTOR, slot, &slot_req(2, "10:00", "11:30")), Ok(()));
    assert_eq!(s.book(PATIENT, &booking(DOCTOR, "2030-09-23", "09:00", "12:00"), 0), Err(AppError::NotFound));
    assert!(s.book(PATIENT, &booking(DOCTOR, "2030-09-24", "10:00", "11:30"), 0).is_ok());
    assert_eq!(s.remove_timeslot(OTHER_DOCTOR, slot), Err(AppError::NotFound));
    assert_eq!(s.remove_timeslot(DOCTOR, slot), Ok(()));
    assert_eq!(s.remove_timeslot(DOCTOR, slot), Err(AppError::NotFound));
}

#[test]
fn action_words_and_status_codes() {
    assert_eq!(parse_action("accept"), Ok(AppointmentStatus::ACCEPTED));
    assert_eq!(parse_action("ACCEPT"), Ok(AppointmentStatus::ACCEPTED));
    assert_eq!(parse_action("reject"), Ok(AppointmentStatus::REJECTED));
    assert!(matches!(parse_action("Accept"), Err(AppError::BadRequest(_))));
    assert_eq!(status_to_code(AppointmentStatus::ACCEPTED), 1);
    assert_eq!(status_to_code(AppointmentStatus::PENDING), 2);
    assert_eq!(status_to_code(AppointmentStatus::REJECTED), 3);
    assert_eq!(status_to_code(AppointmentStatus::CANCELED), 4);
    assert_eq!(AppointmentStatus::CANCELED.label(), "CANCELED");
    assert!(AppointmentStatus::REJECTED.is_terminal());
    assert!(!AppointmentStatus::ACCEPTED.is_terminal());
}

#[test]
fn access_and_row_count_decisions() {
    assert_eq!(view_access(PATIENT, PATIENT, DOCTOR, false, false), Ok(()));
    assert_eq!(view_access(DOCTOR, PATIENT, DOCTOR, true, false), Ok(()));
    assert_eq!(view_access(DOCTOR, PATIENT, DOCTOR, false, false), Err(AppError::NotFound));
    assert_eq!(view_access(OTHER_PATIENT, PATIENT, DOCTOR, false, false), Err(AppError::NotFound));
    assert_eq!(view_access(ADMIN, PATIENT, DOCTOR, false, true), Ok(()));
    assert_eq!(rows_outcome(0), Err(AppError::NotFound));
    assert_eq!(rows_outcome(1), Ok(()));
}

#[test]
fn patient_read_paths_filter_by_status_and_date() {
    let (mut s, _) = clinic();
    let today = CalendarDate { year: 2030, month: 9, day: 23 };
    let past = s.book(PATIENT, &booking(DOCTOR, "2030-09-16", "09:00", "12:00"), 0).unwrap();
    let now = s.book(PATIENT, &booking(DOCTOR, "2030-09-23", "09:00", "12:00"), 0).unwrap();
    let later = s.book(PATIENT, &booking(DOCTOR, "2030-09-30", "09:00", "12:00"), 0).unwrap();
    let gone = s.book(PATIENT, &booking(DOCTOR, "2030-10-07", "09:00", "12:00"), 0).unwrap();
    let theirs = s.book(OTHER_PATIENT, &booking(DOCTOR, "2030-10-14", "09:00", "12:00"), 0).unwrap();
    assert_eq!(s.set_status(past.appointment_id, DOCTOR, AppointmentStatus::ACCEPTED), Ok(()));
    assert_eq!(s.set_status(later.appointment_id, DOCTOR, AppointmentStatus::ACCEPTED), Ok(()));
    assert_eq!(s.cancel_appointment(gone.appointment_id, PATIENT), Ok(()));
    let ids = |v: Vec<clinic::appointment::Appointment>| v.iter().map(|a| a.appointment_id).collect::<Vec<_>>();
    assert_eq!(ids(s.patient_upcoming(PATIENT, today).unwrap()), vec![now.appointment_id, later.appointment_id]);
    assert_eq!(ids(s.patient_others(PATIENT, today).unwrap()), vec![past.appointment_id, gone.appointment_id]);
    assert_eq!(
        ids(s.patient_by_date(PATIENT, CalendarDate { year: 2030, month: 9, day: 30 }).unwrap()),
        vec![later.appointment_id]
    );
    assert_eq!(s.patient_upcoming(DOCTOR, today).map(|v| v.len()), Err(AppError::Forbidden));
    assert_eq!(ids(s.doctor_pending_requests(DOCTOR).unwrap()), vec![now.appointment_id, theirs.appointment_id]);
    assert_eq!(
        ids(s.doctor_assessed_requests(DOCTOR).unwrap()),
        vec![past.appointment_id, later.appointment_id, gone.appointment_id]
    );
    assert_eq!(ids(s.doctor_schedule_by_date(DOCTOR, today).unwrap()), vec![now.appointment_id]);
    assert!(s.doctor_pending_requests(OTHER_DOCTOR).unwrap().is_empty());
    assert_eq!(s.doctor_pending_requests(PATIENT).map(|v| v.len()), Err(AppError::Forbidden));
}

#[test]
fn timeslot_listings_show_the_doctors_slots() {
    let (mut s, slot) = clinic();
    let other = s.create_timeslot(OTHER_DOCTOR, &slot_req(3, "13:00", "15:00")).unwrap();
    let second = s.create_timeslot(DOCTOR, &slot_req(5, "08:00", "10:30:00")).unwrap();
    assert_ne!(other, second);
    let mine = s.list_my_timeslots(DOCTOR).unwrap();
    assert_eq!(mine.iter().map(|t| t.timeslot_id).collect::<Vec<_>>(), vec![slot, second]);
    assert_eq!(mine[1].day_of_weeks, 5);
    assert_eq!(mine[1].end_time, TimeOfDay { hour: 10, minute: 30, second: 0 });
    assert_eq!(mine[0].place_name, "Room 3");
    let public = s.list_doctor_timeslots_public(OTHER_DOCTOR);
    assert_eq!(public.len(), 1);
    assert_eq!(public[0].timeslot_id, other);
    assert!(matches!(s.list_my_timeslots(PATIENT), Err(AppError::Forbidden)));
    assert_eq!(s.create_timeslot(PATIENT, &slot_req(3, "13:00", "15:00")), Err(AppError::Forbidden));
}

#[test]
fn stored_labels_read_back_as_their_status() {
    for s in [
        AppointmentStatus::PENDING,
        AppointmentStatus::ACCEPTED,
        AppointmentStatus::REJECTED,
        AppointmentStatus::CANCELED,
    ] {
        assert_eq!(AppointmentStatus::from_label(s.label()), Some(s));
    }
    assert_eq!(AppointmentStatus::from_label("pending"), None);
    assert_eq!(AppointmentStatus::from_label(""), None);
}
