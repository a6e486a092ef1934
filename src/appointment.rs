use vstd::prelude::*;

use crate::auth::UserId;
use crate::calendar::{
    date_layout, date_parse_of, is_before, parse_date, parse_time, time_before, time_text_of,
    weekday_number, weekday_of, weekday_of_date, weekday_to_i32, CalendarDate,
    TimeOfDay,
};
use crate::error::{is_bad_request, AppError, AppResult};
use crate::text::same_text;

verus! {

/// Where an appointment stands in its lifecycle.
#[allow(non_camel_case_types)]
#[derive(Debug, Clone, Copy, PartialEq, Eq, Hash, Structural)]
pub enum AppointmentStatus {
    PENDING,
    ACCEPTED,
    REJECTED,
    CANCELED,
}

/// The number by which a doctor's views order a status.
pub open spec fn status_code_of(s: AppointmentStatus) -> i32 {
    match s {
        AppointmentStatus::ACCEPTED => 1,
        AppointmentStatus::PENDING => 2,
        AppointmentStatus::REJECTED => 3,
        AppointmentStatus::CANCELED => 4,
    }
}

/// The label under which a status is stored.
pub open spec fn status_label_of(s: AppointmentStatus) -> Seq<char> {
    match s {
        AppointmentStatus::PENDING => "PENDING"@,
        AppointmentStatus::ACCEPTED => "ACCEPTED"@,
        AppointmentStatus::REJECTED => "REJECTED"@,
        AppointmentStatus::CANCELED => "CANCELED"@,
    }
}

/// The number by which a doctor's views order a status.
pub fn status_to_code(status: AppointmentStatus) -> (r: i32)
    ensures
        r == status_code_of(status),
{
    match status {
        AppointmentStatus::ACCEPTED => 1,
        AppointmentStatus::PENDING => 2,
        AppointmentStatus::REJECTED => 3,
        AppointmentStatus::CANCELED => 4,
    }
}

impl AppointmentStatus {
    /// The label under which this status is stored.
    pub fn label(self) -> (r: &'static str)
        ensures
            r@ == status_label_of(self),
    {
        match self {
            AppointmentStatus::PENDING => "PENDING",
            AppointmentStatus::ACCEPTED => "ACCEPTED",
            AppointmentStatus::REJECTED => "REJECTED",
            AppointmentStatus::CANCELED => "CANCELED",
        }
    }

    /// The status stored under `label`, if any.
    pub fn from_label(label: &str) -> (r: Option<AppointmentStatus>)
        ensures
            r matches Some(s) ==> status_label_of(s) == label@,
            r is None ==> forall|s: AppointmentStatus| status_label_of(s) != label@,
    {
        if same_text(label, "PENDING") {
            Some(AppointmentStatus::PENDING)
        } else if same_text(label, "ACCEPTED") {
            Some(AppointmentStatus::ACCEPTED)
        } else if same_text(label, "REJECTED") {
            Some(AppointmentStatus::REJECTED)
        } else if same_text(label, "CANCELED") {
            Some(AppointmentStatus::CANCELED)
        } else {
            None
        }
    }

    /// Whether this status admits no further transition.
    pub fn is_terminal(self) -> (r: bool)
        ensures
            r == (self == AppointmentStatus::REJECTED || self == AppointmentStatus::CANCELED),
    {
        match self {
            AppointmentStatus::REJECTED | AppointmentStatus::CANCELED => true,
            _ => false,
        }
    }
}

/// Whether a doctor may move an appointment from `from` to `to`.
pub open spec fn doctor_may_set(from: AppointmentStatus, to: AppointmentStatus) -> bool {
    from == AppointmentStatus::PENDING && (to == AppointmentStatus::ACCEPTED || to
        == AppointmentStatus::REJECTED)
}

/// Whether a patient may cancel an appointment that stands at `from`.
pub open spec fn patient_may_cancel(from: AppointmentStatus) -> bool {
    from == AppointmentStatus::PENDING || from == AppointmentStatus::ACCEPTED
}

/// Whether an appointment in this status holds its slot on its date.
pub open spec fn holds_slot(s: AppointmentStatus) -> bool {
    s == AppointmentStatus::PENDING || s == AppointmentStatus::ACCEPTED
}

/// One booking of a patient into a time slot on a date. `created_at` is a
/// Unix timestamp in seconds.
#[derive(Debug, Clone, Copy, PartialEq, Eq, Structural)]
pub struct Appointment {
    pub appointment_id: i32,
    pub patient_id: UserId,
    pub timeslot_id: i32,
    pub date: CalendarDate,
    pub status: AppointmentStatus,
    pub created_at: i64,
}

/// A doctor's recurring weekly availability window; `day_of_weeks` counts
/// from Sunday (0) to Saturday (6).
#[derive(Debug, Clone)]
pub struct TimeSlot {
    pub timeslot_id: i32,
    pub doctor_id: UserId,
    pub day_of_weeks: i32,
    pub start_time: TimeOfDay,
    pub end_time: TimeOfDay,
    pub place_name: String,
}

/// What a booking inserts.
#[derive(Debug, Clone, Copy, PartialEq, Eq, Structural)]
pub struct NewAppointment {
    pub patient_id: UserId,
    pub timeslot_id: i32,
    pub date: CalendarDate,
}

/// A patient's view of one of their appointments.
#[derive(Debug, Clone)]
pub struct AppointmentOverview {
    pub appointment_id: i32,
    pub doctor_name: String,
    pub department: Option<String>,
    pub place_name: String,
    pub date: String,
    pub start_time: String,
    pub end_time: String,
    pub status: AppointmentStatus,
}

/// A doctor as listed to patients.
#[derive(Debug, Clone)]
pub struct DoctorListItem {
    pub doctor_id: UserId,
    pub doctor_name: String,
    pub department: Option<String>,
}

/// One of a doctor's time slots as listed.
#[derive(Debug, Clone)]
pub struct DoctorTimeslotView {
    pub timeslot_id: i32,
    pub day_of_weeks: i32,
    pub place_name: String,
    pub start_time: String,
    pub end_time: String,
}

/// A doctor's view of an appointment in one of their slots.
#[derive(Debug, Clone)]
pub struct DoctorAppointmentView {
    pub appointment_id: i32,
    pub patient_id: UserId,
    pub patient_name: String,
    pub date: String,
    pub start_time: String,
    pub end_time: String,
    pub status: AppointmentStatus,
    pub status_code: i32,
}

/// A patient's booking request: a doctor, a date and the slot's times.
#[derive(Debug, Clone)]
pub struct CreateAppointmentReq {
    pub doctor_id: UserId,
    pub date: String,
    pub start_time: String,
    pub end_time: String,
}

/// A doctor's new values for one of their slots.
#[derive(Debug, Clone)]
pub struct UpdateTimeslotReq {
    pub day_of_weeks: i32,
    pub place_name: String,
    pub start_time: String,
    pub end_time: String,
}

/// A validated booking request: the slot to look up and the date to book.
#[derive(Debug, Clone, Copy, PartialEq, Eq, Structural)]
pub struct BookingQuery {
    pub doctor_id: UserId,
    pub date: CalendarDate,
    pub day_of_week: i32,
    pub start_time: TimeOfDay,
    pub end_time: TimeOfDay,
}

/// The query that a well-formed booking request asks for, when the request
/// is well formed: a date, two times with the start strictly first, and a
/// date within the years -9999 to 9999.
pub open spec fn booking_query_of(
    doctor_id: UserId,
    date: Seq<char>,
    start: Seq<char>,
    end: Seq<char>,
) -> Option<BookingQuery> {
    match (date_parse_of(date, date_layout()), time_text_of(start), time_text_of(end)) {
        (Some(d), Some(s), Some(e)) => if time_before(s, e) && -9999 <= d.year <= 9999 {
            Some(
                BookingQuery {
                    doctor_id,
                    date: d,
                    day_of_week: weekday_number(weekday_of(d)),
                    start_time: s,
                    end_time: e,
                },
            )
        } else {
            None
        },
        _ => None,
    }
}

/// Checks a booking request without touching any store: every malformed
/// request, and every one whose start is not strictly before its end, is
/// `BadRequest`.
pub fn validate_booking(req: &CreateAppointmentReq) -> (r: AppResult<BookingQuery>)
    ensures
        booking_query_of(req.doctor_id, req.date@, req.start_time@, req.end_time@) matches Some(
            q,
        ) ==> r == Ok::<BookingQuery, AppError>(q),
        booking_query_of(req.doctor_id, req.date@, req.start_time@, req.end_time@) is None
            ==> is_bad_request(r),
        r matches Ok(q) ==> !time_before(q.end_time, q.start_time) && q.start_time
            != q.end_time,
{
    let date = parse_date(req.date.as_str())?;
    let start_time = parse_time(req.start_time.as_str())?;
    let end_time = parse_time(req.end_time.as_str())?;
    if !is_before(start_time, end_time) {
        return Err(AppError::BadRequest("start_time must be before end_time".to_string()));
    }
    if date.year < -9999 || date.year > 9999 {
        return Err(AppError::BadRequest("date is out of range".to_string()));
    }
    let weekday = match weekday_of_date(date) {
        Some(w) => w,
        None => return Err(AppError::BadRequest("date is out of range".to_string())),
    };
    Ok(
        BookingQuery {
            doctor_id: req.doctor_id,
            date,
            day_of_week: weekday_to_i32(weekday),
            start_time,
            end_time,
        },
    )
}

/// A validated time slot update.
#[derive(Debug, Clone)]
pub struct TimeslotChange {
    pub day_of_weeks: i32,
    pub place_name: String,
    pub start_time: TimeOfDay,
    pub end_time: TimeOfDay,
}

/// Whether an update request is well formed: a weekday number from 0 to 6,
/// two times with the start strictly first.
pub open spec fn timeslot_change_ok(req: UpdateTimeslotReq) -> bool {
    0 <= req.day_of_weeks <= 6 && time_text_of(req.start_time@) is Some && time_text_of(
        req.end_time@,
    ) is Some && time_before(time_text_of(req.start_time@)->0, time_text_of(req.end_time@)->0)
}

/// Checks a time slot update; a malformed one is `BadRequest`.
pub fn validate_timeslot_change(req: &UpdateTimeslotReq) -> (r: AppResult<TimeslotChange>)
    ensures
        timeslot_change_ok(*req) ==> (r matches Ok(c) && c.day_of_weeks == req.day_of_weeks
            && c.place_name@ == req.place_name@ && c.start_time == time_text_of(
            req.start_time@,
        )->0 && c.end_time == time_text_of(req.end_time@)->0),
        !timeslot_change_ok(*req) ==> is_bad_request(r),
{
    if req.day_of_weeks < 0 || req.day_of_weeks > 6 {
        return Err(AppError::BadRequest("day_of_weeks must be between 0 and 6".to_string()));
    }
    let start_time = parse_time(req.start_time.as_str())?;
    let end_time = parse_time(req.end_time.as_str())?;
    if !is_before(start_time, end_time) {
        return Err(AppError::BadRequest("start_time must be before end_time".to_string()));
    }
    Ok(
        TimeslotChange {
            day_of_weeks: req.day_of_weeks,
            place_name: req.place_name.clone(),
            start_time,
            end_time,
        },
    )
}

/// The status a doctor's action word asks for.
pub open spec fn action_status_of(action: Seq<char>) -> Option<AppointmentStatus> {
    if action == "accept"@ || action == "ACCEPT"@ {
        Some(AppointmentStatus::ACCEPTED)
    } else if action == "reject"@ || action == "REJECT"@ {
        Some(AppointmentStatus::REJECTED)
    } else {
        None
    }
}

/// Reads a doctor's action word: `accept` or `reject`, in lower or upper
/// case; any other word is `BadRequest`.
pub fn parse_action(action: &str) -> (r: AppResult<AppointmentStatus>)
    ensures
        action_status_of(action@) matches Some(s) ==> r == Ok::<AppointmentStatus, AppError>(s),
        action_status_of(action@) is None ==> is_bad_request(r),
{
    if same_text(action, "accept") || same_text(action, "ACCEPT") {
        Ok(AppointmentStatus::ACCEPTED)
    } else if same_text(action, "reject") || same_text(action, "REJECT") {
        Ok(AppointmentStatus::REJECTED)
    } else {
        Err(AppError::BadRequest("action must be accept or reject".to_string()))
    }
}

/// Who may read an appointment: its patient; the doctor who owns its slot,
/// while holding the Doctor role; or anyone holding the Admin role.
pub open spec fn may_view(
    user: UserId,
    patient: UserId,
    doctor: UserId,
    is_doctor: bool,
    is_admin: bool,
) -> bool {
    user == patient || (user == doctor && is_doctor) || is_admin
}

/// The access decision for reading an appointment. A refusal is
/// `NotFound`, as for a missing appointment, so that a caller learns nothing
/// of appointments that are not theirs.
pub fn view_access(
    user: UserId,
    patient: UserId,
    doctor: UserId,
    is_doctor: bool,
    is_admin: bool,
) -> (r: AppResult<()>)
    ensures
        may_view(user, patient, doctor, is_doctor, is_admin) ==> r is Ok,
        !may_view(user, patient, doctor, is_doctor, is_admin) ==> r == Err::<(), AppError>(
            AppError::NotFound,
        ),
{
    if user == patient || (user == doctor && is_doctor) || is_admin {
        Ok(())
    } else {
        Err(AppError::NotFound)
    }
}

/// The outcome of a statement that changes rows: none changed is `NotFound`.
pub fn rows_outcome(rows_affected: u64) -> (r: AppResult<()>)
    ensures
        rows_affected > 0 ==> r is Ok,
        rows_affected == 0 ==> r == Err::<(), AppError>(AppError::NotFound),
{
    if rows_affected == 0 {
        Err(AppError::NotFound)
    } else {
        Ok(())
    }
}

} // verus!
