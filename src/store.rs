use vstd::prelude::*;

use crate::appointment::{
    action_status_of, booking_query_of, doctor_may_set, holds_slot, may_view, parse_action,
    patient_may_cancel, timeslot_change_ok, validate_booking, validate_timeslot_change, Appointment,
    AppointmentStatus, BookingQuery, CreateAppointmentReq, NewAppointment, TimeSlot,
    UpdateTimeslotReq,
};
use crate::auth::{role_decision, Role, UserId};
use crate::calendar::{date_before, date_is_before, time_text_of, CalendarDate, TimeOfDay};
use crate::error::{is_bad_request, AppError, AppResult};

verus! {

/// One row of the role relation: `user_id` holds `role`.
#[derive(Debug, Clone, Copy, PartialEq, Eq, Structural)]
pub struct RoleGrant {
    pub user_id: UserId,
    pub role: Role,
}

/// The contents of a time slot row.
pub struct SlotRow {
    pub timeslot_id: i32,
    pub doctor_id: UserId,
    pub day_of_weeks: i32,
    pub start_time: TimeOfDay,
    pub end_time: TimeOfDay,
    pub place_name: Seq<char>,
}

impl View for TimeSlot {
    type V = SlotRow;

    open spec fn view(&self) -> SlotRow {
        SlotRow {
            timeslot_id: self.timeslot_id,
            doctor_id: self.doctor_id,
            day_of_weeks: self.day_of_weeks,
            start_time: self.start_time,
            end_time: self.end_time,
            place_name: self.place_name@,
        }
    }
}

/// The relations of the store: roles, time slots and appointments, with
/// the identifiers the next inserted rows receive.
pub struct StoreState {
    pub roles: Seq<RoleGrant>,
    pub slots: Seq<SlotRow>,
    pub appointments: Seq<Appointment>,
    pub next_appointment_id: int,
    pub next_timeslot_id: int,
}

/// Whether the role relation holds the row (`user`, `role`).
pub open spec fn has_role_in(s: StoreState, user: UserId, role: Role) -> bool {
    exists|i: int| 0 <= i < s.roles.len() && s.roles[i] == (RoleGrant { user_id: user, role })
}

/// Whether an appointment that holds its slot exists for (`timeslot_id`, `date`).
pub open spec fn slot_taken(s: StoreState, timeslot_id: i32, date: CalendarDate) -> bool {
    exists|i: int|
        0 <= i < s.appointments.len() && s.appointments[i].timeslot_id == timeslot_id
            && s.appointments[i].date == date && holds_slot(#[trigger] s.appointments[i].status)
}

/// The store's constraints: unique identifiers below the next ones to be
/// given, and at most one appointment holding each slot on each date.
pub open spec fn wf(s: StoreState) -> bool {
    &&& forall|i: int, j: int|
        0 <= i < s.appointments.len() && 0 <= j < s.appointments.len() && i != j
            ==> #[trigger] s.appointments[i].appointment_id
            != #[trigger] s.appointments[j].appointment_id
    &&& forall|i: int|
        0 <= i < s.appointments.len() ==> #[trigger] s.appointments[i].appointment_id
            < s.next_appointment_id
    &&& forall|i: int, j: int|
        0 <= i < s.appointments.len() && 0 <= j < s.appointments.len() && i != j && holds_slot(
            #[trigger] s.appointments[i].status,
        ) && holds_slot(#[trigger] s.appointments[j].status) ==> !(s.appointments[i].timeslot_id
            == s.appointments[j].timeslot_id && s.appointments[i].date == s.appointments[j].date)
    &&& forall|i: int, j: int|
        0 <= i < s.slots.len() && 0 <= j < s.slots.len() && i != j
            ==> #[trigger] s.slots[i].timeslot_id != #[trigger] s.slots[j].timeslot_id
    &&& forall|i: int| 0 <= i < s.slots.len() ==> #[trigger] s.slots[i].timeslot_id < s.next_timeslot_id
    &&& 1 <= s.next_appointment_id <= i32::MAX + 1
    &&& 1 <= s.next_timeslot_id <= i32::MAX + 1
}

/// Whether a time slot row is the one a booking query looks for.
pub open spec fn slot_matches(t: SlotRow, q: BookingQuery) -> bool {
    t.doctor_id == q.doctor_id && t.day_of_weeks == q.day_of_week && t.start_time == q.start_time
        && t.end_time == q.end_time
}

/// The position of the first slot at or after `i` that the query looks for.
pub open spec fn first_slot_from(slots: Seq<SlotRow>, q: BookingQuery, i: int) -> Option<int>
    decreases slots.len() - i,
{
    if i < 0 || i >= slots.len() {
        None
    } else if slot_matches(slots[i], q) {
        Some(i)
    } else {
        first_slot_from(slots, q, i + 1)
    }
}

/// The identifier of the slot that a booking query finds, if any.
pub open spec fn slot_for(s: StoreState, q: BookingQuery) -> Option<i32> {
    match first_slot_from(s.slots, q, 0) {
        Some(i) => Some(s.slots[i].timeslot_id),
        None => None,
    }
}

/// The row that a successful booking inserts.
pub open spec fn pending_row(
    s: StoreState,
    patient: UserId,
    timeslot_id: i32,
    date: CalendarDate,
    created_at: i64,
) -> Appointment {
    Appointment {
        appointment_id: s.next_appointment_id as i32,
        patient_id: patient,
        timeslot_id,
        date,
        status: AppointmentStatus::PENDING,
        created_at,
    }
}

/// The store after inserting the appointment row `a`.
pub open spec fn booked(s: StoreState, a: Appointment) -> StoreState {
    StoreState {
        roles: s.roles,
        slots: s.slots,
        appointments: s.appointments.push(a),
        next_appointment_id: s.next_appointment_id + 1,
        next_timeslot_id: s.next_timeslot_id,
    }
}

/// Whether the slot backing `a` belongs to `doctor`.
pub open spec fn owns_slot_of(s: StoreState, a: Appointment, doctor: UserId) -> bool {
    exists|k: int|
        0 <= k < s.slots.len() && #[trigger] s.slots[k].timeslot_id == a.timeslot_id
            && s.slots[k].doctor_id == doctor
}

/// Whether the doctor's status update finds its row: the appointment
/// exists, lies in one of `actor`'s slots, and may move to `target`.
pub open spec fn doctor_can_set(
    s: StoreState,
    id: i32,
    actor: UserId,
    target: AppointmentStatus,
) -> bool {
    exists|i: int|
        0 <= i < s.appointments.len() && #[trigger] s.appointments[i].appointment_id == id
            && owns_slot_of(s, s.appointments[i], actor) && doctor_may_set(
            s.appointments[i].status,
            target,
        )
}

/// Whether the patient's cancellation finds its row: the appointment
/// exists, is `actor`'s, and is pending or accepted.
pub open spec fn patient_can_cancel(s: StoreState, id: i32, actor: UserId) -> bool {
    exists|i: int|
        0 <= i < s.appointments.len() && #[trigger] s.appointments[i].appointment_id == id
            && s.appointments[i].patient_id == actor && patient_may_cancel(s.appointments[i].status)
}

/// The store after setting the status of appointment `id` to `target`.
pub open spec fn with_status(s: StoreState, id: i32, target: AppointmentStatus) -> StoreState {
    StoreState {
        roles: s.roles,
        slots: s.slots,
        appointments: Seq::new(
            s.appointments.len(),
            |i: int|
                if s.appointments[i].appointment_id == id {
                    Appointment { status: target, ..s.appointments[i] }
                } else {
                    s.appointments[i]
                },
        ),
        next_appointment_id: s.next_appointment_id,
        next_timeslot_id: s.next_timeslot_id,
    }
}

/// What a status change asks of the store and does to it: `Forbidden`
/// without the role the target needs (Doctor to accept or reject, Patient
/// to cancel), `NotFound` when no row matches, the updated store otherwise.
pub open spec fn status_change_ok(
    s: StoreState,
    id: i32,
    actor: UserId,
    target: AppointmentStatus,
) -> bool {
    if target == AppointmentStatus::CANCELED {
        has_role_in(s, actor, Role::Patient) && patient_can_cancel(s, id, actor)
    } else {
        has_role_in(s, actor, Role::Doctor) && doctor_can_set(s, id, actor, target)
    }
}

/// The role that a move to `target` requires.
pub open spec fn role_for_target(target: AppointmentStatus) -> Role {
    if target == AppointmentStatus::CANCELED {
        Role::Patient
    } else {
        Role::Doctor
    }
}

/// Whether appointment `id` exists and is `actor`'s.
pub open spec fn patient_owns(s: StoreState, id: i32, actor: UserId) -> bool {
    exists|i: int|
        0 <= i < s.appointments.len() && #[trigger] s.appointments[i].appointment_id == id
            && s.appointments[i].patient_id == actor
}

/// The store without the appointment at position `i`.
pub open spec fn without_appointment(s: StoreState, i: int) -> StoreState {
    StoreState {
        roles: s.roles,
        slots: s.slots,
        appointments: s.appointments.remove(i),
        next_appointment_id: s.next_appointment_id,
        next_timeslot_id: s.next_timeslot_id,
    }
}

/// Whether slot `timeslot_id` exists and is `doctor`'s.
pub open spec fn doctor_owns_slot(s: StoreState, timeslot_id: i32, doctor: UserId) -> bool {
    exists|k: int|
        0 <= k < s.slots.len() && #[trigger] s.slots[k].timeslot_id == timeslot_id
            && s.slots[k].doctor_id == doctor
}

/// A slot row carrying the values of a well-formed update request.
pub open spec fn changed_slot(row: SlotRow, req: UpdateTimeslotReq) -> SlotRow {
    SlotRow {
        timeslot_id: row.timeslot_id,
        doctor_id: row.doctor_id,
        day_of_weeks: req.day_of_weeks,
        start_time: time_text_of(req.start_time@)->0,
        end_time: time_text_of(req.end_time@)->0,
        place_name: req.place_name@,
    }
}

/// The store with the slot at position `k` replaced by `row`.
pub open spec fn with_slot(s: StoreState, k: int, row: SlotRow) -> StoreState {
    StoreState {
        roles: s.roles,
        slots: s.slots.update(k, row),
        appointments: s.appointments,
        next_appointment_id: s.next_appointment_id,
        next_timeslot_id: s.next_timeslot_id,
    }
}

/// The store without the slot at position `k`.
pub open spec fn without_slot(s: StoreState, k: int) -> StoreState {
    StoreState {
        roles: s.roles,
        slots: s.slots.remove(k),
        appointments: s.appointments,
        next_appointment_id: s.next_appointment_id,
        next_timeslot_id: s.next_timeslot_id,
    }
}

/// The store with a new slot for `doctor` carrying the request's values.
pub open spec fn with_new_slot(s: StoreState, doctor: UserId, req: UpdateTimeslotReq) -> StoreState {
    StoreState {
        roles: s.roles,
        slots: s.slots.push(
            SlotRow {
                timeslot_id: s.next_timeslot_id as i32,
                doctor_id: doctor,
                day_of_weeks: req.day_of_weeks,
                start_time: time_text_of(req.start_time@)->0,
                end_time: time_text_of(req.end_time@)->0,
                place_name: req.place_name@,
            },
        ),
        appointments: s.appointments,
        next_appointment_id: s.next_appointment_id,
        next_timeslot_id: s.next_timeslot_id + 1,
    }
}

/// Whether appointment row `i` is `id` and slot row `k` backs it.
pub open spec fn joined_rows(s: StoreState, id: i32, i: int, k: int) -> bool {
    0 <= i < s.appointments.len() && 0 <= k < s.slots.len() && s.appointments[i].appointment_id
        == id && s.slots[k].timeslot_id == s.appointments[i].timeslot_id
}

/// The read paths over appointments: filters on status and date.
#[derive(Debug, Clone, Copy, PartialEq, Eq, Structural)]
pub enum AppointmentQuery {
    /// The patient's pending and accepted appointments from the date on.
    Upcoming(CalendarDate),
    /// The patient's canceled and rejected appointments, and the accepted
    /// ones before the date.
    Others(CalendarDate),
    /// The patient's accepted appointments on the date.
    AcceptedOn(CalendarDate),
    /// All appointments in the doctor's slots on the date.
    ScheduleOn(CalendarDate),
    /// The pending appointments in the doctor's slots.
    PendingRequests,
    /// The appointments in the doctor's slots that are no longer pending.
    AssessedRequests,
}

/// The role a query is asked under.
pub open spec fn role_for_query(q: AppointmentQuery) -> Role {
    match q {
        AppointmentQuery::Upcoming(_) | AppointmentQuery::Others(_) | AppointmentQuery::AcceptedOn(
            _,
        ) => Role::Patient,
        _ => Role::Doctor,
    }
}

/// Whether appointment `a` answers query `q` asked by `actor`, where
/// `owned` tells whether the slot behind `a` is `actor`'s.
pub open spec fn query_admits(q: AppointmentQuery, actor: UserId, a: Appointment, owned: bool) -> bool {
    match q {
        AppointmentQuery::Upcoming(today) => a.patient_id == actor && holds_slot(a.status)
            && !date_before(a.date, today),
        AppointmentQuery::Others(today) => a.patient_id == actor && (a.status
            == AppointmentStatus::CANCELED || a.status == AppointmentStatus::REJECTED || (a.status
            == AppointmentStatus::ACCEPTED && date_before(a.date, today))),
        AppointmentQuery::AcceptedOn(day) => a.patient_id == actor && a.status
            == AppointmentStatus::ACCEPTED && a.date == day,
        AppointmentQuery::ScheduleOn(day) => owned && a.date == day,
        AppointmentQuery::PendingRequests => owned && a.status == AppointmentStatus::PENDING,
        AppointmentQuery::AssessedRequests => owned && a.status != AppointmentStatus::PENDING,
    }
}

/// Whether appointment `a` answers query `q` asked by `actor` in store `s`.
pub open spec fn selects(s: StoreState, q: AppointmentQuery, actor: UserId, a: Appointment) -> bool {
    query_admits(q, actor, a, owns_slot_of(s, a, actor))
}

/// Whether appointment `a` answers query `q` asked by `actor`, where
/// `owned` tells whether the slot behind `a` is `actor`'s.
pub fn admits(q: AppointmentQuery, actor: UserId, a: Appointment, owned: bool) -> (r: bool)
    ensures
        r == query_admits(q, actor, a, owned),
{
    match q {
        AppointmentQuery::Upcoming(today) => a.patient_id == actor && (a.status
            == AppointmentStatus::PENDING || a.status == AppointmentStatus::ACCEPTED)
            && !date_is_before(a.date, today),
        AppointmentQuery::Others(today) => a.patient_id == actor && (a.status
            == AppointmentStatus::CANCELED || a.status == AppointmentStatus::REJECTED || (a.status
            == AppointmentStatus::ACCEPTED && date_is_before(a.date, today))),
        AppointmentQuery::AcceptedOn(day) => a.patient_id == actor && a.status
            == AppointmentStatus::ACCEPTED && a.date == day,
        AppointmentQuery::ScheduleOn(day) => owned && a.date == day,
        AppointmentQuery::PendingRequests => owned && a.status == AppointmentStatus::PENDING,
        AppointmentQuery::AssessedRequests => owned && a.status != AppointmentStatus::PENDING,
    }
}

/// The role a query is asked under.
pub fn query_role(q: AppointmentQuery) -> (r: Role)
    ensures
        r == role_for_query(q),
{
    match q {
        AppointmentQuery::Upcoming(_) | AppointmentQuery::Others(_) | AppointmentQuery::AcceptedOn(
            _,
        ) => Role::Patient,
        _ => Role::Doctor,
    }
}

/// Query `q` asked by `actor`, as a predicate on rows.
pub open spec fn query_pred(s: StoreState, q: AppointmentQuery, actor: UserId) -> spec_fn(
    Appointment,
) -> bool {
    |a: Appointment| selects(s, q, actor, a)
}

/// Slot rows of `doctor`, as a predicate.
pub open spec fn slot_of(doctor: UserId) -> spec_fn(SlotRow) -> bool {
    |t: SlotRow| t.doctor_id == doctor
}

/// Whether `v` lists, in the store's order, exactly the slots of `doctor`.
pub open spec fn lists_slots_of(s: StoreState, doctor: UserId, v: Seq<TimeSlot>) -> bool {
    &&& v.len() == s.slots.filter(slot_of(doctor)).len()
    &&& forall|i: int| 0 <= i < v.len() ==> #[trigger] v[i]@ == s.slots.filter(slot_of(doctor))[i]
}

/// The answer to query `q` asked by `actor`: `Forbidden` without the
/// query's role, else the matching rows in the store's order.
pub open spec fn listed(
    s: StoreState,
    q: AppointmentQuery,
    actor: UserId,
    r: AppResult<Vec<Appointment>>,
) -> bool {
    if !has_role_in(s, actor, role_for_query(q)) {
        r == Err::<Vec<Appointment>, AppError>(AppError::Forbidden)
    } else {
        r is Ok && r->Ok_0@ == s.appointments.filter(query_pred(s, q, actor))
    }
}

/// An in-memory relational store holding the relations that the role guard
/// and the appointment lifecycle read and write, with the constraints of
/// `wf` enforced on every write.
pub struct ClinicStore {
    roles: Vec<RoleGrant>,
    slots: Vec<TimeSlot>,
    appointments: Vec<Appointment>,
    next_appointment_id: i64,
    next_timeslot_id: i64,
}

impl View for ClinicStore {
    type V = StoreState;

    closed spec fn view(&self) -> StoreState {
        StoreState {
            roles: self.roles@,
            slots: Seq::new(self.slots@.len(), |i: int| self.slots@[i]@),
            appointments: self.appointments@,
            next_appointment_id: self.next_appointment_id as int,
            next_timeslot_id: self.next_timeslot_id as int,
        }
    }
}

impl ClinicStore {
    /// An empty store.
    pub fn new() -> (r: ClinicStore)
        ensures
            wf(r@),
            r@.roles.len() == 0,
            r@.slots.len() == 0,
            r@.appointments.len() == 0,
            r@.next_appointment_id == 1,
            r@.next_timeslot_id == 1,
    {
        ClinicStore {
            roles: Vec::new(),
            slots: Vec::new(),
            appointments: Vec::new(),
            next_appointment_id: 1,
            next_timeslot_id: 1,
        }
    }

    /// Whether `user` holds `role`, read from the role relation on every call.
    pub fn user_has_role(&self, user: UserId, role: Role) -> (r: bool)
        ensures
            r == has_role_in(self@, user, role),
    {
        let mut i: usize = 0;
        while i < self.roles.len()
            invariant
                i <= self.roles@.len(),
                forall|j: int|
                    0 <= j < i ==> self.roles@[j] != (RoleGrant { user_id: user, role }),
            decreases self.roles@.len() - i,
        {
            let g = self.roles[i];
            if g.user_id == user && g.role == role {
                assert(self@.roles[i as int] == (RoleGrant { user_id: user, role }));
                return true;
            }
            i = i + 1;
        }
        false
    }

    /// The role guard: `Forbidden` unless `user` holds `role` now.
    pub fn ensure_user_role(&self, user: UserId, role: Role) -> (r: AppResult<()>)
        ensures
            has_role_in(self@, user, role) ==> r is Ok,
            !has_role_in(self@, user, role) ==> r == Err::<(), AppError>(AppError::Forbidden),
    {
        role_decision(self.user_has_role(user, role))
    }

    /// The first time slot that a booking query looks for: same doctor,
    /// weekday, start and end.
    pub fn find_timeslot(&self, q: &BookingQuery) -> (r: Option<i32>)
        ensures
            r == slot_for(self@, *q),
    {
        let mut i: usize = 0;
        while i < self.slots.len()
            invariant
                i <= self.slots@.len(),
                first_slot_from(self@.slots, *q, 0) == first_slot_from(self@.slots, *q, i as int),
            decreases self.slots@.len() - i,
        {
            let t = &self.slots[i];
            assert(self@.slots[i as int] == t@);
            if t.doctor_id == q.doctor_id && t.day_of_weeks == q.day_of_week && t.start_time
                == q.start_time && t.end_time == q.end_time {
                return Some(t.timeslot_id);
            }
            i = i + 1;
        }
        None
    }

    /// Whether an appointment holding its slot exists for (`timeslot_id`, `date`).
    pub fn is_slot_taken(&self, timeslot_id: i32, date: CalendarDate) -> (r: bool)
        ensures
            r == slot_taken(self@, timeslot_id, date),
    {
        let mut i: usize = 0;
        while i < self.appointments.len()
            invariant
                i <= self.appointments@.len(),
                forall|j: int|
                    0 <= j < i ==> !(self.appointments@[j].timeslot_id == timeslot_id
                        && self.appointments@[j].date == date && holds_slot(
                        #[trigger] self.appointments@[j].status,
                    )),
            decreases self.appointments@.len() - i,
        {
            let a = self.appointments[i];
            if a.timeslot_id == timeslot_id && a.date == date && (a.status
                == AppointmentStatus::PENDING || a.status == AppointmentStatus::ACCEPTED) {
                assert(holds_slot(self.appointments@[i as int].status));
                return true;
            }
            i = i + 1;
        }
        false
    }

    /// Inserts a pending appointment, as the store does: an appointment
    /// already holding the slot on that date is a `Conflict`, and running
    /// out of identifiers is a store failure.
    pub fn insert_appointment(&mut self, cmd: NewAppointment, created_at: i64) -> (r: AppResult<
        Appointment,
    >)
        requires
            wf(old(self)@),
        ensures
            wf(final(self)@),
            slot_taken(old(self)@, cmd.timeslot_id, cmd.date) ==> r == Err::<Appointment, AppError>(
                AppError::Conflict,
            ) && final(self)@ == old(self)@,
            !slot_taken(old(self)@, cmd.timeslot_id, cmd.date) && old(self)@.next_appointment_id
                > i32::MAX ==> (r matches Err(e) && e is Db) && final(self)@ == old(self)@,
            !slot_taken(old(self)@, cmd.timeslot_id, cmd.date) && old(self)@.next_appointment_id
                <= i32::MAX ==> ({
                let a = pending_row(old(self)@, cmd.patient_id, cmd.timeslot_id, cmd.date, created_at);
                r == Ok::<Appointment, AppError>(a) && final(self)@ == booked(old(self)@, a)
            }),
    {
        if self.is_slot_taken(cmd.timeslot_id, cmd.date) {
            return Err(AppError::Conflict);
        }
        if self.next_appointment_id > i32::MAX as i64 {
            return Err(AppError::Db("appointment identifiers exhausted".to_string()));
        }
        let a = Appointment {
            appointment_id: self.next_appointment_id as i32,
            patient_id: cmd.patient_id,
            timeslot_id: cmd.timeslot_id,
            date: cmd.date,
            status: AppointmentStatus::PENDING,
            created_at,
        };
        self.appointments.push(a);
        self.next_appointment_id = self.next_appointment_id + 1;
        assert(self@.slots =~= old(self)@.slots);
        assert(self@.appointments =~= old(self)@.appointments.push(a));
        proof {
            let s = self@;
            let n = old(self)@.appointments.len();
            assert forall|i: int, j: int|
                0 <= i < s.appointments.len() && 0 <= j < s.appointments.len() && i != j && holds_slot(
                    #[trigger] s.appointments[i].status,
                ) && holds_slot(#[trigger] s.appointments[j].status) implies !(
            s.appointments[i].timeslot_id == s.appointments[j].timeslot_id
                && s.appointments[i].date == s.appointments[j].date) by {
                if i == n {
                    assert(s.appointments[j] == old(self)@.appointments[j]);
                } else if j == n {
                    assert(s.appointments[i] == old(self)@.appointments[i]);
                } else {
                    assert(s.appointments[i] == old(self)@.appointments[i]);
                    assert(s.appointments[j] == old(self)@.appointments[j]);
                }
            }
        }
        Ok(a)
    }

    /// Books `patient` into the slot that `req` names. In order: the request
    /// must be well formed with its start before its end (`BadRequest`,
    /// decided for every caller before the store is read); the caller must
    /// hold the Patient role (`Forbidden`); the doctor must have a slot on
    /// that weekday with those times (`NotFound`); and the slot must be free
    /// on that date (`Conflict`).
    pub fn book(&mut self, patient: UserId, req: &CreateAppointmentReq, created_at: i64) -> (r:
        AppResult<Appointment>)
        requires
            wf(old(self)@),
        ensures
            wf(final(self)@),
            r is Err ==> final(self)@ == old(self)@,
            booking_query_of(req.doctor_id, req.date@, req.start_time@, req.end_time@) is None
                ==> is_bad_request(r),
            booking_query_of(req.doctor_id, req.date@, req.start_time@, req.end_time@) matches Some(q)
                ==> if !has_role_in(old(self)@, patient, Role::Patient) {
                r == Err::<Appointment, AppError>(AppError::Forbidden)
            } else {
                match slot_for(old(self)@, q) {
                    None => r == Err::<Appointment, AppError>(AppError::NotFound),
                    Some(sid) => if slot_taken(old(self)@, sid, q.date) {
                        r == Err::<Appointment, AppError>(AppError::Conflict)
                    } else if old(self)@.next_appointment_id > i32::MAX {
                        r matches Err(e) && e is Db
                    } else {
                        let a = pending_row(old(self)@, patient, sid, q.date, created_at);
                        r == Ok::<Appointment, AppError>(a) && final(self)@ == booked(old(self)@, a)
                    },
                }
            },
    {
        let q = validate_booking(req)?;
        self.ensure_user_role(patient, Role::Patient)?;
        let timeslot_id = match self.find_timeslot(&q) {
            Some(id) => id,
            None => return Err(AppError::NotFound),
        };
        self.insert_appointment(
            NewAppointment { patient_id: patient, timeslot_id, date: q.date },
            created_at,
        )
    }

    /// Whether slot `timeslot_id` exists and belongs to `doctor`.
    pub fn slot_owned_by(&self, timeslot_id: i32, doctor: UserId) -> (r: bool)
        ensures
            r == (exists|k: int|
                0 <= k < self@.slots.len() && #[trigger] self@.slots[k].timeslot_id == timeslot_id
                    && self@.slots[k].doctor_id == doctor),
    {
        let mut i: usize = 0;
        while i < self.slots.len()
            invariant
                i <= self.slots@.len(),
                forall|k: int|
                    0 <= k < i ==> !(#[trigger] self@.slots[k].timeslot_id == timeslot_id
                        && self@.slots[k].doctor_id == doctor),
            decreases self.slots@.len() - i,
        {
            let t = &self.slots[i];
            assert(self@.slots[i as int] == t@);
            if t.timeslot_id == timeslot_id && t.doctor_id == doctor {
                assert(self@.slots[i as int].timeslot_id == timeslot_id);
                return true;
            }
            i = i + 1;
        }
        false
    }

    /// The position of appointment `id`, if it exists.
    pub fn appointment_index(&self, id: i32) -> (r: Option<usize>)
        ensures
            r matches Some(i) ==> i < self@.appointments.len()
                && self@.appointments[i as int].appointment_id == id,
            r is None ==> forall|i: int|
                0 <= i < self@.appointments.len() ==> #[trigger] self@.appointments[i].appointment_id != id,
    {
        let mut i: usize = 0;
        while i < self.appointments.len()
            invariant
                i <= self.appointments@.len(),
                forall|j: int|
                    0 <= j < i ==> #[trigger] self.appointments@[j].appointment_id != id,
            decreases self.appointments@.len() - i,
        {
            if self.appointments[i].appointment_id == id {
                return Some(i);
            }
            i = i + 1;
        }
        None
    }

    /// Sets the status of the appointment at position `i`.
    fn put_status(&mut self, i: usize, target: AppointmentStatus)
        requires
            wf(old(self)@),
            i < old(self)@.appointments.len(),
            holds_slot(target) ==> holds_slot(old(self)@.appointments[i as int].status),
        ensures
            wf(final(self)@),
            final(self)@ == with_status(old(self)@, old(self)@.appointments[i as int].appointment_id, target),
    {
        let ghost id = self.appointments@[i as int].appointment_id;
        self.appointments[i].status = target;
        assert(self@.slots =~= old(self)@.slots);
        assert(self@.appointments =~= with_status(old(self)@, id, target).appointments) by {
            assert forall|j: int| 0 <= j < self@.appointments.len() && j != i implies
                #[trigger] old(self)@.appointments[j].appointment_id != id by {}
        }
        proof {
            let s = self@;
            let o = old(self)@;
            assert forall|a: int, b: int|
                0 <= a < s.appointments.len() && 0 <= b < s.appointments.len() && a != b && holds_slot(
                    #[trigger] s.appointments[a].status,
                ) && holds_slot(#[trigger] s.appointments[b].status) implies !(
            s.appointments[a].timeslot_id == s.appointments[b].timeslot_id
                && s.appointments[a].date == s.appointments[b].date) by {
                assert(holds_slot(o.appointments[a].status));
                assert(holds_slot(o.appointments[b].status));
            }
            assert forall|a: int, b: int|
                0 <= a < s.appointments.len() && 0 <= b < s.appointments.len() && a != b
                    implies #[trigger] s.appointments[a].appointment_id
                != #[trigger] s.appointments[b].appointment_id by {
                assert(o.appointments[a].appointment_id != o.appointments[b].appointment_id);
            }
            assert forall|a: int| 0 <= a < s.appointments.len() implies #[trigger] s.appointments[a].appointment_id
                < s.next_appointment_id by {
                assert(o.appointments[a].appointment_id < o.next_appointment_id);
            }
        }
    }

    /// Moves appointment `id` to `target` on behalf of `actor`. Accepting
    /// and rejecting need the Doctor role, a pending appointment, and the
    /// backing slot to be `actor`'s; cancelling needs the Patient role and a
    /// pending or accepted appointment of `actor`'s own. A missing role is
    /// `Forbidden`; no matching row is `NotFound`, so that a caller learns
    /// nothing of appointments that are not theirs; a move back to pending
    /// is `BadRequest`.
    pub fn set_status(&mut self, id: i32, actor: UserId, target: AppointmentStatus) -> (r: AppResult<()>)
        requires
            wf(old(self)@),
        ensures
            wf(final(self)@),
            r is Err ==> final(self)@ == old(self)@,
            target == AppointmentStatus::PENDING ==> is_bad_request(r),
            target != AppointmentStatus::PENDING ==> ({
                if !has_role_in(old(self)@, actor, role_for_target(target)) {
                    r == Err::<(), AppError>(AppError::Forbidden)
                } else if status_change_ok(old(self)@, id, actor, target) {
                    r is Ok && final(self)@ == with_status(old(self)@, id, target)
                } else {
                    r == Err::<(), AppError>(AppError::NotFound)
                }
            }),
    {
        match target {
            AppointmentStatus::PENDING => {
                Err(AppError::BadRequest("an appointment cannot return to pending".to_string()))
            },
            AppointmentStatus::CANCELED => {
                self.ensure_user_role(actor, Role::Patient)?;
                match self.appointment_index(id) {
                    None => Err(AppError::NotFound),
                    Some(i) => {
                        let a = self.appointments[i];
                        if a.patient_id == actor && (a.status == AppointmentStatus::PENDING
                            || a.status == AppointmentStatus::ACCEPTED) {
                            self.put_status(i, target);
                            Ok(())
                        } else {
                            proof {
                                let o = self@;
                                assert forall|j: int|
                                    0 <= j < o.appointments.len() && #[trigger] o.appointments[j].appointment_id == id
                                    implies !(o.appointments[j].patient_id == actor && patient_may_cancel(
                                    o.appointments[j].status)) by {
                                    if j != i {
                                        assert(o.appointments[j].appointment_id != o.appointments[i as int].appointment_id);
                                    }
                                }
                            }
                            Err(AppError::NotFound)
                        }
                    },
                }
            },
            _ => {
                self.ensure_user_role(actor, Role::Doctor)?;
                match self.appointment_index(id) {
                    None => Err(AppError::NotFound),
                    Some(i) => {
                        let a = self.appointments[i];
                        if a.status == AppointmentStatus::PENDING && self.slot_owned_by(a.timeslot_id, actor) {
                            self.put_status(i, target);
                            Ok(())
                        } else {
                            proof {
                                let o = self@;
                                assert forall|j: int|
                                    0 <= j < o.appointments.len() && #[trigger] o.appointments[j].appointment_id == id
                                    implies !(owns_slot_of(o, o.appointments[j], actor) && doctor_may_set(
                                    o.appointments[j].status, target)) by {
                                    if j != i {
                                        assert(o.appointments[j].appointment_id != o.appointments[i as int].appointment_id);
                                    }
                                }
                            }
                            Err(AppError::NotFound)
                        }
                    },
                }
            },
        }
    }

    /// A doctor's `accept` or `reject` of appointment `id`: the Doctor role
    /// is checked first (`Forbidden`), then the action word (`BadRequest`),
    /// then the update as in `set_status`.
    pub fn doctor_update_appointment_status(&mut self, id: i32, actor: UserId, action: &str) -> (r:
        AppResult<()>)
        requires
            wf(old(self)@),
        ensures
            wf(final(self)@),
            r is Err ==> final(self)@ == old(self)@,
            !has_role_in(old(self)@, actor, Role::Doctor) ==> r == Err::<(), AppError>(AppError::Forbidden),
            has_role_in(old(self)@, actor, Role::Doctor) ==> (match action_status_of(action@) {
                None => is_bad_request(r),
                Some(t) => if doctor_can_set(old(self)@, id, actor, t) {
                    r is Ok && final(self)@ == with_status(old(self)@, id, t)
                } else {
                    r == Err::<(), AppError>(AppError::NotFound)
                },
            }),
    {
        self.ensure_user_role(actor, Role::Doctor)?;
        let target = parse_action(action)?;
        self.set_status(id, actor, target)
    }

    /// A patient's cancellation of appointment `id`; see `set_status`.
    pub fn cancel_appointment(&mut self, id: i32, actor: UserId) -> (r: AppResult<()>)
        requires
            wf(old(self)@),
        ensures
            wf(final(self)@),
            r is Err ==> final(self)@ == old(self)@,
            !has_role_in(old(self)@, actor, Role::Patient) ==> r == Err::<(), AppError>(AppError::Forbidden),
            has_role_in(old(self)@, actor, Role::Patient) ==> if patient_can_cancel(old(self)@, id, actor) {
                r is Ok && final(self)@ == with_status(old(self)@, id, AppointmentStatus::CANCELED)
            } else {
                r == Err::<(), AppError>(AppError::NotFound)
            },
    {
        self.set_status(id, actor, AppointmentStatus::CANCELED)
    }

    /// Removes appointment `id` outright, on behalf of its patient: the
    /// Patient role is needed (`Forbidden`), and an appointment that is
    /// missing or another patient's is `NotFound`.
    pub fn delete_appointment(&mut self, id: i32, actor: UserId) -> (r: AppResult<()>)
        requires
            wf(old(self)@),
        ensures
            wf(final(self)@),
            r is Err ==> final(self)@ == old(self)@,
            !has_role_in(old(self)@, actor, Role::Patient) ==> r == Err::<(), AppError>(AppError::Forbidden),
            has_role_in(old(self)@, actor, Role::Patient) && !patient_owns(old(self)@, id, actor) ==> r
                == Err::<(), AppError>(AppError::NotFound),
            has_role_in(old(self)@, actor, Role::Patient) && patient_owns(old(self)@, id, actor) ==> r is Ok,
            r is Ok ==> exists|i: int|
                0 <= i < old(self)@.appointments.len() && #[trigger] old(self)@.appointments[i].appointment_id == id
                    && final(self)@ == without_appointment(old(self)@, i),
    {
        self.ensure_user_role(actor, Role::Patient)?;
        match self.appointment_index(id) {
            None => Err(AppError::NotFound),
            Some(i) => {
                if self.appointments[i].patient_id == actor {
                    self.appointments.remove(i);
                    assert(self@.slots =~= old(self)@.slots);
                    assert(self@ == without_appointment(old(self)@, i as int));
                    proof {
                        let s = self@;
                        let o = old(self)@;
                        assert forall|a: int| 0 <= a < s.appointments.len() implies #[trigger] s.appointments[a]
                            == o.appointments[if a < i { a } else { a + 1 }] by {}
                        assert forall|a: int, b: int|
                            0 <= a < s.appointments.len() && 0 <= b < s.appointments.len() && a != b
                                implies #[trigger] s.appointments[a].appointment_id
                            != #[trigger] s.appointments[b].appointment_id by {
                            let a2 = if a < i { a } else { a + 1 };
                            let b2 = if b < i { b } else { b + 1 };
                            assert(o.appointments[a2].appointment_id != o.appointments[b2].appointment_id);
                        }
                        assert forall|a: int, b: int|
                            0 <= a < s.appointments.len() && 0 <= b < s.appointments.len() && a != b && holds_slot(
                                #[trigger] s.appointments[a].status,
                            ) && holds_slot(#[trigger] s.appointments[b].status) implies !(
                        s.appointments[a].timeslot_id == s.appointments[b].timeslot_id
                            && s.appointments[a].date == s.appointments[b].date) by {
                            let a2 = if a < i { a } else { a + 1 };
                            let b2 = if b < i { b } else { b + 1 };
                            assert(holds_slot(o.appointments[a2].status));
                            assert(holds_slot(o.appointments[b2].status));
                        }
                        assert forall|a: int| 0 <= a < s.appointments.len() implies #[trigger] s.appointments[a].appointment_id
                            < s.next_appointment_id by {
                            let a2 = if a < i { a } else { a + 1 };
                            assert(o.appointments[a2].appointment_id < o.next_appointment_id);
                        }
                    }
                    Ok(())
                } else {
                    proof {
                        let o = self@;
                        assert forall|j: int|
                            0 <= j < o.appointments.len() && #[trigger] o.appointments[j].appointment_id == id
                            implies o.appointments[j].patient_id != actor by {
                            if j != i {
                                assert(o.appointments[j].appointment_id != o.appointments[i as int].appointment_id);
                            }
                        }
                    }
                    Err(AppError::NotFound)
                }
            },
        }
    }

    /// The position of slot `timeslot_id`, if it exists.
    fn slot_index(&self, timeslot_id: i32) -> (r: Option<usize>)
        ensures
            r matches Some(k) ==> k < self@.slots.len() && self@.slots[k as int].timeslot_id == timeslot_id,
            r is None ==> forall|k: int|
                0 <= k < self@.slots.len() ==> #[trigger] self@.slots[k].timeslot_id != timeslot_id,
    {
        let mut i: usize = 0;
        while i < self.slots.len()
            invariant
                i <= self.slots@.len(),
                forall|k: int| 0 <= k < i ==> #[trigger] self@.slots[k].timeslot_id != timeslot_id,
            decreases self.slots@.len() - i,
        {
            assert(self@.slots[i as int] == self.slots@[i as int]@);
            if self.slots[i].timeslot_id == timeslot_id {
                return Some(i);
            }
            i = i + 1;
        }
        None
    }

    /// The position of slot `timeslot_id` if it is `doctor`'s.
    fn owned_slot_index(&self, timeslot_id: i32, doctor: UserId) -> (r: Option<usize>)
        ensures
            r matches Some(k) ==> k < self@.slots.len() && self@.slots[k as int].timeslot_id == timeslot_id
                && self@.slots[k as int].doctor_id == doctor,
            r is None ==> !doctor_owns_slot(self@, timeslot_id, doctor),
    {
        let mut i: usize = 0;
        while i < self.slots.len()
            invariant
                i <= self.slots@.len(),
                forall|k: int|
                    0 <= k < i ==> !(#[trigger] self@.slots[k].timeslot_id == timeslot_id
                        && self@.slots[k].doctor_id == doctor),
            decreases self.slots@.len() - i,
        {
            let t = &self.slots[i];
            assert(self@.slots[i as int] == t@);
            if t.timeslot_id == timeslot_id && t.doctor_id == doctor {
                return Some(i);
            }
            i = i + 1;
        }
        None
    }

    /// Opens a new weekly slot for doctor `actor`: the Doctor role is
    /// needed (`Forbidden`), the request must be well formed (`BadRequest`);
    /// running out of identifiers is a store failure. Returns the new slot's
    /// identifier.
    pub fn create_timeslot(&mut self, actor: UserId, req: &UpdateTimeslotReq) -> (r: AppResult<i32>)
        requires
            wf(old(self)@),
        ensures
            wf(final(self)@),
            r is Err ==> final(self)@ == old(self)@,
            !has_role_in(old(self)@, actor, Role::Doctor) ==> r == Err::<i32, AppError>(AppError::Forbidden),
            has_role_in(old(self)@, actor, Role::Doctor) && !timeslot_change_ok(*req) ==> is_bad_request(r),
            has_role_in(old(self)@, actor, Role::Doctor) && timeslot_change_ok(*req)
                && old(self)@.next_timeslot_id <= i32::MAX ==> r == Ok::<i32, AppError>(
                old(self)@.next_timeslot_id as i32,
            ) && final(self)@ == with_new_slot(old(self)@, actor, *req),
            has_role_in(old(self)@, actor, Role::Doctor) && timeslot_change_ok(*req)
                && old(self)@.next_timeslot_id > i32::MAX ==> (r matches Err(e) && e is Db),
    {
        self.ensure_user_role(actor, Role::Doctor)?;
        let c = validate_timeslot_change(req)?;
        if self.next_timeslot_id > i32::MAX as i64 {
            return Err(AppError::Db("time slot identifiers exhausted".to_string()));
        }
        let id = self.next_timeslot_id as i32;
        let t = TimeSlot {
            timeslot_id: id,
            doctor_id: actor,
            day_of_weeks: c.day_of_weeks,
            start_time: c.start_time,
            end_time: c.end_time,
            place_name: c.place_name,
        };
        self.slots.push(t);
        self.next_timeslot_id = self.next_timeslot_id + 1;
        assert(self@.slots =~= with_new_slot(old(self)@, actor, *req).slots) by {
            assert(self.slots@[self.slots@.len() - 1]@ == with_new_slot(old(self)@, actor, *req).slots.last());
        }
        proof {
            let s = self@;
            let o = old(self)@;
            let n = o.slots.len();
            assert forall|a: int, b: int|
                0 <= a < s.slots.len() && 0 <= b < s.slots.len() && a != b
                    implies #[trigger] s.slots[a].timeslot_id != #[trigger] s.slots[b].timeslot_id by {
                if a < n && b < n {
                    assert(s.slots[a] == o.slots[a]);
                    assert(s.slots[b] == o.slots[b]);
                } else if a < n {
                    assert(s.slots[a] == o.slots[a]);
                } else {
                    assert(s.slots[b] == o.slots[b]);
                }
            }
            assert forall|a: int| 0 <= a < s.slots.len() implies #[trigger] s.slots[a].timeslot_id < s.next_timeslot_id by {
                if a < n {
                    assert(s.slots[a] == o.slots[a]);
                }
            }
        }
        Ok(id)
    }

    /// Rewrites slot `timeslot_id` with the request's values, on behalf of
    /// the doctor who owns it: the Doctor role is needed (`Forbidden`), the
    /// request must be well formed (`BadRequest`), and a slot that is missing
    /// or another doctor's is `NotFound`.
    pub fn update_timeslot(&mut self, actor: UserId, timeslot_id: i32, req: &UpdateTimeslotReq) -> (r:
        AppResult<()>)
        requires
            wf(old(self)@),
        ensures
            wf(final(self)@),
            r is Err ==> final(self)@ == old(self)@,
            !has_role_in(old(self)@, actor, Role::Doctor) ==> r == Err::<(), AppError>(AppError::Forbidden),
            has_role_in(old(self)@, actor, Role::Doctor) && !timeslot_change_ok(*req) ==> is_bad_request(r),
            has_role_in(old(self)@, actor, Role::Doctor) && timeslot_change_ok(*req) && !doctor_owns_slot(
                old(self)@,
                timeslot_id,
                actor,
            ) ==> r == Err::<(), AppError>(AppError::NotFound),
            has_role_in(old(self)@, actor, Role::Doctor) && timeslot_change_ok(*req) && doctor_owns_slot(
                old(self)@,
                timeslot_id,
                actor,
            ) ==> r is Ok,
            r is Ok ==> exists|k: int|
                0 <= k < old(self)@.slots.len() && #[trigger] old(self)@.slots[k].timeslot_id == timeslot_id
                    && final(self)@ == with_slot(old(self)@, k, changed_slot(old(self)@.slots[k], *req)),
    {
        self.ensure_user_role(actor, Role::Doctor)?;
        let c = validate_timeslot_change(req)?;
        match self.owned_slot_index(timeslot_id, actor) {
            None => Err(AppError::NotFound),
            Some(k) => {
                let t = TimeSlot {
                    timeslot_id,
                    doctor_id: actor,
                    day_of_weeks: c.day_of_weeks,
                    start_time: c.start_time,
                    end_time: c.end_time,
                    place_name: c.place_name,
                };
                self.slots[k] = t;
                let ghost row = changed_slot(old(self)@.slots[k as int], *req);
                assert(self@.slots =~= old(self)@.slots.update(k as int, row));
                assert(self@ == with_slot(old(self)@, k as int, row));
                proof {
                    let s = self@;
                    let o = old(self)@;
                    assert forall|a: int, b: int|
                        0 <= a < s.slots.len() && 0 <= b < s.slots.len() && a != b
                            implies #[trigger] s.slots[a].timeslot_id != #[trigger] s.slots[b].timeslot_id by {
                        assert(o.slots[a].timeslot_id != o.slots[b].timeslot_id);
                    }
                    assert forall|a: int| 0 <= a < s.slots.len() implies #[trigger] s.slots[a].timeslot_id
                        < s.next_timeslot_id by {
                        assert(o.slots[a].timeslot_id < o.next_timeslot_id);
                    }
                }
                Ok(())
            },
        }
    }

    /// Removes slot `timeslot_id`, on behalf of the doctor who owns it: the
    /// Doctor role is needed (`Forbidden`), and a slot that is missing or
    /// another doctor's is `NotFound`.
    pub fn remove_timeslot(&mut self, actor: UserId, timeslot_id: i32) -> (r: AppResult<()>)
        requires
            wf(old(self)@),
        ensures
            wf(final(self)@),
            r is Err ==> final(self)@ == old(self)@,
            !has_role_in(old(self)@, actor, Role::Doctor) ==> r == Err::<(), AppError>(AppError::Forbidden),
            has_role_in(old(self)@, actor, Role::Doctor) && !doctor_owns_slot(old(self)@, timeslot_id, actor)
                ==> r == Err::<(), AppError>(AppError::NotFound),
            has_role_in(old(self)@, actor, Role::Doctor) && doctor_owns_slot(old(self)@, timeslot_id, actor)
                ==> r is Ok,
            r is Ok ==> exists|k: int|
                0 <= k < old(self)@.slots.len() && #[trigger] old(self)@.slots[k].timeslot_id == timeslot_id
                    && final(self)@ == without_slot(old(self)@, k),
    {
        self.ensure_user_role(actor, Role::Doctor)?;
        match self.owned_slot_index(timeslot_id, actor) {
            None => Err(AppError::NotFound),
            Some(k) => {
                self.slots.remove(k);
                assert(self@.slots =~= old(self)@.slots.remove(k as int));
                assert(self@ == without_slot(old(self)@, k as int));
                proof {
                    let s = self@;
                    let o = old(self)@;
                    assert forall|a: int, b: int|
                        0 <= a < s.slots.len() && 0 <= b < s.slots.len() && a != b
                            implies #[trigger] s.slots[a].timeslot_id != #[trigger] s.slots[b].timeslot_id by {
                        let a2 = if a < k { a } else { a + 1 };
                        let b2 = if b < k { b } else { b + 1 };
                        assert(s.slots[a] == o.slots[a2]);
                        assert(s.slots[b] == o.slots[b2]);
                    }
                    assert forall|a: int| 0 <= a < s.slots.len() implies #[trigger] s.slots[a].timeslot_id
                        < s.next_timeslot_id by {
                        let a2 = if a < k { a } else { a + 1 };
                        assert(s.slots[a] == o.slots[a2]);
                    }
                }
                Ok(())
            },
        }
    }

    /// Reads appointment `id` on behalf of `actor`. An appointment without
    /// its backing slot counts as missing (`NotFound`); it may be read by
    /// its patient, by the doctor owning its slot while holding the Doctor
    /// role, or by an Admin. For anybody else it is `NotFound` too, so that
    /// its existence is not revealed.
    pub fn get_by_id(&self, actor: UserId, id: i32) -> (r: AppResult<Appointment>)
        requires
            wf(self@),
        ensures
            forall|i: int, k: int| #[trigger] joined_rows(self@, id, i, k) ==> r == (if may_view(
                actor,
                self@.appointments[i].patient_id,
                self@.slots[k].doctor_id,
                has_role_in(self@, actor, Role::Doctor),
                has_role_in(self@, actor, Role::Admin),
            ) {
                Ok::<Appointment, AppError>(self@.appointments[i])
            } else {
                Err::<Appointment, AppError>(AppError::NotFound)
            }),
            (forall|i: int, k: int| !#[trigger] joined_rows(self@, id, i, k)) ==> r == Err::<
                Appointment,
                AppError,
            >(AppError::NotFound),
    {
        let i = match self.appointment_index(id) {
            Some(i) => i,
            None => return Err(AppError::NotFound),
        };
        let a = self.appointments[i];
        let k = match self.slot_index(a.timeslot_id) {
            Some(k) => k,
            None => {
                proof {
                    assert forall|i2: int, k2: int| !#[trigger] joined_rows(self@, id, i2, k2) by {
                        if joined_rows(self@, id, i2, k2) && i2 != i {
                            assert(self@.appointments[i2].appointment_id
                                != self@.appointments[i as int].appointment_id);
                        }
                    }
                }
                return Err(AppError::NotFound);
            },
        };
        assert(self@.slots[k as int] == self.slots@[k as int]@);
        let doctor = self.slots[k].doctor_id;
        let is_doctor = if actor == doctor && actor != a.patient_id {
            self.user_has_role(actor, Role::Doctor)
        } else {
            false
        };
        let is_admin = if actor != a.patient_id && !is_doctor {
            self.user_has_role(actor, Role::Admin)
        } else {
            false
        };
        proof {
            assert forall|i2: int, k2: int| #[trigger] joined_rows(self@, id, i2, k2) implies i2 == i
                && self@.slots[k2].doctor_id == doctor by {
                if i2 != i {
                    assert(self@.appointments[i2].appointment_id != self@.appointments[i as int].appointment_id);
                }
                assert(i2 == i);
                assert(self@.slots[k2].timeslot_id == a.timeslot_id);
                assert(self@.slots[k as int].timeslot_id == a.timeslot_id);
                if k2 != k {
                    assert(self@.slots[k2].timeslot_id != self@.slots[k as int].timeslot_id);
                }
                assert(k2 == k);
            }
            assert(joined_rows(self@, id, i as int, k as int));
        }
        if actor == a.patient_id || is_doctor || is_admin {
            Ok(a)
        } else {
            Err(AppError::NotFound)
        }
    }

    /// Whether appointment `a` answers query `q` asked by `actor`.
    fn answers(&self, q: AppointmentQuery, actor: UserId, a: Appointment) -> (r: bool)
        ensures
            r == selects(self@, q, actor, a),
    {
        let owned = self.slot_owned_by(a.timeslot_id, actor);
        admits(q, actor, a, owned)
    }

    /// The appointments answering query `q` asked by `actor`, in the
    /// store's order; the query's role is checked first (`Forbidden`).
    pub fn list_appointments(&self, actor: UserId, q: AppointmentQuery) -> (r: AppResult<
        Vec<Appointment>,
    >)
        ensures
            listed(self@, q, actor, r),
    {
        self.ensure_user_role(actor, query_role(q))?;
        let ghost pred = query_pred(self@, q, actor);
        let mut out: Vec<Appointment> = Vec::new();
        let mut i: usize = 0;
        while i < self.appointments.len()
            invariant
                i <= self.appointments@.len(),
                pred == query_pred(self@, q, actor),
                out@ == self@.appointments.subrange(0, i as int).filter(pred),
            decreases self.appointments@.len() - i,
        {
            let a = self.appointments[i];
            proof {
                self@.appointments.subrange(0, i as int).lemma_filter_push(a, pred);
                assert(pred(a) == selects(self@, q, actor, a));
                assert(self@.appointments.subrange(0, i as int + 1) =~= self@.appointments.subrange(
                    0,
                    i as int,
                ).push(a));
            }
            if self.answers(q, actor, a) {
                out.push(a);
            }
            i = i + 1;
        }
        assert(self@.appointments.subrange(0, i as int) =~= self@.appointments);
        Ok(out)
    }

    /// The patient's pending and accepted appointments from `today` on.
    pub fn patient_upcoming(&self, actor: UserId, today: CalendarDate) -> (r: AppResult<Vec<Appointment>>)
        ensures
            listed(self@, AppointmentQuery::Upcoming(today), actor, r),
    {
        self.list_appointments(actor, AppointmentQuery::Upcoming(today))
    }

    /// The patient's canceled and rejected appointments, and the accepted
    /// ones before `today`.
    pub fn patient_others(&self, actor: UserId, today: CalendarDate) -> (r: AppResult<Vec<Appointment>>)
        ensures
            listed(self@, AppointmentQuery::Others(today), actor, r),
    {
        self.list_appointments(actor, AppointmentQuery::Others(today))
    }

    /// The patient's accepted appointments on `date`.
    pub fn patient_by_date(&self, actor: UserId, date: CalendarDate) -> (r: AppResult<Vec<Appointment>>)
        ensures
            listed(self@, AppointmentQuery::AcceptedOn(date), actor, r),
    {
        self.list_appointments(actor, AppointmentQuery::AcceptedOn(date))
    }

    /// All appointments in the doctor's slots on `date`.
    pub fn doctor_schedule_by_date(&self, actor: UserId, date: CalendarDate) -> (r: AppResult<
        Vec<Appointment>,
    >)
        ensures
            listed(self@, AppointmentQuery::ScheduleOn(date), actor, r),
    {
        self.list_appointments(actor, AppointmentQuery::ScheduleOn(date))
    }

    /// The pending appointments in the doctor's slots.
    pub fn doctor_pending_requests(&self, actor: UserId) -> (r: AppResult<Vec<Appointment>>)
        ensures
            listed(self@, AppointmentQuery::PendingRequests, actor, r),
    {
        self.list_appointments(actor, AppointmentQuery::PendingRequests)
    }

    /// The appointments in the doctor's slots that are no longer pending.
    pub fn doctor_assessed_requests(&self, actor: UserId) -> (r: AppResult<Vec<Appointment>>)
        ensures
            listed(self@, AppointmentQuery::AssessedRequests, actor, r),
    {
        self.list_appointments(actor, AppointmentQuery::AssessedRequests)
    }

    /// The slots of `doctor`, in the store's order; anyone may read them.
    pub fn list_doctor_timeslots_public(&self, doctor: UserId) -> (r: Vec<TimeSlot>)
        ensures
            lists_slots_of(self@, doctor, r@),
    {
        let ghost pred = slot_of(doctor);
        let mut out: Vec<TimeSlot> = Vec::new();
        let ghost rows: Seq<SlotRow> = Seq::empty();
        let mut i: usize = 0;
        while i < self.slots.len()
            invariant
                i <= self.slots@.len(),
                pred == slot_of(doctor),
                rows == self@.slots.subrange(0, i as int).filter(pred),
                out@.len() == rows.len(),
                forall|j: int| 0 <= j < out@.len() ==> #[trigger] out@[j]@ == rows[j],
            decreases self.slots@.len() - i,
        {
            let t = &self.slots[i];
            proof {
                assert(self@.slots[i as int] == t@);
                self@.slots.subrange(0, i as int).lemma_filter_push(t@, pred);
                assert(pred(t@) == (t.doctor_id == doctor));
                assert(self@.slots.subrange(0, i as int + 1) =~= self@.slots.subrange(0, i as int).push(
                    t@,
                ));
            }
            if t.doctor_id == doctor {
                let copy = TimeSlot {
                    timeslot_id: t.timeslot_id,
                    doctor_id: t.doctor_id,
                    day_of_weeks: t.day_of_weeks,
                    start_time: t.start_time,
                    end_time: t.end_time,
                    place_name: t.place_name.clone(),
                };
                out.push(copy);
                proof {
                    rows = rows.push(t@);
                }
            }
            i = i + 1;
        }
        assert(self@.slots.subrange(0, i as int) =~= self@.slots);
        out
    }

    /// The doctor's own slots; the Doctor role is needed (`Forbidden`).
    pub fn list_my_timeslots(&self, actor: UserId) -> (r: AppResult<Vec<TimeSlot>>)
        ensures
            !has_role_in(self@, actor, Role::Doctor) ==> r == Err::<Vec<TimeSlot>, AppError>(
                AppError::Forbidden,
            ),
            has_role_in(self@, actor, Role::Doctor) ==> (r matches Ok(v) && lists_slots_of(
                self@,
                actor,
                v@,
            )),
    {
        self.ensure_user_role(actor, Role::Doctor)?;
        Ok(self.list_doctor_timeslots_public(actor))
    }

    /// Records that `user` holds `role`; the relation keeps one row per pair.
    pub fn grant_role(&mut self, user: UserId, role: Role)
        requires
            wf(old(self)@),
        ensures
            wf(final(self)@),
            has_role_in(final(self)@, user, role),
            forall|u: UserId, o: Role|
                #[trigger] has_role_in(final(self)@, u, o) <==> (has_role_in(old(self)@, u, o) || (u
                    == user && o == role)),
            final(self)@.slots == old(self)@.slots,
            final(self)@.appointments == old(self)@.appointments,
            final(self)@.next_appointment_id == old(self)@.next_appointment_id,
            final(self)@.next_timeslot_id == old(self)@.next_timeslot_id,
    {
        if !self.user_has_role(user, role) {
            self.roles.push(RoleGrant { user_id: user, role });
            assert(self@.roles[self@.roles.len() - 1] == RoleGrant { user_id: user, role });
            assert forall|u: UserId, o: Role| #[trigger]
                has_role_in(self@, u, o) <==> (has_role_in(old(self)@, u, o) || (u == user && o
                    == role)) by {
                if has_role_in(old(self)@, u, o) {
                    let i = choose|i: int|
                        0 <= i < old(self)@.roles.len() && old(self)@.roles[i] == (RoleGrant {
                            user_id: u,
                            role: o,
                        });
                    assert(self@.roles[i] == old(self)@.roles[i]);
                }
            }
        }
        assert(self@.slots =~= old(self)@.slots);
    }
}

} // verus!
