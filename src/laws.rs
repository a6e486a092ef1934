use vstd::prelude::*;

use crate::appointment::{
    booking_query_of, holds_slot, status_label_of, Appointment, AppointmentStatus, BookingQuery,
};
use crate::auth::{
    check_outcome, expiry_fits, expiry_for, issued_claims, verify_outcome, Claims, Role, UserId,
};
use crate::calendar::{time_before, time_text_of};
use crate::error::AppError;
use crate::store::{
    booked, doctor_can_set, first_slot_from, has_role_in, owns_slot_of, role_for_target, slot_for,
    slot_matches, slot_taken, status_change_ok, with_status, wf, StoreState,
};

verus! {

/// A token issued at `now` for `ttl_minutes` is accepted, naming its
/// subject, at every instant before `now + ttl`, and rejected as
/// `Unauthorized` at that instant and every one after.
pub proof fn lemma_token_lifetime(user: UserId, ttl_minutes: int, now: int, at: int)
    requires
        expiry_fits(now, ttl_minutes),
    ensures
        at < expiry_for(now, ttl_minutes) ==> check_outcome(issued_claims(user, ttl_minutes, now), at)
            == Ok::<UserId, AppError>(user),
        at >= expiry_for(now, ttl_minutes) ==> check_outcome(issued_claims(user, ttl_minutes, now), at)
            == Err::<UserId, AppError>(AppError::Unauthorized),
{
}

/// Every rejected token is rejected alike: a token that failed its
/// signature or format check and an expired one both give `Unauthorized`.
pub proof fn lemma_rejections_alike(decoded: Option<Claims>, now: int)
    ensures
        decoded is None ==> verify_outcome(decoded, now) == Err::<UserId, AppError>(AppError::Unauthorized),
        verify_outcome(decoded, now) is Err ==> verify_outcome(decoded, now) == Err::<UserId, AppError>(
            AppError::Unauthorized,
        ),
{
}

/// A booking request whose start is not strictly before its end has no
/// query: it is refused as `BadRequest` before the store is read.
pub proof fn lemma_inverted_times_rejected(
    doctor: UserId,
    date: Seq<char>,
    start: Seq<char>,
    end: Seq<char>,
)
    requires
        time_text_of(start) is Some,
        time_text_of(end) is Some,
        !time_before(time_text_of(start)->0, time_text_of(end)->0),
    ensures
        booking_query_of(doctor, date, start, end) is None,
{
}

/// The slot search from position `i` finds nothing exactly when no slot at
/// or after `i` matches.
proof fn lemma_first_slot_none(slots: Seq<crate::store::SlotRow>, q: BookingQuery, i: int)
    requires
        0 <= i <= slots.len(),
    ensures
        first_slot_from(slots, q, i) is None <==> forall|k: int|
            i <= k < slots.len() ==> !slot_matches(#[trigger] slots[k], q),
    decreases slots.len() - i,
{
    if i < slots.len() {
        lemma_first_slot_none(slots, q, i + 1);
    }
}

/// A booking query finds no slot exactly when no slot of the store has the
/// query's doctor, weekday, start and end; such a booking is `NotFound`.
pub proof fn lemma_no_matching_slot(s: StoreState, q: BookingQuery)
    ensures
        slot_for(s, q) is None <==> forall|k: int|
            0 <= k < s.slots.len() ==> !slot_matches(#[trigger] s.slots[k], q),
{
    lemma_first_slot_none(s.slots, q, 0);
}

/// Accepting or rejecting succeeds only for the doctor who owns the slot
/// behind the appointment; for anyone else the update finds no row.
pub proof fn lemma_accept_needs_slot_owner(
    s: StoreState,
    id: i32,
    actor: UserId,
    target: AppointmentStatus,
)
    requires
        target == AppointmentStatus::ACCEPTED || target == AppointmentStatus::REJECTED,
        status_change_ok(s, id, actor, target),
    ensures
        has_role_in(s, actor, Role::Doctor),
        exists|i: int|
            0 <= i < s.appointments.len() && #[trigger] s.appointments[i].appointment_id == id
                && owns_slot_of(s, s.appointments[i], actor),
{
    assert(doctor_can_set(s, id, actor, target));
}

/// Distinct statuses are stored under distinct labels, so reading a stored
/// label gives back the status that was written.
pub proof fn lemma_labels_distinct(a: AppointmentStatus, b: AppointmentStatus)
    requires
        a != b,
    ensures
        status_label_of(a) != status_label_of(b),
{
    reveal_strlit("PENDING");
    reveal_strlit("ACCEPTED");
    reveal_strlit("REJECTED");
    reveal_strlit("CANCELED");
    assert(status_label_of(a).len() != status_label_of(b).len() || status_label_of(a)[0]
        != status_label_of(b)[0] || status_label_of(a)[1] != status_label_of(b)[1]);
}

/// Repeating a status change that succeeded finds no row the second time,
/// while the caller keeps the role it needs: the repeat is `NotFound`.
pub proof fn lemma_repeat_status_not_found(
    s: StoreState,
    id: i32,
    actor: UserId,
    target: AppointmentStatus,
)
    requires
        target != AppointmentStatus::PENDING,
        status_change_ok(s, id, actor, target),
    ensures
        has_role_in(with_status(s, id, target), actor, role_for_target(target)),
        !status_change_ok(with_status(s, id, target), id, actor, target),
{
    let t = with_status(s, id, target);
    assert(t.roles == s.roles);
    assert forall|i: int| 0 <= i < t.appointments.len() && t.appointments[i].appointment_id == id
        implies #[trigger] t.appointments[i].status == target by {}
}

/// Once every row of an appointment is rejected or canceled, no status
/// change reaches it again.
pub proof fn lemma_terminal_is_final(
    s: StoreState,
    id: i32,
    actor: UserId,
    target: AppointmentStatus,
)
    requires
        forall|i: int|
            0 <= i < s.appointments.len() && #[trigger] s.appointments[i].appointment_id == id
                ==> (s.appointments[i].status == AppointmentStatus::REJECTED
                || s.appointments[i].status == AppointmentStatus::CANCELED),
    ensures
        !status_change_ok(s, id, actor, target),
{
}

/// Cancelling needs the Patient role: without it no cancellation succeeds,
/// whatever other roles the caller holds.
pub proof fn lemma_cancel_needs_patient(s: StoreState, id: i32, actor: UserId)
    requires
        !has_role_in(s, actor, Role::Patient),
    ensures
        !status_change_ok(s, id, actor, AppointmentStatus::CANCELED),
        role_for_target(AppointmentStatus::CANCELED) == Role::Patient,
{
}

/// After a booking inserts its pending row, the slot is taken on that
/// date: a second booking of the same slot and date is a `Conflict`.
pub proof fn lemma_booked_slot_taken(s: StoreState, a: Appointment)
    requires
        a.status == AppointmentStatus::PENDING,
    ensures
        slot_taken(booked(s, a), a.timeslot_id, a.date),
{
    let t = booked(s, a);
    assert(t.appointments[s.appointments.len() as int] == a);
    assert(holds_slot(t.appointments[s.appointments.len() as int].status));
}

/// In a well-formed store no two appointments hold the same slot on the
/// same date.
pub proof fn lemma_one_holder(s: StoreState, i: int, j: int)
    requires
        wf(s),
        0 <= i < s.appointments.len(),
        0 <= j < s.appointments.len(),
        i != j,
        holds_slot(s.appointments[i].status),
        holds_slot(s.appointments[j].status),
        s.appointments[i].timeslot_id == s.appointments[j].timeslot_id,
    ensures
        s.appointments[i].date != s.appointments[j].date,
{
}

} // verus!
