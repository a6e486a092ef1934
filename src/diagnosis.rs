use vstd::prelude::*;

use crate::auth::UserId;
use crate::error::{AppError, AppResult};

verus! {

/// A diagnosis recorded for an appointment; `recorded_at` is a Unix
/// timestamp in seconds.
#[derive(Debug, Clone)]
pub struct Diagnoses {
    pub diagnosis_id: i32,
    pub appointment_id: i32,
    pub patient_id: UserId,
    pub doctor_id: UserId,
    pub symptom: String,
    pub recorded_at: i64,
}

/// A diagnosis as listed in a patient's history.
#[derive(Debug, Clone)]
pub struct DiagnosesResp {
    pub diagnosis_id: i32,
    pub symptom: String,
    pub recorded_at: i64,
}

/// New symptoms for a recorded diagnosis.
#[derive(Debug, Clone)]
pub struct UpdateDiagnosesReq {
    pub symptom: String,
}

/// A diagnosis to record for an appointment.
#[derive(Debug, Clone)]
pub struct DiagnosesReq {
    pub appointment_id: i32,
    pub symptom: String,
}

/// Whether a doctor may record a diagnosis for `patient` on an
/// appointment whose patient and slot doctor are `appt_patient` and
/// `appt_doctor`: both must match, else `Forbidden`.
pub fn diagnosis_access(
    appt_patient: UserId,
    appt_doctor: UserId,
    patient: UserId,
    doctor: UserId,
) -> (r: AppResult<()>)
    ensures
        (appt_patient == patient && appt_doctor == doctor) ==> r is Ok,
        !(appt_patient == patient && appt_doctor == doctor) ==> r == Err::<(), AppError>(
            AppError::Forbidden,
        ),
{
    if appt_patient != patient || appt_doctor != doctor {
        Err(AppError::Forbidden)
    } else {
        Ok(())
    }
}

/// The outcome of recording a diagnosis: no row inserted is a `Conflict`.
pub fn insert_outcome(rows_affected: u64) -> (r: AppResult<()>)
    ensures
        rows_affected > 0 ==> r is Ok,
        rows_affected == 0 ==> r == Err::<(), AppError>(AppError::Conflict),
{
    if rows_affected == 0 {
        Err(AppError::Conflict)
    } else {
        Ok(())
    }
}

} // verus!
