use vstd::prelude::*;

use crate::auth::UserId;

verus! {

/// A medicine prescribed to a patient.
#[derive(Debug, Clone)]
pub struct Prescription {
    pub prescription_id: i32,
    pub patient_id: UserId,
    pub medicine_name: String,
    pub dosage: String,
    pub amount: i32,
    pub on_going: bool,
    pub doctor_comment: Option<String>,
    pub image_url: Option<String>,
}

/// A medicine found by a name search.
#[derive(Debug, Clone)]
pub struct MedicineSearchItem {
    pub medicine_id: i32,
    pub medicine_name: String,
}

/// A medicine's name and picture.
#[derive(Debug, Clone)]
pub struct MedicineInfo {
    pub medicine_id: i32,
    pub medicine_name: String,
    pub img_link: String,
}

/// A doctor's request to prescribe a medicine.
#[derive(Debug, Clone)]
pub struct CreatePrescriptionReq {
    pub medicine_id: i32,
    pub patient_id: UserId,
    pub doctor_comment: Option<String>,
    pub dosage: String,
    pub amount: i32,
    pub on_going: bool,
}

/// The values a prescription is created with.
#[derive(Debug, Clone)]
pub struct CreatePrescriptionInput {
    pub medicine_id: i32,
    pub patient_id: UserId,
    pub doctor_comment: Option<String>,
    pub dosage: String,
    pub amount: i32,
    pub on_going: bool,
}

/// A doctor's new values for a prescription.
#[derive(Debug, Clone)]
pub struct UpdatePrescriptionReq {
    pub medicine_id: i32,
    pub patient_id: UserId,
    pub doctor_comment: Option<String>,
    pub dosage: String,
    pub amount: i32,
    pub on_going: bool,
}

/// The values a prescription is updated with, and which one.
#[derive(Debug, Clone)]
pub struct UpdatePrescriptionInput {
    pub prescription_id: i32,
    pub medicine_id: i32,
    pub patient_id: UserId,
    pub doctor_comment: Option<String>,
    pub dosage: String,
    pub amount: i32,
    pub on_going: bool,
}

/// The identifier of a prescription.
#[derive(Debug, Clone, Copy, PartialEq, Eq, Structural)]
pub struct PrescriptionIdResp {
    pub prescription_id: i32,
}

impl From<CreatePrescriptionReq> for CreatePrescriptionInput {
    fn from(value: CreatePrescriptionReq) -> (r: Self) {
        CreatePrescriptionInput {
            medicine_id: value.medicine_id,
            patient_id: value.patient_id,
            doctor_comment: value.doctor_comment,
            dosage: value.dosage,
            amount: value.amount,
            on_going: value.on_going,
        }
    }
}

impl vstd::std_specs::convert::FromSpecImpl<CreatePrescriptionReq> for CreatePrescriptionInput {
    open spec fn obeys_from_spec() -> bool {
        true
    }

    open spec fn from_spec(value: CreatePrescriptionReq) -> Self {
        CreatePrescriptionInput {
            medicine_id: value.medicine_id,
            patient_id: value.patient_id,
            doctor_comment: value.doctor_comment,
            dosage: value.dosage,
            amount: value.amount,
            on_going: value.on_going,
        }
    }
}

impl UpdatePrescriptionInput {
    /// The update of prescription `prescription_id` with the request's values.
    pub fn from_request(prescription_id: i32, payload: UpdatePrescriptionReq) -> (r: Self)
        ensures
            r == (UpdatePrescriptionInput {
                prescription_id,
                medicine_id: payload.medicine_id,
                patient_id: payload.patient_id,
                doctor_comment: payload.doctor_comment,
                dosage: payload.dosage,
                amount: payload.amount,
                on_going: payload.on_going,
            }),
    {
        UpdatePrescriptionInput {
            prescription_id,
            medicine_id: payload.medicine_id,
            patient_id: payload.patient_id,
            doctor_comment: payload.doctor_comment,
            dosage: payload.dosage,
            amount: payload.amount,
            on_going: payload.on_going,
        }
    }
}

} // verus!
