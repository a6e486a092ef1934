use vstd::prelude::*;

verus! {

/// A patient's signup request.
#[derive(Debug, Clone)]
pub struct PatientSignupReq {
    pub hn: i32,
    pub citizen_id: String,
    pub first_name: String,
    pub last_name: String,
    pub email: String,
    pub phone: String,
    pub password: String,
}

/// A patient's login request.
#[derive(Debug, Clone)]
pub struct LoginPatientReq {
    pub hn: i32,
    pub citizen_id: String,
    pub password: String,
}

/// The credentials a patient logs in with.
#[derive(Debug, Clone)]
pub struct PatientLoginInput {
    pub hn: i32,
    pub citizen_id: String,
    pub password: String,
}

/// A medical right as listed to its holder.
#[derive(Debug, Clone)]
pub struct MedicalRightItem {
    pub mr_id: i32,
    pub name: String,
    pub details: String,
    pub image_url: String,
}

/// A medical right to insert or update.
#[derive(Debug, Clone)]
pub struct MedicalRightUpsert {
    pub mr_id: i32,
    pub name: String,
    pub details: String,
    pub image_url: String,
}

/// A doctor's signup request.
#[derive(Debug, Clone)]
pub struct DoctorSignupReq {
    pub mln: String,
    pub citizen_id: String,
    pub first_name: String,
    pub last_name: String,
    pub phone: String,
    pub password: String,
    pub email: String,
}

/// The values a doctor signs up with.
#[derive(Debug, Clone)]
pub struct DoctorSignupInput {
    pub mln: String,
    pub citizen_id: String,
    pub first_name: String,
    pub last_name: String,
    pub phone: String,
    pub password: String,
    pub email: String,
}

/// A doctor's login request.
#[derive(Debug, Clone)]
pub struct LoginDoctorReq {
    pub mln: String,
    pub citizen_id: String,
    pub password: String,
}

/// The credentials a doctor logs in with.
#[derive(Debug, Clone)]
pub struct DoctorLoginInput {
    pub mln: String,
    pub citizen_id: String,
    pub password: String,
}

/// A freshly issued bearer token.
#[derive(Debug, Clone)]
pub struct AccessTokenResp {
    pub access_token: String,
}

/// A doctor's profile.
#[derive(Debug, Clone)]
pub struct DoctorProfileResp {
    pub first_name: String,
    pub last_name: String,
    pub email: String,
    pub phone: String,
    pub departments: String,
    pub position: String,
}

/// A patient's profile; `updated_at` is a Unix timestamp in seconds.
#[derive(Debug, Clone)]
pub struct PatientProfileResp {
    pub first_name: String,
    pub last_name: String,
    pub email: String,
    pub phone: String,
    pub updated_at: i64,
}

/// The values a patient signs up with.
#[derive(Debug, Clone)]
pub struct PatientSignupInput {
    pub hn: i32,
    pub citizen_id: String,
    pub first_name: String,
    pub last_name: String,
    pub email: String,
    pub phone: String,
    pub password: String,
}

impl From<PatientSignupReq> for PatientSignupInput {
    fn from(value: PatientSignupReq) -> (r: Self) {
        PatientSignupInput {
            hn: value.hn,
            citizen_id: value.citizen_id,
            first_name: value.first_name,
            last_name: value.last_name,
            email: value.email,
            phone: value.phone,
            password: value.password,
        }
    }
}

impl vstd::std_specs::convert::FromSpecImpl<PatientSignupReq> for PatientSignupInput {
    open spec fn obeys_from_spec() -> bool {
        true
    }

    open spec fn from_spec(value: PatientSignupReq) -> Self {
        PatientSignupInput {
            hn: value.hn,
            citizen_id: value.citizen_id,
            first_name: value.first_name,
            last_name: value.last_name,
            email: value.email,
            phone: value.phone,
            password: value.password,
        }
    }
}

impl From<LoginPatientReq> for PatientLoginInput {
    fn from(value: LoginPatientReq) -> (r: Self) {
        PatientLoginInput { hn: value.hn, citizen_id: value.citizen_id, password: value.password }
    }
}

impl vstd::std_specs::convert::FromSpecImpl<LoginPatientReq> for PatientLoginInput {
    open spec fn obeys_from_spec() -> bool {
        true
    }

    open spec fn from_spec(value: LoginPatientReq) -> Self {
        PatientLoginInput { hn: value.hn, citizen_id: value.citizen_id, password: value.password }
    }
}

impl From<MedicalRightItem> for MedicalRightUpsert {
    fn from(value: MedicalRightItem) -> (r: Self) {
        MedicalRightUpsert {
            mr_id: value.mr_id,
            name: value.name,
            details: value.details,
            image_url: value.image_url,
        }
    }
}

impl vstd::std_specs::convert::FromSpecImpl<MedicalRightItem> for MedicalRightUpsert {
    open spec fn obeys_from_spec() -> bool {
        true
    }

    open spec fn from_spec(value: MedicalRightItem) -> Self {
        MedicalRightUpsert {
            mr_id: value.mr_id,
            name: value.name,
            details: value.details,
            image_url: value.image_url,
        }
    }
}

impl From<DoctorSignupReq> for DoctorSignupInput {
    fn from(value: DoctorSignupReq) -> (r: Self) {
        DoctorSignupInput {
            mln: value.mln,
            citizen_id: value.citizen_id,
            first_name: value.first_name,
            last_name: value.last_name,
            phone: value.phone,
            password: value.password,
            email: value.email,
        }
    }
}

impl vstd::std_specs::convert::FromSpecImpl<DoctorSignupReq> for DoctorSignupInput {
    open spec fn obeys_from_spec() -> bool {
        true
    }

    open spec fn from_spec(value: DoctorSignupReq) -> Self {
        DoctorSignupInput {
            mln: value.mln,
            citizen_id: value.citizen_id,
            first_name: value.first_name,
            last_name: value.last_name,
            phone: value.phone,
            password: value.password,
            email: value.email,
        }
    }
}

impl From<LoginDoctorReq> for DoctorLoginInput {
    fn from(value: LoginDoctorReq) -> (r: Self) {
        DoctorLoginInput { mln: value.mln, citizen_id: value.citizen_id, password: value.password }
    }
}

impl vstd::std_specs::convert::FromSpecImpl<LoginDoctorReq> for DoctorLoginInput {
    open spec fn obeys_from_spec() -> bool {
        true
    }

    open spec fn from_spec(value: LoginDoctorReq) -> Self {
        DoctorLoginInput { mln: value.mln, citizen_id: value.citizen_id, password: value.password }
    }
}

} // verus!
