use vstd::prelude::*;
use crate::error::FyersError;
use crate::rest::is_ok_status;

verus! {

/// The user profile that the service returns.
pub struct Profile {
    pub name: String,
    pub display_name: Option<String>,
    pub fy_id: String,
    pub image: Option<String>,
    pub email_id: String,
    pub pan: Option<String>,
    pub pin_change_date: Option<String>,
    pub pwd_change_date: Option<String>,
    pub mobile_number: Option<String>,
    pub totp: bool,
    pub pwd_to_expire: i64,
    pub ddpi_enabled: bool,
    pub mtf_enabled: bool,
}

/// Response of the profile endpoint.
pub struct ProfileResponse {
    pub s: String,
    pub code: i64,
    pub message: String,
    pub data: Profile,
}

impl ProfileResponse {
    /// The profile when the status is `"ok"`, else the API error of the envelope.
    pub fn into_profile(self) -> (r: Result<Profile, FyersError>)
        ensures
            self.s@ == "ok"@ ==> r == Ok::<Profile, FyersError>(self.data),
            self.s@ != "ok"@ ==> r == Err::<Profile, FyersError>(
                FyersError::ApiError { s: self.s, code: self.code, message: self.message },
            ),
    {
        if is_ok_status(&self.s) {
            Ok(self.data)
        } else {
            Err(FyersError::ApiError { s: self.s, code: self.code, message: self.message })
        }
    }
}

} // verus!
