//! The remote monitor: which address each notification goes to.
use vstd::prelude::*;
use vstd::string::*;
use crate::identifier::{Uuid, valid_token, base_url_of};

verus! {

/// Which of the two terminal notifications a report is sent as.
#[derive(Clone, Copy, Debug, PartialEq, Eq, Structural)]
pub enum Endpoint {
    Success,
    Failure,
}

/// Why no monitor could be set up.
#[derive(Clone, Copy, Debug, PartialEq, Eq, Structural)]
pub enum ConfigError {
    /// No identifier was given.
    MissingId,
    /// The identifier given is not canonical.
    InvalidId,
}

/// Exit code for a configuration error, before any notification is sent.
pub const CONFIG_ERROR_EXIT: i32 = 1;

/// The monitor named by `id`, the identifier text if one was given.
pub fn monitor_for(id: Option<&str>) -> (r: Result<HealthCheck, ConfigError>)
    ensures
        id is None ==> r == Err::<HealthCheck, ConfigError>(ConfigError::MissingId),
        id matches Some(s) ==> (valid_token(s@) <==> r is Ok),
        id matches Some(s) ==> (!valid_token(s@) ==> r == Err::<HealthCheck, ConfigError>(
            ConfigError::InvalidId,
        )),
        r matches Ok(h) ==> id matches Some(s) && h@ == s@,
{
    match id {
        None => Err(ConfigError::MissingId),
        Some(s) => match HealthCheck::from_str(s) {
            Some(h) => Ok(h),
            None => Err(ConfigError::InvalidId),
        },
    }
}

/// A monitor, named by its identifier.
pub struct HealthCheck(Uuid);

impl View for HealthCheck {
    type V = Seq<char>;

    closed spec fn view(&self) -> Seq<char> {
        self.0@
    }
}

impl Clone for HealthCheck {
    fn clone(&self) -> (r: Self)
        ensures
            r@ == self@,
    {
        HealthCheck(self.0.clone())
    }
}

impl HealthCheck {
    /// A monitor for `s`, when `s` is a canonical identifier.
    pub fn from_str(s: &str) -> (r: Option<Self>)
        ensures
            r.is_some() == valid_token(s@),
            r matches Some(h) ==> h@ == s@,
    {
        match Uuid::from_str(s) {
            Some(u) => Some(HealthCheck(u)),
            None => None,
        }
    }

    /// The address under which all of this monitor's pings live.
    pub fn base_url(&self) -> (r: String)
        ensures
            r@ == base_url_of(self@),
    {
        let mut url = "https://hc-ping.com/".to_owned();
        url.append(self.0.as_str());
        url
    }

    /// The address of the start notification.
    pub fn start_url(&self) -> (r: String)
        ensures
            r@ == base_url_of(self@) + "/start"@,
    {
        let mut url = self.base_url();
        url.append("/start");
        url
    }

    /// The address of the success notification.
    pub fn finish_url(&self) -> (r: String)
        ensures
            r@ == base_url_of(self@),
    {
        self.base_url()
    }

    /// The address of the failure notification.
    pub fn fail_url(&self) -> (r: String)
        ensures
            r@ == base_url_of(self@) + "/fail"@,
    {
        let mut url = self.base_url();
        url.append("/fail");
        url
    }

    /// The address a terminal report is sent to.
    pub fn report_url(&self, endpoint: Endpoint) -> (r: String)
        ensures
            endpoint == Endpoint::Success ==> r@ == base_url_of(self@),
            endpoint == Endpoint::Failure ==> r@ == base_url_of(self@) + "/fail"@,
    {
        match endpoint {
            Endpoint::Success => self.finish_url(),
            Endpoint::Failure => self.fail_url(),
        }
    }
}

} // verus!
