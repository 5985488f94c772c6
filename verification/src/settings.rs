use vstd::prelude::*;

verus! {

/// Configuration snapshot read by the monitor loop and the command surface.
/// Always replaced wholesale, never updated field by field.
#[derive(Debug)]
pub struct Settings {
    pub api_endpoint: String,
    pub username: String,
    pub device_name: String,
    pub idle_timeout_mins: u64,
    pub auto_mode: bool,
    pub developer_mode: bool,
}

/// Relies on whoami::username: the login name of the current user, read from
/// the environment. Nothing is promised of its value.
#[verifier::external_body]
fn os_username() -> (r: String) {
    whoami::username()
}

/// Relies on whoami::fallible::hostname: the machine's hostname, or `None`
/// where the platform cannot report one. Nothing is promised of its value.
#[verifier::external_body]
fn os_hostname() -> (r: Option<String>) {
    whoami::fallible::hostname().ok()
}

/// What `Settings::default` guarantees aside from the OS-derived identity
/// fields: the endpoint placeholder, a 10-minute idle timeout, automatic mode
/// on and developer mode off.
pub open spec fn default_config(s: Settings) -> bool {
    &&& s.api_endpoint@ == "https://example.com/attendance"@
    &&& s.idle_timeout_mins == 10
    &&& s.auto_mode
    &&& !s.developer_mode
}

impl Default for Settings {
    fn default() -> (r: Self)
        ensures
            default_config(r),
    {
        let device_name = match os_hostname() {
            Some(h) => h,
            None => "unknown".to_owned(),
        };
        Settings {
            api_endpoint: "https://example.com/attendance".to_owned(),
            username: os_username(),
            device_name,
            idle_timeout_mins: 10,
            auto_mode: true,
            developer_mode: false,
        }
    }
}

impl Clone for Settings {
    fn clone(&self) -> (r: Self)
        ensures
            r == *self,
    {
        Settings {
            api_endpoint: self.api_endpoint.clone(),
            username: self.username.clone(),
            device_name: self.device_name.clone(),
            idle_timeout_mins: self.idle_timeout_mins,
            auto_mode: self.auto_mode,
            developer_mode: self.developer_mode,
        }
    }
}

/// A settings record read back from the persistence collaborator, or the
/// defaults where no record exists or it could not be read.
pub fn settings_or_default(loaded: Option<Settings>) -> (r: Settings)
    ensures
        loaded matches Some(s) ==> r == s,
        loaded is None ==> default_config(r),
{
    match loaded {
        Some(s) => s,
        None => Settings::default(),
    }
}

} // verus!
