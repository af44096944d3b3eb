//! A system client that answers with fixed values, for frontends' tests.
use vstd::prelude::*;
use crate::system::{BackendStatus, SystemClient, SystemClientError};

verus! {

/// A system client whose answers are fixed at construction.
#[derive(Debug)]
pub struct MockSystemClient {
    status: Result<BackendStatus, SystemClientError>,
    disk_usage: Result<(String, String, u32), SystemClientError>,
}

impl MockSystemClient {
    /// The answer `status` gives.
    pub closed spec fn status_reply(&self) -> Result<BackendStatus, SystemClientError> {
        self.status
    }

    /// The answer `disk_usage` gives.
    pub closed spec fn disk_usage_reply(&self) -> Result<(String, String, u32), SystemClientError> {
        self.disk_usage
    }

    /// A client of a reachable daemon that reports `status` and `disk_usage`.
    pub fn connected(status: BackendStatus, disk_usage: (String, String, u32)) -> (r: Self)
        ensures
            r.status_reply() == Ok::<BackendStatus, SystemClientError>(status),
            r.disk_usage_reply() == Ok::<(String, String, u32), SystemClientError>(disk_usage),
    {
        MockSystemClient { status: Ok(status), disk_usage: Ok(disk_usage) }
    }

    /// A client whose daemon is unreachable: every answer is
    /// `SystemClientError::Unavailable(message)`.
    pub fn unavailable(message: &str) -> (r: Self)
        ensures
            r.status_reply() matches Err(SystemClientError::Unavailable(d)) && d@ == message@,
            r.disk_usage_reply() matches Err(SystemClientError::Unavailable(d)) && d@ == message@,
    {
        let detail = message.to_owned();
        let error = SystemClientError::Unavailable(detail);
        MockSystemClient { status: Err(error.duplicate()), disk_usage: Err(error) }
    }
}

impl Clone for MockSystemClient {
    fn clone(&self) -> (r: Self)
        ensures
            r == *self,
    {
        MockSystemClient { status: self.status(), disk_usage: self.disk_usage() }
    }
}

impl SystemClient for MockSystemClient {
    fn status(&self) -> (r: Result<BackendStatus, SystemClientError>)
        ensures
            r == self.status_reply(),
    {
        match &self.status {
            Ok(status) => Ok(status.duplicate()),
            Err(error) => Err(error.duplicate()),
        }
    }

    fn disk_usage(&self) -> (r: Result<(String, String, u32), SystemClientError>)
        ensures
            r == self.disk_usage_reply(),
    {
        match &self.disk_usage {
            Ok(usage) => Ok((usage.0.clone(), usage.1.clone(), usage.2)),
            Err(error) => Err(error.duplicate()),
        }
    }
}

} // verus!
