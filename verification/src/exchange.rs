//! Exchange status and schedule: result types and request builders.

use vstd::prelude::*;
use vstd::string::StringExecFns;
use crate::Kalshi;
use crate::request::{ApiRequest, HttpMethod};

verus! {

/// Whether trading and the exchange itself are currently active.
#[derive(Debug)]
pub struct ExchangeStatus {
    /// Trading is currently possible.
    pub trading_active: bool,
    /// The exchange itself is up.
    pub exchange_active: bool,
}

/// The opening and closing times of the exchange for a single day.
#[derive(Debug)]
pub struct DaySchedule {
    /// When the exchange opens.
    pub open_time: String,
    /// When the exchange closes.
    pub close_time: String,
}

/// The daily schedule for each day of the week.
#[derive(Debug)]
pub struct StandardHours {
    pub monday: DaySchedule,
    pub tuesday: DaySchedule,
    pub wednesday: DaySchedule,
    pub thursday: DaySchedule,
    pub friday: DaySchedule,
    pub saturday: DaySchedule,
    pub sunday: DaySchedule,
}

/// The standard trading hours and maintenance windows of the exchange.
#[derive(Debug)]
pub struct ExchangeScheduleStandard {
    /// The regular weekly hours.
    pub standard_hours: StandardHours,
    /// Announced maintenance windows.
    pub maintenance_windows: Vec<String>,
}

impl Kalshi {
    /// Builds the request for the current exchange status: a public GET of
    /// `/exchange/status`.
    pub fn exchange_status_request(&self) -> (r: ApiRequest)
        ensures
            r.method == HttpMethod::Get,
            r.url@ == self.base_url@ + "/exchange/status"@,
            r.bearer is None,
    {
        ApiRequest {
            method: HttpMethod::Get,
            url: self.base_url.clone().concat("/exchange/status"),
            bearer: None,
        }
    }

    /// Builds the request for the exchange schedule: a public GET of
    /// `/exchange/schedule`.
    pub fn exchange_schedule_request(&self) -> (r: ApiRequest)
        ensures
            r.method == HttpMethod::Get,
            r.url@ == self.base_url@ + "/exchange/schedule"@,
            r.bearer is None,
    {
        ApiRequest {
            method: HttpMethod::Get,
            url: self.base_url.clone().concat("/exchange/schedule"),
            bearer: None,
        }
    }
}

} // verus!
