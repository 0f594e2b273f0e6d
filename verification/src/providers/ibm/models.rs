//! IBM Cloud Carbon Calculator data shapes: credentials, per-query
//! configuration, the native request parameters, and the native response.

use crate::models::MilliQuantity;
use vstd::prelude::*;
use vstd::string::StringExecFns;

verus! {

/// IBM grouping options for carbon emissions.
#[derive(Debug, Clone)]
pub enum IbmGroupBy {
    Month,
    Location,
    Service,
    Account,
}

impl IbmGroupBy {
    /// The wire name of the grouping option.
    pub open spec fn spec_str(self) -> Seq<char> {
        match self {
            IbmGroupBy::Month => "month"@,
            IbmGroupBy::Location => "location"@,
            IbmGroupBy::Service => "service"@,
            IbmGroupBy::Account => "account"@,
        }
    }

    /// The wire name of the grouping option.
    pub fn as_str(&self) -> (r: &'static str)
        ensures
            r@ == self.spec_str(),
    {
        match self {
            IbmGroupBy::Month => "month",
            IbmGroupBy::Location => "location",
            IbmGroupBy::Service => "service",
            IbmGroupBy::Account => "account",
        }
    }
}

impl Default for IbmGroupBy {
    /// Grouping defaults to by month.
    fn default() -> (r: Self)
        ensures
            r is Month,
    {
        IbmGroupBy::Month
    }
}

/// Credentials and account identity for the IBM Cloud provider.  The API key
/// authenticates; the enterprise identifier names which account the adapter
/// was configured for.
#[derive(Debug, Clone)]
pub struct IbmConfig {
    pub api_key: String,
    pub enterprise_id: String,
}

/// IBM query configuration for the Carbon Calculator API: the per-query
/// filter and pagination parameters, distinct from the credentials above.
#[derive(Debug, Clone)]
pub struct IbmQueryConfig {
    /// Mandatory enterprise ID for IBM Cloud.
    pub enterprise_id: String,
    /// Grouping option for results.
    pub group_by: Option<IbmGroupBy>,
    /// Enterprise account ID to filter; only applicable for enterprise
    /// accounts, not standard accounts.
    pub enterprise_account_id: Option<String>,
    /// Pagination limit.
    pub limit: Option<i32>,
    /// Pagination offset.
    pub offset: Option<i32>,
}

impl Default for IbmQueryConfig {
    /// An empty enterprise id (to be filled in), grouping by month, and no
    /// other filters.
    fn default() -> (r: Self)
        ensures
            r.enterprise_id@.len() == 0,
            r.group_by matches Some(g) && g is Month,
            r.enterprise_account_id is None,
            r.limit is None,
            r.offset is None,
    {
        IbmQueryConfig {
            enterprise_id: String::new(),
            group_by: Some(IbmGroupBy::Month),
            enterprise_account_id: None,
            limit: None,
            offset: None,
        }
    }
}

impl IbmQueryConfig {
    /// Validate that all mandatory fields are present: the enterprise id
    /// must be non-empty.  Returns the offending field's message otherwise.
    pub fn validate(&self) -> (r: Result<(), String>)
        ensures
            self.enterprise_id@.len() > 0 <==> r is Ok,
            r matches Err(m) ==> m@ == "enterprise_id is required and cannot be empty"@,
    {
        if self.enterprise_id.as_str().is_empty() {
            return Err(String::from_str("enterprise_id is required and cannot be empty"));
        }
        Ok(())
    }
}

/// IBM Carbon Calculator API query parameters, ready to be rendered into
/// the request URL.  Optional filters that are absent are omitted from the
/// outgoing request entirely.
#[derive(Debug, Clone)]
pub struct IbmCarbonEmissionRequest {
    pub enterprise_id: String,
    /// Date filtering, for example "gte:2023-01" and "lte:2023-03".
    pub month: Option<Vec<String>>,
    /// Location filtering, for example "Dallas" or "Frankfurt".
    pub locations: Option<Vec<String>>,
    /// Service filtering, for example "Cloud Object Storage".
    pub services: Option<Vec<String>>,
    /// Enterprise account ID filter, only for enterprise accounts.
    pub enterprise_account_id: Option<String>,
    /// Grouping: "month", "location", "service" or "account".
    pub group_by: Option<String>,
    /// Pagination limit.
    pub limit: Option<i32>,
    /// Pagination offset.
    pub offset: Option<i32>,
}

/// Month information in an IBM response element.
#[derive(Debug, Clone)]
pub struct IbmMonthInfo {
    pub value: String,
    pub min: Option<String>,
    pub max: Option<String>,
}

/// Grouping information in an IBM response element.
#[derive(Debug, Clone)]
pub struct IbmGroupByInfo {
    pub group_type: String,
    pub value: String,
}

/// One IBM carbon-emission data point.  The API reports carbon in grams of
/// CO2 equivalent and energy in watt-hours; both are held exactly, to
/// thousandths of those native units.
#[derive(Debug, Clone)]
pub struct IbmEmissionData {
    pub account_id: String,
    /// Carbon emissions in grams CO2e (normalization converts to kg).
    pub carbon_emission: MilliQuantity,
    /// Energy consumption in Wh (normalization converts to kWh).
    pub energy_consumption: MilliQuantity,
    pub month: IbmMonthInfo,
    pub group_by: Option<IbmGroupByInfo>,
    /// Present when results are grouped by location.
    pub location: Option<String>,
    /// Present when results are grouped by service.
    pub service: Option<String>,
}

/// A pagination link in an IBM response.
#[derive(Debug, Clone)]
pub struct IbmPaginationLink {
    pub href: String,
}

/// The IBM Carbon Calculator API response body.
#[derive(Debug, Clone)]
pub struct IbmCarbonEmissionResponse {
    pub carbon_emissions: Vec<IbmEmissionData>,
    /// Total emissions across all results, in grams CO2e.
    pub total_emission: Option<MilliQuantity>,
    pub offset: Option<i32>,
    pub limit: Option<i32>,
    pub total_count: Option<i64>,
    pub first: Option<IbmPaginationLink>,
    pub last: Option<IbmPaginationLink>,
    pub previous: Option<IbmPaginationLink>,
    pub next: Option<IbmPaginationLink>,
}

} // verus!
