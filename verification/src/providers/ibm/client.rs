//! The IBM Cloud provider adapter: it turns a unified query into the
//! Carbon Calculator API's native request, and normalizes the native
//! response into unified emission records.

use crate::calendar::{push_year_month, spec_parse_month_marker, spec_year_month};
use crate::error::CarbemError;
use crate::models::{
    CarbonEmission, EmissionMetadata, EmissionQuery, ProviderData, TimePeriod,
};
use crate::providers::config::ProviderQueryConfig;
use crate::providers::ibm::models::{
    IbmCarbonEmissionRequest, IbmCarbonEmissionResponse, IbmConfig, IbmEmissionData,
    IbmQueryConfig,
};
use crate::providers::CarbonProvider;
use crate::text::{
    clone_string_vec, join_strings, lemma_string_vec_views, lemma_views_push, push_decimal_i32,
    spec_decimal_int, spec_join, spec_url_encode, spec_views, str_equal, url_encode,
};
use vstd::prelude::*;
use vstd::string::StringExecFns;

verus! {

/// The IBM Cloud provider adapter.
#[derive(Debug, Clone)]
pub struct IbmProvider {
    pub config: IbmConfig,
}

impl IbmProvider {
    /// Construct an adapter around the given credentials.
    pub fn new(config: IbmConfig) -> (r: Result<IbmProvider, CarbemError>)
        ensures
            r matches Ok(p) && p.config == config,
    {
        Ok(IbmProvider { config })
    }

    /// The filters standing for a time period at the API's month
    /// granularity: the start month as a lower bound and the end month as an
    /// upper bound, both inclusive.
    pub open spec fn spec_month_filters(tp: TimePeriod) -> Seq<Seq<char>> {
        seq![
            "gte:"@ + spec_year_month(tp.start.year as int, tp.start.month as int),
            "lte:"@ + spec_year_month(tp.end.year as int, tp.end.month as int),
        ]
    }

    /// Render a time period as the API's month filters, `gte:YYYY-MM` and
    /// `lte:YYYY-MM`.  This deliberately widens sub-month ranges to whole
    /// months: the API filters at month granularity and the day and
    /// time-of-day components do not take part.
    pub fn build_month_filters(&self, time_period: &TimePeriod) -> (r: Vec<String>)
        ensures
            r.deep_view() == Self::spec_month_filters(*time_period),
    {
        let mut filters: Vec<String> = Vec::new();
        let mut gte = String::from_str("gte:");
        push_year_month(&mut gte, &time_period.start);
        filters.push(gte);
        let mut lte = String::from_str("lte:");
        push_year_month(&mut lte, &time_period.end);
        filters.push(lte);
        proof {
            assert(filters.deep_view() =~= Self::spec_month_filters(*time_period));
        }
        filters
    }

    /// The native request that a unified query and its IBM query
    /// configuration translate to: the configuration's enterprise id, the
    /// period's two month filters, the query's regions as locations and its
    /// services unchanged, and the configuration's remaining filters copied
    /// over.  Absent optional filters stay absent.
    pub open spec fn spec_request_matches(
        req: IbmCarbonEmissionRequest,
        q: EmissionQuery,
        c: IbmQueryConfig,
    ) -> bool {
        &&& req.enterprise_id@ == c.enterprise_id@
        &&& req.month.deep_view() == Some(Self::spec_month_filters(q.time_period))
        &&& req.locations.deep_view() == if q.regions@.len() == 0 {
            None
        } else {
            Some(q.regions.deep_view())
        }
        &&& req.services.deep_view() == q.services.deep_view()
        &&& req.enterprise_account_id.deep_view() == c.enterprise_account_id.deep_view()
        &&& req.group_by.deep_view() == match c.group_by {
            Some(g) => Some(g.spec_str()),
            None => None,
        }
        &&& req.limit == c.limit
        &&& req.offset == c.offset
    }

    /// Translate a unified query into the Carbon Calculator API's request
    /// parameters.  The query must carry IBM query configuration with a
    /// non-empty enterprise id; each missing piece is a configuration error
    /// naming it, raised before any network traffic could happen.
    pub fn convert_emission_query_to_ibm_request(&self, query: &EmissionQuery) -> (r: Result<
        IbmCarbonEmissionRequest,
        CarbemError,
    >)
        ensures
            query.provider_config is None ==> (r matches Err(e) && e.is_config_with(
                "provider_config with IBM configuration is required"@,
            )),
            query.provider_config matches Some(ProviderQueryConfig::Azure(_)) ==> (r matches Err(e)
                && e.is_config_with("provider_config must be IBM configuration for IBM provider"@)),
            query.provider_config matches Some(ProviderQueryConfig::Ibm(c)) ==> if c.enterprise_id@.len() == 0 {
                r matches Err(e) && e.is_config_with("enterprise_id is required and cannot be empty"@)
            } else {
                r matches Ok(req) && Self::spec_request_matches(req, *query, c)
            },
    {
        let ibm_config = match &query.provider_config {
            Some(ProviderQueryConfig::Ibm(config)) => config,
            Some(_) => {
                return Err(
                    CarbemError::Config(
                        String::from_str(
                            "provider_config must be IBM configuration for IBM provider",
                        ),
                    ),
                );
            },
            None => {
                return Err(
                    CarbemError::Config(
                        String::from_str("provider_config with IBM configuration is required"),
                    ),
                );
            },
        };
        match ibm_config.validate() {
            Ok(_) => {},
            Err(m) => {
                return Err(CarbemError::Config(m));
            },
        }
        let month_filters = self.build_month_filters(&query.time_period);
        proof {
            assert(month_filters.deep_view().len() == 2);
            assert(month_filters@.len() == 2);
        }
        let month = if month_filters.is_empty() {
            None
        } else {
            Some(month_filters)
        };
        let locations = if query.regions.is_empty() {
            None
        } else {
            Some(clone_string_vec(&query.regions))
        };
        let services = match &query.services {
            Some(s) => Some(clone_string_vec(s)),
            None => None,
        };
        let enterprise_account_id = match &ibm_config.enterprise_account_id {
            Some(a) => Some(a.clone()),
            None => None,
        };
        let group_by = match &ibm_config.group_by {
            Some(g) => Some(String::from_str(g.as_str())),
            None => None,
        };
        let req = IbmCarbonEmissionRequest {
            enterprise_id: ibm_config.enterprise_id.clone(),
            month,
            locations,
            services,
            enterprise_account_id,
            group_by,
            limit: ibm_config.limit,
            offset: ibm_config.offset,
        };
        proof {
            assert(req.month.deep_view() == Some(
                Self::spec_month_filters(query.time_period),
            ));
            if query.regions@.len() > 0 {
                assert(req.locations matches Some(l) && l.deep_view() =~= query.regions.deep_view());
            }
            match &query.services {
                Some(s) => {
                    assert(req.services matches Some(v) && v.deep_view() =~= s.deep_view());
                },
                None => {},
            }
        }
        Ok(req)
    }

    /// Render the request as the full endpoint URL: the Carbon Calculator
    /// endpoint followed by one query parameter per present filter, each
    /// value percent-encoded (the grouping name needs no encoding), region
    /// and service lists joined by a comma and a space before encoding, and
    /// absent optional filters omitted entirely.
    pub fn build_endpoint_url(&self, request: &IbmCarbonEmissionRequest) -> (r: String)
        ensures
            r@ == spec_endpoint_url(*request),
    {
        let ghost seg_enterprise = seq![
            "enterprise_id="@ + spec_url_encode(request.enterprise_id@),
        ];
        let ghost seg_months = match &request.month {
            Some(ms) => spec_month_params(ms.deep_view()),
            None => Seq::<Seq<char>>::empty(),
        };
        let ghost seg_locations = match &request.locations {
            Some(ls) => seq![
                "locations="@ + spec_url_encode(spec_join(ls.deep_view(), ", "@)),
            ],
            None => Seq::<Seq<char>>::empty(),
        };
        let ghost seg_services = match &request.services {
            Some(ss) => seq![
                "services="@ + spec_url_encode(spec_join(ss.deep_view(), ", "@)),
            ],
            None => Seq::<Seq<char>>::empty(),
        };
        let ghost seg_account = match &request.enterprise_account_id {
            Some(a) => seq!["enterprise_account_id="@ + spec_url_encode(a@)],
            None => Seq::<Seq<char>>::empty(),
        };
        let ghost seg_group = match &request.group_by {
            Some(g) => seq!["group_by="@ + g@],
            None => Seq::<Seq<char>>::empty(),
        };
        let ghost seg_limit = match request.limit {
            Some(l) => seq!["limit="@ + spec_decimal_int(l as int)],
            None => Seq::<Seq<char>>::empty(),
        };
        let ghost seg_offset = match request.offset {
            Some(o) => seq!["offset="@ + spec_decimal_int(o as int)],
            None => Seq::<Seq<char>>::empty(),
        };

        let mut query_params: Vec<String> = Vec::new();

        let mut param = String::from_str("enterprise_id=");
        param.append(url_encode(request.enterprise_id.as_str()).as_str());
        proof {
            lemma_views_push(query_params@, param);
        }
        query_params.push(param);
        proof {
            assert(spec_views(query_params@) =~= seg_enterprise);
        }

        if let Some(months) = &request.month {
            let n = months.len();
            let mut i: usize = 0;
            while i < n
                invariant
                    i <= n,
                    n == months@.len(),
                    spec_views(query_params@) == seg_enterprise + spec_month_params(
                        months.deep_view().take(i as int),
                    ),
                decreases n - i,
            {
                let mut mparam = String::from_str("month=");
                mparam.append(url_encode(months[i].as_str()).as_str());
                proof {
                    lemma_views_push(query_params@, mparam);
                }
                query_params.push(mparam);
                proof {
                    let dv = months.deep_view();
                    assert(dv[i as int] == months@[i as int]@);
                    lemma_month_params_push(dv.take(i as int), dv[i as int]);
                    assert(dv.take(i as int).push(dv[i as int]) =~= dv.take(i as int + 1));
                    assert(spec_views(query_params@) =~= seg_enterprise + spec_month_params(
                        dv.take(i as int + 1),
                    ));
                }
                i = i + 1;
            }
            proof {
                assert(months.deep_view().take(n as int) =~= months.deep_view());
            }
        }
        proof {
            assert(spec_views(query_params@) =~= seg_enterprise + seg_months);
        }

        if let Some(locations) = &request.locations {
            let joined = join_strings(locations, ", ");
            let mut lparam = String::from_str("locations=");
            lparam.append(url_encode(joined.as_str()).as_str());
            proof {
                lemma_views_push(query_params@, lparam);
            }
            query_params.push(lparam);
        }
        proof {
            assert(spec_views(query_params@) =~= seg_enterprise + seg_months + seg_locations);
        }

        if let Some(services) = &request.services {
            let joined = join_strings(services, ", ");
            let mut sparam = String::from_str("services=");
            sparam.append(url_encode(joined.as_str()).as_str());
            proof {
                lemma_views_push(query_params@, sparam);
            }
            query_params.push(sparam);
        }
        proof {
            assert(spec_views(query_params@) =~= seg_enterprise + seg_months + seg_locations
                + seg_services);
        }

        if let Some(enterprise_account_id) = &request.enterprise_account_id {
            let mut aparam = String::from_str("enterprise_account_id=");
            aparam.append(url_encode(enterprise_account_id.as_str()).as_str());
            proof {
                lemma_views_push(query_params@, aparam);
            }
            query_params.push(aparam);
        }
        proof {
            assert(spec_views(query_params@) =~= seg_enterprise + seg_months + seg_locations
                + seg_services + seg_account);
        }

        if let Some(group_by) = &request.group_by {
            let mut gparam = String::from_str("group_by=");
            gparam.append(group_by.as_str());
            proof {
                lemma_views_push(query_params@, gparam);
            }
            query_params.push(gparam);
        }
        proof {
            assert(spec_views(query_params@) =~= seg_enterprise + seg_months + seg_locations
                + seg_services + seg_account + seg_group);
        }

        if let Some(limit) = &request.limit {
            let mut lparam = String::from_str("limit=");
            push_decimal_i32(&mut lparam, *limit);
            proof {
                lemma_views_push(query_params@, lparam);
            }
            query_params.push(lparam);
        }
        proof {
            assert(spec_views(query_params@) =~= seg_enterprise + seg_months + seg_locations
                + seg_services + seg_account + seg_group + seg_limit);
        }

        if let Some(offset) = &request.offset {
            let mut oparam = String::from_str("offset=");
            push_decimal_i32(&mut oparam, *offset);
            proof {
                lemma_views_push(query_params@, oparam);
            }
            query_params.push(oparam);
        }
        proof {
            assert(spec_views(query_params@) =~= seg_enterprise + seg_months + seg_locations
                + seg_services + seg_account + seg_group + seg_limit + seg_offset);
            lemma_string_vec_views(&query_params);
            assert(query_params.deep_view() == spec_query_params(*request));
        }

        let joined_params = join_strings(&query_params, "&");
        let mut url = String::from_str("https://api.carbon-calculator.cloud.ibm.com");
        url.append("/");
        url.append("v1");
        url.append("/carbon_emissions");
        url.append("?");
        url.append(joined_params.as_str());
        url
    }

    /// The authorization header value for the stored credential: the API
    /// key as a bearer token.
    pub fn authorization_value(&self) -> (r: String)
        ensures
            r@ == "Bearer "@ + self.config.api_key@,
    {
        let mut value = String::from_str("Bearer ");
        value.append(self.config.api_key.as_str());
        value
    }

    /// Normalize one native data point into a unified emission record.  The
    /// native grams become kilograms and the native watt-hours become
    /// kilowatt-hours, both exactly; the region falls back from the explicit
    /// location through a location grouping to "unknown"; the service falls
    /// back through a service grouping and is otherwise absent; the record's
    /// own month marker, not the query's period, sets its time span; and the
    /// account id and raw grouping are preserved under provider data.
    pub fn convert_to_carbon_emission(
        &self,
        data: &IbmEmissionData,
        query_time_period: &TimePeriod,
    ) -> (r: CarbonEmission)
        ensures
            spec_is_normalized(r, *data, *query_time_period),
    {
        let emission_time_period = match self.parse_month_to_time_period(
            data.month.value.as_str(),
        ) {
            Some(p) => p,
            None => *query_time_period,
        };

        let mut entries: Vec<(String, String)> = Vec::new();
        entries.push((String::from_str("account_id"), data.account_id.clone()));
        if let Some(group_by) = &data.group_by {
            entries.push((String::from_str("group_by_type"), group_by.group_type.clone()));
            entries.push((String::from_str("group_by_value"), group_by.value.clone()));
        }
        proof {
            assert forall|k: int|
                0 <= k < entries@.len() implies entries.deep_view()[k] == spec_provider_entries(
                *data,
            )[k] by {
                assert(entries.deep_view()[k] == entries@[k].deep_view());
            }
            assert(entries.deep_view() =~= spec_provider_entries(*data));
        }

        let region = match &data.location {
            Some(l) => l.clone(),
            None => match &data.group_by {
                Some(g) => if str_equal(g.group_type.as_str(), "location") {
                    g.value.clone()
                } else {
                    String::from_str("unknown")
                },
                None => String::from_str("unknown"),
            },
        };

        let service = match &data.service {
            Some(s) => Some(s.clone()),
            None => match &data.group_by {
                Some(g) => if str_equal(g.group_type.as_str(), "service") {
                    Some(g.value.clone())
                } else {
                    None
                },
                None => None,
            },
        };

        CarbonEmission {
            provider: String::from_str("ibm"),
            region,
            service,
            emissions_kg_co2eq: data.carbon_emission.divided_by_thousand(),
            time_period: emission_time_period,
            metadata: Some(
                EmissionMetadata {
                    energy_kwh: Some(data.energy_consumption.divided_by_thousand()),
                    grid_carbon_intensity: None,
                    renewable_percentage: None,
                    provider_data: Some(ProviderData { entries }),
                },
            ),
        }
    }

    /// Normalize a whole native response: one unified record per native
    /// data point, in order.
    pub fn normalize_response(
        &self,
        response: &IbmCarbonEmissionResponse,
        query_time_period: &TimePeriod,
    ) -> (r: Vec<CarbonEmission>)
        ensures
            r@.len() == response.carbon_emissions@.len(),
            forall|i: int|
                0 <= i < r@.len() ==> spec_is_normalized(
                    r@[i],
                    response.carbon_emissions@[i],
                    *query_time_period,
                ),
    {
        let mut emissions: Vec<CarbonEmission> = Vec::new();
        let n = response.carbon_emissions.len();
        let mut i: usize = 0;
        while i < n
            invariant
                i <= n,
                n == response.carbon_emissions@.len(),
                emissions@.len() == i,
                forall|k: int|
                    0 <= k < i ==> spec_is_normalized(
                        emissions@[k],
                        response.carbon_emissions@[k],
                        *query_time_period,
                    ),
            decreases n - i,
        {
            emissions.push(
                self.convert_to_carbon_emission(&response.carbon_emissions[i], query_time_period),
            );
            i = i + 1;
        }
        emissions
    }

    /// Parse the API's native month marker `YYYY-MM` into the span of that
    /// calendar month, from the first day at midnight to the last day
    /// (leap years accounted for) at 23:59:59.  A record's own marker, not
    /// the query's time period, names the months the record covers.
    pub fn parse_month_to_time_period(&self, month: &str) -> (r: Option<TimePeriod>)
        ensures
            r == spec_parse_month_marker(month@),
    {
        crate::calendar::month_marker_period(month)
    }
}

/// One `month=` query parameter per month filter, in order.
pub open spec fn spec_month_params(ms: Seq<Seq<char>>) -> Seq<Seq<char>>
    decreases ms.len(),
{
    if ms.len() == 0 {
        Seq::empty()
    } else {
        seq!["month="@ + spec_url_encode(ms[0])] + spec_month_params(ms.drop_first())
    }
}

/// One more month filter appends one more `month=` parameter.
pub proof fn lemma_month_params_push(ms: Seq<Seq<char>>, x: Seq<char>)
    ensures
        spec_month_params(ms.push(x)) == spec_month_params(ms) + seq![
            "month="@ + spec_url_encode(x),
        ],
    decreases ms.len(),
{
    if ms.len() == 0 {
        assert(ms.push(x)[0] == x);
        assert(ms.push(x).drop_first() =~= ms);
        assert(spec_month_params(ms.push(x)) =~= spec_month_params(ms) + seq![
            "month="@ + spec_url_encode(x),
        ]);
    } else {
        lemma_month_params_push(ms.drop_first(), x);
        assert(ms.push(x)[0] == ms[0]);
        assert(ms.push(x).drop_first() =~= ms.drop_first().push(x));
        assert(seq!["month="@ + spec_url_encode(ms[0])] + (spec_month_params(ms.drop_first())
            + seq!["month="@ + spec_url_encode(x)]) =~= (seq![
            "month="@ + spec_url_encode(ms[0]),
        ] + spec_month_params(ms.drop_first())) + seq!["month="@ + spec_url_encode(x)]);
    }
}

/// The query parameters a request renders to, in order: the enterprise id,
/// one `month=` filter per month bound, the joined location and service
/// lists, the optional account filter, the grouping, and the pagination
/// bounds.  Every parameter of an absent filter is absent.
pub open spec fn spec_query_params(req: IbmCarbonEmissionRequest) -> Seq<Seq<char>> {
    let enterprise = seq!["enterprise_id="@ + spec_url_encode(req.enterprise_id@)];
    let months = match req.month {
        Some(ms) => spec_month_params(ms.deep_view()),
        None => Seq::<Seq<char>>::empty(),
    };
    let locations = match req.locations {
        Some(ls) => seq!["locations="@ + spec_url_encode(spec_join(ls.deep_view(), ", "@))],
        None => Seq::<Seq<char>>::empty(),
    };
    let services = match req.services {
        Some(ss) => seq!["services="@ + spec_url_encode(spec_join(ss.deep_view(), ", "@))],
        None => Seq::<Seq<char>>::empty(),
    };
    let account = match req.enterprise_account_id {
        Some(a) => seq!["enterprise_account_id="@ + spec_url_encode(a@)],
        None => Seq::<Seq<char>>::empty(),
    };
    let group = match req.group_by {
        Some(g) => seq!["group_by="@ + g@],
        None => Seq::<Seq<char>>::empty(),
    };
    let limit = match req.limit {
        Some(l) => seq!["limit="@ + spec_decimal_int(l as int)],
        None => Seq::<Seq<char>>::empty(),
    };
    let offset = match req.offset {
        Some(o) => seq!["offset="@ + spec_decimal_int(o as int)],
        None => Seq::<Seq<char>>::empty(),
    };
    enterprise + months + locations + services + account + group + limit + offset
}

/// The full endpoint URL of a request: the Carbon Calculator emissions
/// endpoint, a question mark, and the query parameters joined by ampersands.
pub open spec fn spec_endpoint_url(req: IbmCarbonEmissionRequest) -> Seq<char> {
    "https://api.carbon-calculator.cloud.ibm.com"@ + "/"@ + "v1"@ + "/carbon_emissions"@ + "?"@
        + spec_join(spec_query_params(req), "&"@)
}

/// The region a native data point normalizes to: its explicit location
/// field when present, else the value of a grouping of type "location",
/// else the literal "unknown".
pub open spec fn spec_region_of(d: IbmEmissionData) -> Seq<char> {
    match d.location {
        Some(l) => l@,
        None => match d.group_by {
            Some(g) => if g.group_type@ == "location"@ {
                g.value@
            } else {
                "unknown"@
            },
            None => "unknown"@,
        },
    }
}

/// The service a native data point normalizes to: its explicit service
/// field when present, else the value of a grouping of type "service", else
/// absent (never a placeholder string).
pub open spec fn spec_service_of(d: IbmEmissionData) -> Option<Seq<char>> {
    match d.service {
        Some(s) => Some(s@),
        None => match d.group_by {
            Some(g) => if g.group_type@ == "service"@ {
                Some(g.value@)
            } else {
                None
            },
            None => None,
        },
    }
}

/// The native fields preserved losslessly under provider data: the account
/// id, and the raw grouping dimension and value when the point carries one.
pub open spec fn spec_provider_entries(d: IbmEmissionData) -> Seq<(Seq<char>, Seq<char>)> {
    seq![("account_id"@, d.account_id@)] + match d.group_by {
        Some(g) => seq![("group_by_type"@, g.group_type@), ("group_by_value"@, g.value@)],
        None => Seq::<(Seq<char>, Seq<char>)>::empty(),
    }
}

/// The time span a normalized record carries: the calendar-month span its
/// own month marker names, or the query's period when the marker does not
/// parse.
pub open spec fn spec_emission_period(d: IbmEmissionData, query_tp: TimePeriod) -> TimePeriod {
    match spec_parse_month_marker(d.month.value@) {
        Some(p) => p,
        None => query_tp,
    }
}

/// What normalization promises of each record produced from a native data
/// point: the provider tag, the region and service fallbacks, exact unit
/// conversion held as equal fixed-point counts (n thousandths of a gram are
/// n millionths of a kilogram, and likewise for watt-hours), the span of
/// the point's own month marker, and the preserved provider data.
pub open spec fn spec_is_normalized(
    e: CarbonEmission,
    d: IbmEmissionData,
    query_tp: TimePeriod,
) -> bool {
    &&& e.provider@ == "ibm"@
    &&& e.region@ == spec_region_of(d)
    &&& e.service.deep_view() == spec_service_of(d)
    &&& e.emissions_kg_co2eq.millionths == d.carbon_emission.thousandths
    &&& e.time_period == spec_emission_period(d, query_tp)
    &&& e.metadata matches Some(m) && {
        &&& m.energy_kwh matches Some(en) && en.millionths == d.energy_consumption.thousandths
        &&& m.grid_carbon_intensity is None
        &&& m.renewable_percentage is None
        &&& m.provider_data matches Some(pd) && pd.entries.deep_view() == spec_provider_entries(d)
    }
}

/// The region fallback chain, spelled out: an explicit location always
/// wins; with no explicit location, a grouping of type "location" supplies
/// the region; with neither, the region is the literal "unknown".
pub proof fn lemma_region_fallback(d: IbmEmissionData)
    ensures
        d.location matches Some(l) ==> spec_region_of(d) == l@,
        d.location is None ==> match d.group_by {
            Some(g) => spec_region_of(d) == if g.group_type@ == "location"@ {
                g.value@
            } else {
                "unknown"@
            },
            None => spec_region_of(d) == "unknown"@,
        },
{
}

/// Unit conversion is exact and linear: in every normalized record, the
/// kilograms of CO2 equivalent are the native grams divided by exactly
/// 1000, and the kilowatt-hours are the native watt-hours divided by
/// exactly 1000, both stated over the values scaled to millionths of a
/// unit.
pub proof fn lemma_unit_conversion_exact(
    e: CarbonEmission,
    d: IbmEmissionData,
    query_tp: TimePeriod,
)
    requires
        spec_is_normalized(e, d, query_tp),
    ensures
        1000 * e.emissions_kg_co2eq.spec_millionths() == d.carbon_emission.spec_millionths(),
        e.metadata matches Some(m) && m.energy_kwh matches Some(en) && 1000
            * en.spec_millionths() == d.energy_consumption.spec_millionths(),
{
}

/// The month filters a time period generates depend only on the year and
/// month of its two bounds: two periods agreeing there generate equal
/// filters, whatever their day and time-of-day components.
pub proof fn lemma_month_filters_ignore_days(a: TimePeriod, b: TimePeriod)
    requires
        a.start.year == b.start.year,
        a.start.month == b.start.month,
        a.end.year == b.end.year,
        a.end.month == b.end.month,
    ensures
        IbmProvider::spec_month_filters(a) == IbmProvider::spec_month_filters(b),
{
}

impl CarbonProvider for IbmProvider {
    open spec fn spec_name(&self) -> Seq<char> {
        "ibm"@
    }

    open spec fn spec_is_configured(&self) -> bool {
        self.config.api_key@.len() > 0
    }

    fn name(&self) -> (r: &'static str) {
        "ibm"
    }

    fn is_configured(&self) -> (r: bool) {
        !self.config.api_key.as_str().is_empty()
    }
}

impl IbmProvider {
    /// A duplicate adapter holding equal credentials.
    pub fn clone_provider(&self) -> (r: crate::providers::Provider)
        ensures
            r matches crate::providers::Provider::Ibm(p) && p.config.api_key@
                == self.config.api_key@ && p.config.enterprise_id@ == self.config.enterprise_id@,
    {
        crate::providers::Provider::Ibm(
            IbmProvider {
                config: IbmConfig {
                    api_key: self.config.api_key.clone(),
                    enterprise_id: self.config.enterprise_id.clone(),
                },
            },
        )
    }
}

} // verus!
