//! The computational core of the storage-server API client: the call
//! description a request is built from, the server's endpoint table, the
//! envelope every response arrives in, and the errors the service reports.
//!
//! Sending requests and decoding bytes stay outside; this module decides
//! what to send — the exact request line for a call — and what a decoded
//! response envelope means.

use vstd::prelude::*;
use crate::dispatch::HandlerError;
use crate::schema::opt_string_view;
use crate::text::dec_digits;
use crate::text::u32_to_string;

verus! {

/// One query parameter of an API call.
#[derive(Debug)]
pub struct QueryParam {
    pub key: String,
    pub value: String,
}

/// Ghost model of a query parameter.
pub ghost struct QueryParamModel {
    pub key: Seq<char>,
    pub value: Seq<char>,
}

impl View for QueryParam {
    type V = QueryParamModel;

    open spec fn view(&self) -> QueryParamModel {
        QueryParamModel { key: self.key@, value: self.value@ }
    }
}

pub open spec fn params_model(s: Seq<QueryParam>) -> Seq<QueryParamModel> {
    s.map_values(|p: QueryParam| p@)
}

/// One API endpoint the server offers: its name, the version range it
/// supports, and the path requests go to.
#[derive(Debug)]
pub struct ApiEndpoint {
    pub name: String,
    pub min_version: u32,
    pub max_version: u32,
    pub path: String,
    pub request_format: Option<String>,
}

/// Ghost model of an endpoint.
pub ghost struct EndpointModel {
    pub name: Seq<char>,
    pub min_version: u32,
    pub max_version: u32,
    pub path: Seq<char>,
    pub request_format: Option<Seq<char>>,
}

impl View for ApiEndpoint {
    type V = EndpointModel;

    open spec fn view(&self) -> EndpointModel {
        EndpointModel {
            name: self.name@,
            min_version: self.min_version,
            max_version: self.max_version,
            path: self.path@,
            request_format: opt_string_view(self.request_format),
        }
    }
}

pub open spec fn endpoints_model(s: Seq<ApiEndpoint>) -> Seq<EndpointModel> {
    s.map_values(|e: ApiEndpoint| e@)
}

/// An authenticated session: the identifier the login call returns.
#[derive(Debug)]
pub struct Session {
    pub sid: String,
}

/// A user of the service.
#[derive(Debug)]
pub struct User {
    pub display_name: String,
    pub uid: usize,
}

/// The server a client talks to: its domain name, the endpoint table
/// fetched from it, and the session identifier once logged in.
#[derive(Debug)]
pub struct Server {
    pub name: String,
    pub endpoints: Vec<ApiEndpoint>,
    pub session_id: Option<String>,
}

/// Ghost model of a server.
pub ghost struct ServerModel {
    pub name: Seq<char>,
    pub endpoints: Seq<EndpointModel>,
    pub session_id: Option<Seq<char>>,
}

impl View for Server {
    type V = ServerModel;

    open spec fn view(&self) -> ServerModel {
        ServerModel {
            name: self.name@,
            endpoints: endpoints_model(self.endpoints@),
            session_id: opt_string_view(self.session_id),
        }
    }
}

/// An error the service reports, or one found while building a call.
#[derive(Clone, Debug, PartialEq, Eq)]
pub enum SynError {
    /// The service's generic failure code.
    Unknown,
    /// Any other failure code the service reports.
    MiscApiError { code: u32 },
    /// The server's endpoint table has no endpoint of that name.
    UnknownEndpoint,
    /// The requested version is outside the endpoint's supported range.
    VersionOutOfRange,
}

impl SynError {
    /// The error a service failure code means: code 100 is the service's
    /// generic failure, every other code is carried through.
    pub fn from_api_error_code(code: u32) -> (r: SynError)
        ensures
            r == api_error_of(code),
    {
        if code == 100 {
            SynError::Unknown
        } else {
            SynError::MiscApiError { code }
        }
    }
}

/// The error a service failure code means.
pub open spec fn api_error_of(code: u32) -> SynError {
    if code == 100 {
        SynError::Unknown
    } else {
        SynError::MiscApiError { code }
    }
}

/// A failure code in a response envelope.
#[derive(Debug)]
pub struct ErrorCode {
    pub code: u32,
}

/// A response body: the data on success, or a failure code.
#[derive(Debug)]
pub enum SynResult<T> {
    Success { data: T },
    Error { error: ErrorCode },
}

/// The envelope every response arrives in.
#[derive(Debug)]
pub struct SynResponse<T> {
    pub data: SynResult<T>,
    pub success: bool,
}

impl<T> SynResponse<T> {
    /// What the envelope means: the data on success, the failure code's
    /// error otherwise.
    pub fn into_result(self) -> (r: Result<T, SynError>)
        ensures
            match self.data {
                SynResult::Success { data } => r == Result::<T, SynError>::Ok(data),
                SynResult::Error { error } => r == Result::<T, SynError>::Err(
                    api_error_of(error.code),
                ),
            },
    {
        match self.data {
            SynResult::Success { data } => Result::Ok(data),
            SynResult::Error { error } => Result::Err(SynError::from_api_error_code(error.code)),
        }
    }
}

/// Anything that can stand where a list of query parameters is expected.
pub trait IntoParameters {
    fn into_parameters(self) -> Vec<QueryParam>;
}

impl IntoParameters for Vec<QueryParam> {
    fn into_parameters(self) -> (r: Vec<QueryParam>)
        ensures
            r == self,
    {
        self
    }
}

/// One API call, fully decided: the endpoint it addresses, the path it
/// goes to, the version it asks for, and its query parameters in order.
#[derive(Debug)]
pub struct ApiCall {
    pub endpoint: String,
    pub path: String,
    pub version: String,
    pub parameters: Vec<QueryParam>,
}

/// Ghost model of an API call.
pub ghost struct ApiCallModel {
    pub endpoint: Seq<char>,
    pub path: Seq<char>,
    pub version: Seq<char>,
    pub parameters: Seq<QueryParamModel>,
}

impl View for ApiCall {
    type V = ApiCallModel;

    open spec fn view(&self) -> ApiCallModel {
        ApiCallModel {
            endpoint: self.endpoint@,
            path: self.path@,
            version: self.version@,
            parameters: params_model(self.parameters@),
        }
    }
}

/// The query-string tail the first `n` parameters add to a request line:
/// `&key=value` for each, in order.
pub open spec fn params_query(ps: Seq<QueryParamModel>, n: int) -> Seq<char>
    decreases n,
{
    if n <= 0 {
        Seq::empty()
    } else {
        params_query(ps, n - 1) + "&"@ + ps[n - 1].key + "="@ + ps[n - 1].value
    }
}

/// The full request line of a call against a server.
pub open spec fn uri_chars(c: ApiCallModel, server_name: Seq<char>) -> Seq<char> {
    "https://"@ + server_name + "/webapi/"@ + c.path + "?api="@ + c.endpoint + "&version="@
        + c.version + params_query(c.parameters, c.parameters.len() as int)
}

impl ApiCall {
    /// The endpoint-discovery call: asks the server's information
    /// endpoint which endpoints it offers.
    pub fn query() -> (r: ApiCall)
        ensures
            r@.endpoint == "SYNO.API.Info"@,
            r@.path == "entry.cgi"@,
            r@.version == "1"@,
            r@.parameters =~= seq![
                QueryParamModel { key: "method"@, value: "query"@ },
            ],
    {
        let mut parameters: Vec<QueryParam> = Vec::new();
        parameters.push(QueryParam { key: "method".to_owned(), value: "query".to_owned() });
        ApiCall {
            endpoint: "SYNO.API.Info".to_owned(),
            path: "entry.cgi".to_owned(),
            version: "1".to_owned(),
            parameters,
        }
    }

    /// The request line this call sends to the given server: the server's
    /// name, the call's path, endpoint and version, then each query
    /// parameter as `&key=value`, in order.
    pub fn uri(&self, server: &Server) -> (r: String)
        ensures
            r@ == uri_chars(self@, server@.name),
    {
        let ghost ps = params_model(self.parameters@);
        let mut out = String::new();
        out.append("https://");
        out.append(server.name.as_str());
        out.append("/webapi/");
        out.append(self.path.as_str());
        out.append("?api=");
        out.append(self.endpoint.as_str());
        out.append("&version=");
        out.append(self.version.as_str());
        let ghost head = out@;
        let mut i: usize = 0;
        while i < self.parameters.len()
            invariant
                i <= self.parameters@.len(),
                ps == params_model(self.parameters@),
                ps.len() == self.parameters@.len(),
                out@ == head + params_query(ps, i as int),
            decreases self.parameters@.len() - i,
        {
            proof {
                assert(ps[i as int] == self.parameters@[i as int]@);
            }
            let p = &self.parameters[i];
            out.append("&");
            out.append(p.key.as_str());
            out.append("=");
            out.append(p.value.as_str());
            i += 1;
            proof {
                assert(out@ =~= head + params_query(ps, i as int));
            }
        }
        proof {
            assert(head =~= "https://"@ + server@.name + "/webapi/"@ + self@.path + "?api="@
                + self@.endpoint + "&version="@ + self@.version);
            assert(out@ =~= uri_chars(self@, server@.name));
        }
        out
    }
}

/// The endpoint of the given name, if the table has one, searching from
/// position `k`: the first match wins.
pub open spec fn endpoint_lookup_from(
    endpoints: Seq<EndpointModel>,
    name: Seq<char>,
    k: int,
) -> Option<EndpointModel>
    decreases endpoints.len() - k,
{
    if k < 0 || k >= endpoints.len() {
        Option::None
    } else if endpoints[k].name == name {
        Option::Some(endpoints[k])
    } else {
        endpoint_lookup_from(endpoints, name, k + 1)
    }
}

pub open spec fn endpoint_lookup(endpoints: Seq<EndpointModel>, name: Seq<char>) -> Option<
    EndpointModel,
> {
    endpoint_lookup_from(endpoints, name, 0)
}

/// What building a call decides: the version a call asks for, given the
/// endpoint's supported range — the requested version when it lies in the
/// range, the range's minimum when none is requested.
pub open spec fn chosen_version(ep: EndpointModel, version: Option<u32>) -> Result<u32, SynError> {
    match version {
        Option::Some(v) => if v < ep.min_version || v > ep.max_version {
            Result::Err(SynError::VersionOutOfRange)
        } else {
            Result::Ok(v)
        },
        Option::None => Result::Ok(ep.min_version),
    }
}

/// What a prepared call must look like, over the models.
pub open spec fn call_prepared(
    server: ServerModel,
    endpoint: Seq<char>,
    parameters: Seq<QueryParamModel>,
    version: Option<u32>,
    r: Result<ApiCall, SynError>,
) -> bool {
    match endpoint_lookup(server.endpoints, endpoint) {
        Option::None => r == Result::<ApiCall, SynError>::Err(SynError::UnknownEndpoint),
        Option::Some(ep) => match chosen_version(ep, version) {
            Result::Err(e) => r == Result::<ApiCall, SynError>::Err(e),
            Result::Ok(v) => r matches Result::Ok(c) && c@.endpoint == endpoint && c@.path
                == ep.path && c@.version == dec_digits(v as int) && c@.parameters
                == parameters + match server.session_id {
                Option::Some(sid) => seq![QueryParamModel { key: "_sid"@, value: sid }],
                Option::None => Seq::<QueryParamModel>::empty(),
            },
        },
    }
}

impl Server {
    /// A server known only by name: no endpoint table yet, not logged in.
    pub fn new(name: String) -> (r: Server)
        ensures
            r@.name == name@,
            r@.endpoints =~= Seq::<EndpointModel>::empty(),
            r@.session_id is None,
    {
        let r = Server { name, endpoints: Vec::new(), session_id: Option::None };
        proof {
            assert(endpoints_model(Seq::<ApiEndpoint>::empty()) =~= Seq::<EndpointModel>::empty());
        }
        r
    }

    /// A server restored from saved credentials: known by name, already
    /// holding a session identifier, endpoint table still to fetch.
    pub fn with_session(name: String, session_id: String) -> (r: Server)
        ensures
            r@.name == name@,
            r@.endpoints =~= Seq::<EndpointModel>::empty(),
            r@.session_id == Option::Some(session_id@),
    {
        let r = Server { name, endpoints: Vec::new(), session_id: Option::Some(session_id) };
        proof {
            assert(endpoints_model(Seq::<ApiEndpoint>::empty()) =~= Seq::<EndpointModel>::empty());
        }
        r
    }

    /// Finds the endpoint of the given name in the server's table.
    fn find_endpoint(&self, endpoint: &String) -> (r: Option<&ApiEndpoint>)
        ensures
            match r {
                Option::Some(ep) => endpoint_lookup(self@.endpoints, endpoint@) == Option::Some(
                    ep@,
                ),
                Option::None => endpoint_lookup(self@.endpoints, endpoint@) is None,
            },
    {
        let ghost em = endpoints_model(self.endpoints@);
        let mut k: usize = 0;
        while k < self.endpoints.len()
            invariant
                k <= self.endpoints@.len(),
                em == endpoints_model(self.endpoints@),
                em.len() == self.endpoints@.len(),
                endpoint_lookup_from(em, endpoint@, 0) == endpoint_lookup_from(
                    em,
                    endpoint@,
                    k as int,
                ),
            decreases self.endpoints@.len() - k,
        {
            proof {
                assert(em[k as int] == self.endpoints@[k as int]@);
            }
            if self.endpoints[k].name == *endpoint {
                return Option::Some(&self.endpoints[k]);
            }
            k += 1;
        }
        Option::None
    }

    /// Builds the call a request will be sent for: resolves the endpoint
    /// in the server's table, picks the version (the requested one when it
    /// lies in the endpoint's range, the endpoint's minimum when none is
    /// requested), and appends the session identifier to the parameters
    /// when the server is logged in.
    pub fn prepare_call(
        &self,
        endpoint: &String,
        parameters: Vec<QueryParam>,
        version: Option<u32>,
    ) -> (r: Result<ApiCall, SynError>)
        ensures
            call_prepared(self@, endpoint@, params_model(parameters@), version, r),
    {
        let ghost pm = params_model(parameters@);
        let ep = match self.find_endpoint(endpoint) {
            Option::None => {
                return Result::Err(SynError::UnknownEndpoint);
            },
            Option::Some(ep) => ep,
        };
        let v: u32 = match version {
            Option::Some(v) => {
                if v < ep.min_version || v > ep.max_version {
                    return Result::Err(SynError::VersionOutOfRange);
                }
                v
            },
            Option::None => ep.min_version,
        };
        let mut parameters = parameters;
        match &self.session_id {
            Option::Some(sid) => {
                let p = QueryParam { key: "_sid".to_owned(), value: sid.clone() };
                proof {
                    assert(params_model(parameters@.push(p)) =~= params_model(parameters@).push(
                        p@,
                    ));
                }
                parameters.push(p);
                proof {
                    assert(params_model(parameters@) =~= pm + seq![
                        QueryParamModel { key: "_sid"@, value: sid@ },
                    ]);
                }
            },
            Option::None => {
                proof {
                    assert(params_model(parameters@) =~= pm
                        + Seq::<QueryParamModel>::empty());
                }
            },
        }
        Result::Ok(
            ApiCall {
                endpoint: endpoint.clone(),
                path: ep.path.clone(),
                version: u32_to_string(v),
                parameters,
            },
        )
    }
}

/// A server that must be there: turns its absence into the error the host
/// shows when no login has happened yet.
pub trait ServerOption: Sized {
    type Output;

    fn require(self) -> Result<Self::Output, HandlerError>;
}

impl ServerOption for Option<Server> {
    type Output = Server;

    /// The server when present; the not-logged-in error otherwise.
    fn require(self) -> (r: Result<Server, HandlerError>)
        ensures
            match self {
                Option::Some(server) => r == Result::<Server, HandlerError>::Ok(server),
                Option::None => r matches Result::Err(e) && e.label@ == "Not logged in"@
                    && e.msg@ == "Please run `dsn login <server-name>` first."@,
            },
    {
        match self {
            Option::None => Result::Err(
                HandlerError {
                    label: "Not logged in".to_owned(),
                    msg: "Please run `dsn login <server-name>` first.".to_owned(),
                },
            ),
            Option::Some(server) => Result::Ok(server),
        }
    }
}

} // verus!
