//! Queries and answers.
//!
//! A query goes out as the JSON text that `serde_json` writes for it, and
//! the daemon's answer comes back as JSON text that `serde_json` reads. The
//! answers are the daemon's own types and are handed on as they are; of a
//! service only its name is looked at here.

use vstd::prelude::*;
use vstd::string::*;
use crate::error::IpcError;
use crate::protocol::{
    deserialized, length_prefix, send_message, Action, Exchange, Step, MAX_MESSAGE_SIZE,
};

verus! {

/// The daemon's answer to a status query.
#[verifier::external_type_specification]
#[verifier::external_body]
pub struct ExStatusResponse(kodegend_protocol_ipc::StatusResponse);

/// The daemon's account of one service.
#[verifier::external_type_specification]
#[verifier::external_body]
pub struct ExServiceStatus(kodegend_protocol_ipc::ServiceStatus);

/// The daemon's usage statistics for one connection.
#[verifier::external_type_specification]
#[verifier::external_body]
pub struct ExAggregatedUsageStats(kodegend_protocol_ipc::AggregatedUsageStats);

/// The daemon's tool history for one connection.
#[verifier::external_type_specification]
#[verifier::external_body]
pub struct ExAggregatedToolHistory(kodegend_protocol_ipc::AggregatedToolHistory);

/// What the daemon can be asked.
#[derive(Debug)]
pub enum StatusQuery {
    /// The status of every service.
    All,
    /// The status of the service of this name.
    Service(String),
    /// The usage statistics of the connection of this id.
    UsageStats(String),
    /// The tool history of the connection of this id.
    ToolHistory(String),
}

/// A query as its kind and the text it carries.
pub enum QueryView {
    All,
    Service(Seq<char>),
    UsageStats(Seq<char>),
    ToolHistory(Seq<char>),
}

impl View for StatusQuery {
    type V = QueryView;

    open spec fn view(&self) -> QueryView {
        match self {
            StatusQuery::All => QueryView::All,
            StatusQuery::Service(name) => QueryView::Service(name@),
            StatusQuery::UsageStats(id) => QueryView::UsageStats(id@),
            StatusQuery::ToolHistory(id) => QueryView::ToolHistory(id@),
        }
    }
}

/// The JSON text that `serde_json::to_vec` writes for a query in the
/// daemon's wire format, or `None` where it reports an error.
pub uninterp spec fn query_json(query: QueryView) -> Option<Seq<u8>>;

/// The answer that `serde_json::from_slice` reads from a payload as a
/// status response, or `None` where it reports an error.
pub uninterp spec fn status_response_json(payload: Seq<u8>) -> Option<
    kodegend_protocol_ipc::StatusResponse,
>;

/// The answer that `serde_json::from_slice` reads from a payload as a tool
/// history, or `None` where it reports an error.
pub uninterp spec fn tool_history_json(payload: Seq<u8>) -> Option<
    kodegend_protocol_ipc::AggregatedToolHistory,
>;

/// Whether `serde_json::from_slice` reads a payload as usage statistics.
/// Only that much has a name: the statistics it reads hold a hash map,
/// whose inner state differs from one reading to the next.
pub uninterp spec fn is_usage_stats_json(payload: Seq<u8>) -> bool;

/// The services that a status response lists, in its order.
pub uninterp spec fn services_of(response: kodegend_protocol_ipc::StatusResponse) -> Seq<
    kodegend_protocol_ipc::ServiceStatus,
>;

/// The name that a service is listed under.
pub uninterp spec fn name_of(service: kodegend_protocol_ipc::ServiceStatus) -> Seq<char>;

/// Writes a query as JSON: `serde_json::to_vec` on the query in the
/// daemon's wire type. The text is a function of the query alone and is
/// known here only by its name, [`query_json`].
#[verifier::external_body]
fn serialize_query(query: &StatusQuery) -> (serialized: Result<Vec<u8>, serde_json::Error>)
    ensures
        match serialized {
            Ok(json) => query_json(query@) == Some(json@),
            Err(_) => query_json(query@) is None,
        },
{
    let wire = match query {
        StatusQuery::All => kodegend_protocol_ipc::StatusQuery::All,
        StatusQuery::Service(name) => kodegend_protocol_ipc::StatusQuery::Service(name.clone()),
        StatusQuery::UsageStats(id) => kodegend_protocol_ipc::StatusQuery::UsageStats(id.clone()),
        StatusQuery::ToolHistory(id) => kodegend_protocol_ipc::StatusQuery::ToolHistory(id.clone()),
    };
    serde_json::to_vec(&wire)
}

/// Reads a payload as a status response: `serde_json::from_slice`. What is
/// read is a function of the payload alone and is known here only by its
/// name, [`status_response_json`].
#[verifier::external_body]
fn parse_status_response(payload: &[u8]) -> (parsed: Result<
    kodegend_protocol_ipc::StatusResponse,
    serde_json::Error,
>)
    ensures
        match parsed {
            Ok(response) => status_response_json(payload@) == Some(response),
            Err(_) => status_response_json(payload@) is None,
        },
{
    serde_json::from_slice(payload)
}

/// Reads a payload as a tool history: `serde_json::from_slice`. What is
/// read is a function of the payload alone and is known here only by its
/// name, [`tool_history_json`].
#[verifier::external_body]
fn parse_tool_history(payload: &[u8]) -> (parsed: Result<
    kodegend_protocol_ipc::AggregatedToolHistory,
    serde_json::Error,
>)
    ensures
        match parsed {
            Ok(history) => tool_history_json(payload@) == Some(history),
            Err(_) => tool_history_json(payload@) is None,
        },
{
    serde_json::from_slice(payload)
}

/// Reads a payload as usage statistics: `serde_json::from_slice`. Whether
/// it can be read is a function of the payload alone and is known here by
/// the name [`is_usage_stats_json`]. The statistics hold a hash map, whose
/// inner state differs from one reading to the next, so nothing is claimed
/// of what is read.
#[verifier::external_body]
fn parse_usage_stats(payload: &[u8]) -> (parsed: Result<
    kodegend_protocol_ipc::AggregatedUsageStats,
    serde_json::Error,
>)
    ensures
        parsed is Ok <==> is_usage_stats_json(payload@),
{
    serde_json::from_slice(payload)
}

/// Takes the list of services out of a status response: its field
/// `services`, known here by the name [`services_of`].
#[verifier::external_body]
fn into_services(response: kodegend_protocol_ipc::StatusResponse) -> (services: Vec<
    kodegend_protocol_ipc::ServiceStatus,
>)
    ensures
        services@ == services_of(response),
{
    response.services
}

/// The name of a service: its field `name`, known here by the name
/// [`name_of`].
#[verifier::external_body]
fn service_name(service: &kodegend_protocol_ipc::ServiceStatus) -> (name: &String)
    ensures
        name@ == name_of(*service),
{
    &service.name
}

/// The first step of the exchange that puts `query` to the daemon.
///
/// The query is written as JSON and framed. A query whose text is over the
/// limit, or that cannot be written, ends the exchange before a byte is
/// written.
pub fn query_daemon(query: &StatusQuery) -> (first: Step)
    ensures
        match query_json(query@) {
            None => first matches Step::Done(Err(IpcError::SerializationFailed(_))),
            Some(json) => if json.len() > MAX_MESSAGE_SIZE {
                first == Step::Done(Err(IpcError::MessageTooLarge(json.len() as usize)))
            } else {
                &&& first matches Step::Next(Exchange::SendingPrefix { payload }, Action::Write(prefix))
                &&& payload@ == json
                &&& prefix@ == length_prefix(json.len())
            },
        },
{
    send_message(serialize_query(query))
}

/// The daemon's answer to a status query, read from the payload of its
/// response.
pub fn status_response(payload: &[u8]) -> (response: Result<
    kodegend_protocol_ipc::StatusResponse,
    IpcError,
>)
    ensures
        match status_response_json(payload@) {
            Some(read) => response == Ok::<kodegend_protocol_ipc::StatusResponse, IpcError>(read),
            None => response matches Err(IpcError::DeserializationFailed(_)),
        },
{
    deserialized(parse_status_response(payload))
}

/// Every service that the daemon lists in the payload of its response.
pub fn get_all_services(payload: &[u8]) -> (services: Result<
    Vec<kodegend_protocol_ipc::ServiceStatus>,
    IpcError,
>)
    ensures
        match status_response_json(payload@) {
            Some(read) => services matches Ok(list) && list@ == services_of(read),
            None => services matches Err(IpcError::DeserializationFailed(_)),
        },
{
    match status_response(payload) {
        Ok(response) => Ok(into_services(response)),
        Err(error) => Err(error),
    }
}

/// Whether `found` is what a search for `name` in `services` comes to: the
/// first service of that name, or `ServiceNotFound` with the name where no
/// service has it.
pub open spec fn is_search_result(
    services: Seq<kodegend_protocol_ipc::ServiceStatus>,
    name: Seq<char>,
    found: Result<kodegend_protocol_ipc::ServiceStatus, IpcError>,
) -> bool {
    match found {
        Ok(service) => exists|at: int|
            #![trigger services[at]]
            {
                &&& 0 <= at < services.len()
                &&& services[at] == service
                &&& name_of(service) == name
                &&& forall|before: int|
                    0 <= before < at ==> name_of(#[trigger] services[before]) != name
            },
        Err(error) => {
            &&& error matches IpcError::ServiceNotFound(missing)
            &&& missing@ == name
            &&& forall|at: int| 0 <= at < services.len() ==> name_of(#[trigger] services[at]) != name
        },
    }
}

/// Looks for the service called `name` among `services`.
pub fn find_service(services: Vec<kodegend_protocol_ipc::ServiceStatus>, name: &str) -> (found:
    Result<kodegend_protocol_ipc::ServiceStatus, IpcError>)
    ensures
        is_search_result(services@, name@, found),
{
    let mut listed = services;
    let wanted = String::from_str(name);
    let mut at: usize = 0;
    while at < listed.len()
        invariant
            listed@ == services@,
            wanted@ == name@,
            at <= listed.len(),
            forall|before: int|
                0 <= before < at ==> name_of(#[trigger] services@[before]) != name@,
        decreases listed.len() - at,
    {
        if *service_name(&listed[at]) == wanted {
            assert(name_of(services@[at as int]) == name@);
            let service = listed.remove(at);
            assert(services@[at as int] == service);
            return Ok(service);
        }
        at += 1;
    }
    Err(IpcError::ServiceNotFound(wanted))
}

/// The service called `name` in the payload of the daemon's response.
pub fn get_service(payload: &[u8], name: &str) -> (service: Result<
    kodegend_protocol_ipc::ServiceStatus,
    IpcError,
>)
    ensures
        match status_response_json(payload@) {
            Some(read) => is_search_result(services_of(read), name@, service),
            None => service matches Err(IpcError::DeserializationFailed(_)),
        },
{
    match get_all_services(payload) {
        Ok(services) => find_service(services, name),
        Err(error) => Err(error),
    }
}

/// The usage statistics in the payload of the daemon's response: there
/// exactly when the codec can read the payload as such, and
/// `DeserializationFailed` when it cannot.
pub fn get_usage_stats(payload: &[u8]) -> (stats: Result<
    kodegend_protocol_ipc::AggregatedUsageStats,
    IpcError,
>)
    ensures
        stats is Ok <==> is_usage_stats_json(payload@),
        stats is Err ==> stats matches Err(IpcError::DeserializationFailed(_)),
{
    deserialized(parse_usage_stats(payload))
}

/// The tool history in the payload of the daemon's response.
pub fn get_tool_history(payload: &[u8]) -> (history: Result<
    kodegend_protocol_ipc::AggregatedToolHistory,
    IpcError,
>)
    ensures
        match tool_history_json(payload@) {
            Some(read) => history == Ok::<kodegend_protocol_ipc::AggregatedToolHistory, IpcError>(
                read,
            ),
            None => history matches Err(IpcError::DeserializationFailed(_)),
        },
{
    deserialized(parse_tool_history(payload))
}

} // verus!
