//! Testing whether the proxy answers.

use crate::replaced_service::{ReplacedServiceSpec, ReplacedServiceSpecView, TestProtocol};
use crate::text::{decimal, decimal_text, trim_leading_slashes, without_leading_slashes};
use vstd::prelude::*;
use vstd::string::*;

verus! {

/// The status codes that mean success.
pub open spec fn successful(status: u16) -> bool {
    200 <= status < 300
}

/// Calls `reqwest::StatusCode::from_u16` and `reqwest::StatusCode::is_success`: of the
/// numbers that are a status code at all, those from 200 to 299 mean success. A number
/// that is no status code does not.
#[verifier::external_body]
fn is_success(status: u16) -> (success: bool)
    ensures
        success == successful(status),
{
    match reqwest::StatusCode::from_u16(status) {
        Ok(code) => code.is_success(),
        Err(_) => false,
    }
}

/// The scheme of the test address.
pub open spec fn scheme(spec: ReplacedServiceSpecView) -> Seq<char> {
    match spec.health_test_protocol {
        Some(TestProtocol::Https) => "https"@,
        _ => "http"@,
    }
}

/// The path of the test address, without the slash in front.
pub open spec fn health_path(spec: ReplacedServiceSpecView) -> Seq<char> {
    match spec.health_endpoint {
        Some(path) => without_leading_slashes(path),
        None => Seq::empty(),
    }
}

/// The address at which one port of the proxy is tested.
pub open spec fn test_url(
    spec: ReplacedServiceSpecView,
    namespace: Seq<char>,
    port: i32,
) -> Seq<char> {
    scheme(spec) + "://"@ + spec.test_service_name() + "."@ + namespace
        + ".svc.cluster.local:"@ + decimal(port as int) + "/"@ + health_path(spec)
}

/// Builds the address at which one port of the proxy is tested.
pub fn make_test_url(spec: &ReplacedServiceSpec, namespace: &String, port: i32) -> (url: String)
    ensures
        url@ == test_url(spec@, namespace@, port),
{
    let mut url = match spec.health_test_protocol {
        Some(TestProtocol::Https) => "https".to_string(),
        _ => "http".to_string(),
    };
    let name = spec.test_service_name();
    let number = decimal_text(port);
    url.append("://");
    url.append(name.as_str());
    url.append(".");
    url.append(namespace.as_str());
    url.append(".svc.cluster.local:");
    url.append(number.as_str());
    url.append("/");
    match &spec.health_endpoint {
        Some(path) => url.append(trim_leading_slashes(path.as_str())),
        None => {
            proof {
                assert(url@ + Seq::<char>::empty() =~= url@);
            }
        },
    }
    url
}

/// Whether the client that tests the proxy accepts any certificate.
pub open spec fn ignores_certificates(spec: ReplacedServiceSpecView) -> bool {
    spec.ignore_certificate_errors == Some(true)
}

/// Whether the client that tests the proxy accepts any certificate.
pub fn ignore_certificate_errors(spec: &ReplacedServiceSpec) -> (ignore: bool)
    ensures
        ignore == ignores_certificates(spec@),
        ignore == (spec.ignore_certificate_errors == Some(true)),
{
    match spec.ignore_certificate_errors {
        Some(ignore) => ignore,
        None => false,
    }
}

/// Why an answer with this status means that the proxy does not work.
pub open spec fn answer_failure(status: u16) -> Option<Seq<char>> {
    if successful(status) {
        None
    } else {
        Some("Proxied service did respond, but the result was not a success"@)
    }
}

/// Judges an answer by its status.
pub fn judge_answer(status: u16) -> (failure: Option<String>)
    ensures
        failure.deep_view() == answer_failure(status),
        failure is None <==> 200 <= status <= 299,
{
    if is_success(status) {
        None
    } else {
        Some("Proxied service did respond, but the result was not a success".to_string())
    }
}

/// Why no answer means that the proxy does not work.
pub open spec fn silence_failure(reason: Seq<char>) -> Seq<char> {
    "Failed to test proxy service: "@ + reason
}

/// Reports that no answer came.
pub fn judge_silence(reason: &String) -> (failure: String)
    ensures
        failure@ == silence_failure(reason@),
{
    "Failed to test proxy service: ".to_string().concat(reason.as_str())
}

/// Certificate errors are ignored in a test if and only if the resource says so, whatever
/// the protocol and everything else.
pub proof fn certificates_are_ignored_only_on_demand(spec: ReplacedServiceSpecView)
    ensures
        spec.ignore_certificate_errors is Some ==> ignores_certificates(spec)
            == spec.ignore_certificate_errors->0,
        spec.ignore_certificate_errors is None ==> !ignores_certificates(spec),
{
}

/// The test address is made of the scheme, the test service, its namespace and port, and
/// the path: over https if and only if the resource says so, at the port that is tested, and
/// at the path without the slashes in front, or at the root where there is none.
pub proof fn address_names_the_tested_port(
    spec: ReplacedServiceSpecView,
    namespace: Seq<char>,
    port: i32,
)
    ensures
        exists|scheme: Seq<char>, path: Seq<char>|
            {
                &&& test_url(spec, namespace, port) == #[trigger] (scheme + "://"@
                    + spec.service_to_replace + "-proxy"@ + "."@ + namespace
                    + ".svc.cluster.local:"@ + decimal(port as int) + "/"@ + path)
                &&& spec.health_test_protocol == Some(TestProtocol::Https) ==> scheme == "https"@
                &&& spec.health_test_protocol != Some(TestProtocol::Https) ==> scheme == "http"@
                &&& spec.health_endpoint is None ==> path.len() == 0
                &&& spec.health_endpoint is Some ==> path == without_leading_slashes(
                    spec.health_endpoint->0,
                )
            },
{
    let path = match spec.health_endpoint {
        Some(path) => without_leading_slashes(path),
        None => Seq::empty(),
    };
    let scheme = if spec.health_test_protocol == Some(TestProtocol::Https) {
        "https"@
    } else {
        "http"@
    };
    assert(scheme + "://"@ + (spec.service_to_replace + "-proxy"@) =~= scheme + "://"@
        + spec.service_to_replace + "-proxy"@);
    assert(test_url(spec, namespace, port) == scheme + "://"@ + spec.service_to_replace
        + "-proxy"@ + "."@ + namespace + ".svc.cluster.local:"@ + decimal(port as int) + "/"@
        + path);
}

/// An answer means that the proxy works if and only if its status is one of success. A
/// failure says which kind it is: an answer without success, or silence with its reason.
pub proof fn only_success_means_working(status: u16, reason: Seq<char>)
    ensures
        answer_failure(status) is None <==> 200 <= status <= 299,
        answer_failure(status) is Some ==> answer_failure(status)->0
            == "Proxied service did respond, but the result was not a success"@,
        silence_failure(reason) == "Failed to test proxy service: "@ + reason,
{
}

} // verus!
