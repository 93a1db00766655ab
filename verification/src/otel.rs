//! Where the traces of the service go.

use crate::SERVICE_NAME;
use vstd::prelude::*;

verus! {

/// What takes the traces.
#[derive(Debug)]
pub enum Exporter {
    /// Nothing.
    Nothing,
    /// The standard output.
    Stdout,
    /// The collector at this address.
    Endpoint(String),
}

/// How tracing is set up.
#[derive(Debug)]
pub struct TracerPlan {
    pub exporter: Exporter,
    /// What is said of it in the log.
    pub info: String,
    /// The name under which the service appears in the traces.
    pub service_name: String,
}

/// For how many seconds a collector is waited for.
pub const EXPORT_TIMEOUT: u64 = 5;

/// The set-up that the environment asks for: `service_name` and `endpoint` are the
/// values of the variables for the name of the service and for the collector, where
/// they are set. The endpoint `stdout` stands for the standard output; an empty one
/// stands for none.
pub fn init_tracer(service_name: Option<String>, endpoint: Option<String>) -> (res: TracerPlan)
    ensures
        match service_name {
            Some(name) => res.service_name@ == name@,
            None => res.service_name@ == SERVICE_NAME@,
        },
        match endpoint {
            None => res.exporter is Nothing && res.info@ == "No OTLP endpoint"@,
            Some(endpoint) => if endpoint@ == ""@ {
                res.exporter is Nothing && res.info@ == "No OTLP endpoint"@
            } else if endpoint@ == "stdout"@ {
                res.exporter is Stdout && res.info@ == "OTLP stdout exporter"@
            } else {
                (res.exporter matches Exporter::Endpoint(address) && address@ == endpoint@)
                    && res.info@ == "OTLP endpoint: "@ + endpoint@
            },
        },
{
    let service_name = match service_name {
        Some(name) => name,
        None => SERVICE_NAME.to_owned(),
    };
    match endpoint {
        None => TracerPlan {
            exporter: Exporter::Nothing,
            info: "No OTLP endpoint".to_owned(),
            service_name,
        },
        Some(endpoint) => if endpoint == "".to_owned() {
            TracerPlan {
                exporter: Exporter::Nothing,
                info: "No OTLP endpoint".to_owned(),
                service_name,
            }
        } else if endpoint == "stdout".to_owned() {
            TracerPlan {
                exporter: Exporter::Stdout,
                info: "OTLP stdout exporter".to_owned(),
                service_name,
            }
        } else {
            let mut info = "OTLP endpoint: ".to_owned();
            info.append(endpoint.as_str());
            TracerPlan { exporter: Exporter::Endpoint(endpoint), info, service_name }
        },
    }
}

} // verus!
