//! Diagnostic reports for support requests.

use vstd::prelude::*;

verus! {

/// What a diagnostic report holds.
#[derive(Clone, Debug, PartialEq, Eq)]
pub struct DiagnosticReport {
    pub timestamp: String,
    pub app_version: String,
    pub device_ip: Option<String>,
    pub errors: Vec<String>,
}

/// The mathematical content of a [`DiagnosticReport`].
pub struct DiagnosticReportModel {
    pub timestamp: Seq<char>,
    pub app_version: Seq<char>,
    pub device_ip: Option<Seq<char>>,
    pub errors: Seq<Seq<char>>,
}

impl DeepView for DiagnosticReport {
    type V = DiagnosticReportModel;

    open spec fn deep_view(&self) -> DiagnosticReportModel {
        DiagnosticReportModel {
            timestamp: self.timestamp@,
            app_version: self.app_version@,
            device_ip: self.device_ip.deep_view(),
            errors: self.errors.deep_view(),
        }
    }
}

/// The report on the given errors, made at `timestamp` by the version `app_version`.
pub fn generate_report(
    timestamp: String,
    app_version: String,
    device_ip: Option<String>,
    errors: Vec<String>,
) -> (report: DiagnosticReport)
    ensures
        report.deep_view() == (DiagnosticReportModel {
            timestamp: timestamp@,
            app_version: app_version@,
            device_ip: device_ip.deep_view(),
            errors: errors.deep_view(),
        }),
{
    DiagnosticReport { timestamp, app_version, device_ip, errors }
}

} // verus!
