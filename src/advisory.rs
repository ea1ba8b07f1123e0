//! Queries against the advisory database: which queries answer a request
//! for the advisories of a package.
use vstd::prelude::*;

use crate::vertex::copy_opt_string;

verus! {

/// One query of the advisory database: every filter that is set must
/// match.
pub struct AdvisoryQuery {
    pub package_name: String,
    pub arch: Option<String>,
    pub os: Option<String>,
    pub min_severity: Option<String>,
    /// Whether withdrawn advisories are included.
    pub withdrawn: bool,
}

pub open spec fn query_ok(
    q: AdvisoryQuery,
    name: Seq<char>,
    arch: Option<String>,
    os: Option<String>,
    min_severity: Option<String>,
    withdrawn: bool,
) -> bool {
    &&& q.package_name@ == name
    &&& q.arch == arch
    &&& q.os == os
    &&& q.min_severity == min_severity
    &&& q.withdrawn == withdrawn
}

/// The queries whose results, appended in order, are the advisories of a
/// package: one with the given filters, and where withdrawn advisories are
/// asked for, a second with the same filters that includes them. Results of
/// the two are not deduplicated.
pub fn advisory_queries(
    package_name: &str,
    include_withdrawn: bool,
    arch: Option<String>,
    os: Option<String>,
    min_severity: Option<String>,
) -> (r: Vec<AdvisoryQuery>)
    ensures
        r@.len() == if include_withdrawn { 2int } else { 1int },
        query_ok(r@[0], package_name@, arch, os, min_severity, false),
        include_withdrawn ==> query_ok(r@[1], package_name@, arch, os, min_severity, true),
{
    let mut out: Vec<AdvisoryQuery> = Vec::new();
    out.push(
        AdvisoryQuery {
            package_name: package_name.to_owned(),
            arch: copy_opt_string(&arch),
            os: copy_opt_string(&os),
            min_severity: copy_opt_string(&min_severity),
            withdrawn: false,
        },
    );
    if include_withdrawn {
        out.push(
            AdvisoryQuery {
                package_name: package_name.to_owned(),
                arch,
                os,
                min_severity,
                withdrawn: true,
            },
        );
    }
    out
}

} // verus!
