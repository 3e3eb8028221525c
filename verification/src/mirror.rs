//! The mirroring run's plan and outcome: for each discovered package
//! reference, the fetch-and-store step to perform, and the aggregate
//! report of which packages mirrored and which failed.
//!
//! The run itself — the network fetch and the filesystem write — is the
//! caller's work; the decisions around it live here. A run continues
//! past a failed package and records the failure, so one broken manifest
//! or one failed fetch does not discard the rest.

use crate::address::{crate_dir_spec, crate_path_spec, crate_url_spec, get_crate_dir,
    get_crate_path, get_crate_url};
use crate::manifest::{Crate, MirrorError};
use vstd::prelude::*;

verus! {

/// One planned fetch-and-store action: the remote URL to fetch, the
/// directory to create, and the file path to write the archive to.
pub struct DownloadStep {
    pub url: String,
    pub dir_path: String,
    pub file_path: String,
}

/// Plans the fetch-and-store step for one package reference, or `None`
/// when the reference's name is empty and no local address is derivable
/// — a state a scanned reference can never be in.
pub fn plan_download(mirror_path: &str, c: &Crate) -> (r: Option<DownloadStep>)
    ensures
        r is Some <==> c.name@.len() > 0,
        r matches Some(step) ==> step.url@ == crate_url_spec(c.name@, c.version@),
        r matches Some(step) ==> step.dir_path@ == crate_dir_spec(
            mirror_path@,
            c.name@,
            c.version@,
        ),
        r matches Some(step) ==> step.file_path@ == crate_path_spec(
            mirror_path@,
            c.name@,
            c.version@,
        ),
{
    let dir_path = match get_crate_dir(mirror_path, c.name.as_str(), c.version.as_str()) {
        None => {
            return None;
        },
        Some(d) => d,
    };
    let file_path = match get_crate_path(mirror_path, c.name.as_str(), c.version.as_str()) {
        None => {
            return None;
        },
        Some(p) => p,
    };
    let url = get_crate_url(c.name.as_str(), c.version.as_str());
    Some(DownloadStep { url, dir_path, file_path })
}

/// The aggregate outcome of one mirroring run: the package references
/// that were fetched and stored, in the order they were attempted, and
/// those that failed, each with its error.
pub struct Report {
    pub succeeded: Vec<Crate>,
    pub failed: Vec<(Crate, MirrorError)>,
}

impl Report {
    /// A report of a run that has attempted nothing yet.
    pub fn new() -> (r: Self)
        ensures
            r.succeeded@.len() == 0,
            r.failed@.len() == 0,
    {
        Report { succeeded: Vec::new(), failed: Vec::new() }
    }

    /// Records one package that was fetched and stored; earlier
    /// outcomes, successes and failures alike, are untouched.
    pub fn record_success(&mut self, c: Crate)
        ensures
            final(self).succeeded@ == old(self).succeeded@.push(c),
            final(self).failed@ == old(self).failed@,
    {
        self.succeeded.push(c);
    }

    /// Records one package whose mirroring failed, with the error;
    /// earlier outcomes are untouched.
    pub fn record_failure(&mut self, c: Crate, e: MirrorError)
        ensures
            final(self).failed@ == old(self).failed@.push((c, e)),
            final(self).succeeded@ == old(self).succeeded@,
    {
        self.failed.push((c, e));
    }

    /// Whether the whole run succeeded: no package failed.
    pub fn is_success(&self) -> (r: bool)
        ensures
            r == (self.failed@.len() == 0),
    {
        self.failed.len() == 0
    }
}

} // verus!
