//! Events that the dashboard is told of.
use crate::text::{lit, opt_str, opt_text};
use vstd::prelude::*;
use vstd::string::*;

verus! {

/// How many events wait for a listener that is slow.
pub const CAPACITY: usize = 256;

#[derive(Debug, PartialEq, Eq)]
pub struct MgmtEvent {
    /// `job`, `cluster` or `hello`.
    pub kind: String,
    pub cluster_id: Option<String>,
    pub job_id: Option<String>,
    pub job_kind: Option<String>,
    pub status: Option<String>,
    /// Seconds since the epoch.
    pub ts: i64,
}

#[verifier::ext_equal]
pub ghost struct MgmtEventV {
    pub kind: Seq<char>,
    pub cluster_id: Option<Seq<char>>,
    pub job_id: Option<Seq<char>>,
    pub job_kind: Option<Seq<char>>,
    pub status: Option<Seq<char>>,
    pub ts: int,
}

impl View for MgmtEvent {
    type V = MgmtEventV;

    open spec fn view(&self) -> MgmtEventV {
        MgmtEventV {
            kind: self.kind@,
            cluster_id: opt_text(self.cluster_id),
            job_id: opt_text(self.job_id),
            job_kind: opt_text(self.job_kind),
            status: opt_text(self.status),
            ts: self.ts as int,
        }
    }
}

fn owned(o: Option<&str>) -> (r: Option<String>)
    ensures
        opt_text(r) == opt_str(o),
{
    match o {
        Some(s) => Some(lit(s)),
        None => None,
    }
}

impl MgmtEvent {
    /// A job has reached a state.
    pub fn job(
        cluster_id: Option<&str>,
        job_id: &str,
        job_kind: Option<&str>,
        status: &str,
        ts: i64,
    ) -> (r: MgmtEvent)
        ensures
            r@ == (MgmtEventV {
                kind: "job"@,
                cluster_id: opt_str(cluster_id),
                job_id: Some(job_id@),
                job_kind: opt_str(job_kind),
                status: Some(status@),
                ts: ts as int,
            }),
    {
        MgmtEvent {
            kind: lit("job"),
            cluster_id: owned(cluster_id),
            job_id: Some(lit(job_id)),
            job_kind: owned(job_kind),
            status: Some(lit(status)),
            ts,
        }
    }

    /// A cluster has reached a state.
    pub fn cluster(cluster_id: &str, status: &str, ts: i64) -> (r: MgmtEvent)
        ensures
            r@ == (MgmtEventV {
                kind: "cluster"@,
                cluster_id: Some(cluster_id@),
                job_id: None,
                job_kind: None,
                status: Some(status@),
                ts: ts as int,
            }),
    {
        MgmtEvent {
            kind: lit("cluster"),
            cluster_id: Some(lit(cluster_id)),
            job_id: None,
            job_kind: None,
            status: Some(lit(status)),
            ts,
        }
    }
}

} // verus!
