//! A record of a test namespace created by a CI job: the namespace
//! name together with the job id and repository that created it. The
//! surrounding tooling uses it to decide which namespaces to clean up.

use vstd::prelude::*;

verus! {

#[derive(Clone, Debug)]
pub struct NamespaceCI {
    ns_name: String,
    job_id: String,
    repo: String,
}

impl NamespaceCI {
    pub closed spec fn ns_name_view(&self) -> Seq<char> {
        self.ns_name@
    }

    pub closed spec fn job_id_view(&self) -> Seq<char> {
        self.job_id@
    }

    pub closed spec fn repo_view(&self) -> Seq<char> {
        self.repo@
    }

    pub fn new(ns_name: String, job_id: String, repo: String) -> (r: Self)
        ensures
            r.ns_name_view() == ns_name@,
            r.job_id_view() == job_id@,
            r.repo_view() == repo@,
    {
        NamespaceCI { ns_name, job_id, repo }
    }

    pub fn ns_name(&self) -> (r: &String)
        ensures
            r@ == self.ns_name_view(),
    {
        &self.ns_name
    }

    pub fn job_id(&self) -> (r: &String)
        ensures
            r@ == self.job_id_view(),
    {
        &self.job_id
    }

    pub fn repo(&self) -> (r: &String)
        ensures
            r@ == self.repo_view(),
    {
        &self.repo
    }
}

} // verus!
