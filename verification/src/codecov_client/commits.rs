//! Where the commit endpoints are.

use vstd::prelude::*;

use crate::codecov_client::CodecovClient;

verus! {

impl CodecovClient {
    /// `GET /api/v2/{service}/{owner}/repos/{repo}/commits/{sha}`
    pub fn commit_detail_url(&self, sha: &str) -> (r: String)
        ensures
            r@ == self.api_repo_spec() + "/commits/"@ + sha@,
    {
        let mut r = self.api_repo();
        r.append("/commits/");
        r.append(sha);
        r
    }

    /// `GET /api/v2/{service}/{owner}/repos/{repo}/report/?sha={sha}`; the
    /// query is added by the caller.
    pub fn commit_report_url(&self) -> (r: String)
        ensures
            r@ == self.api_repo_spec() + "/report/"@,
    {
        let mut r = self.api_repo();
        r.append("/report/");
        r
    }
}

} // verus!
