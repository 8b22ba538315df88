//! An API response: status, extra headers and the envelope.
use vstd::prelude::*;

use crate::envelope::ResponseBodyGeneric;

verus! {

#[derive(Debug)]
pub struct ApiResponse {
    pub headers: Vec<(String, String)>,
    pub response: ResponseBodyGeneric,
    pub status: u16,
}

/// The single header that tells the client to clear all data of the site.
pub open spec fn clears_site_data(headers: Seq<(String, String)>) -> bool {
    &&& headers.len() == 1
    &&& headers[0].0@ == "Clear-Site-Data"@
    &&& headers[0].1@ == "\"*\""@
}

fn clear_site_data() -> (r: Vec<(String, String)>)
    ensures
        clears_site_data(r@),
{
    vec![("Clear-Site-Data".to_owned(), "\"*\"".to_owned())]
}

impl ApiResponse {
    pub fn ok(response: ResponseBodyGeneric) -> (r: ApiResponse)
        ensures
            r.status == 200,
            r.headers@.len() == 0,
            r.response == response,
    {
        ApiResponse { headers: Vec::new(), status: 200, response }
    }

    pub fn not_found(response: ResponseBodyGeneric) -> (r: ApiResponse)
        ensures
            r.status == 404,
            r.headers@.len() == 0,
            r.response == response,
    {
        ApiResponse { headers: Vec::new(), status: 404, response }
    }

    pub fn unauthorized(response: ResponseBodyGeneric) -> (r: ApiResponse)
        ensures
            r.status == 401,
            clears_site_data(r.headers@),
            r.response == response,
    {
        ApiResponse { headers: clear_site_data(), status: 401, response }
    }

    pub fn forbidden(response: ResponseBodyGeneric) -> (r: ApiResponse)
        ensures
            r.status == 403,
            clears_site_data(r.headers@),
            r.response == response,
    {
        ApiResponse { headers: clear_site_data(), status: 403, response }
    }
}

} // verus!
