use vstd::prelude::*;

use crate::response::{
    create_default_error, headers_encodable, header_error_message, to_fetch_response,
    HostResponse, InternalResponse, ERROR_STATUS,
};

verus! {

/// What the host response of one call is built from, given what the service
/// returned: its response, translated, or `Err` with the text of the service's
/// error, which becomes a 500 response carrying that text. No outcome is passed on
/// as a failure.
pub fn respond<B>(outcome: Result<InternalResponse<B>, String>) -> (r: HostResponse<B>)
    ensures
        outcome is Ok && headers_encodable(outcome->Ok_0.headers@) ==> r
            == HostResponse::Streaming(outcome->Ok_0),
        outcome is Ok && !headers_encodable(outcome->Ok_0.headers@) ==> r is Text && r->Text_0
            == ERROR_STATUS && r->Text_1@ == header_error_message(),
        outcome is Err ==> r is Text && r->Text_0 == ERROR_STATUS && r->Text_1@
            == outcome->Err_0@,
{
    match outcome {
        Ok(resp) => to_fetch_response(resp),
        Err(e) => create_default_error(e),
    }
}

} // verus!
