//! What the swap asks of the transport between the two parties.

pub mod request_response;
