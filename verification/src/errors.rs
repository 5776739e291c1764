//! What can go wrong while a region is listed, the events of a network are
//! looked up, or a finished record is handed on.

use vstd::prelude::*;
use vstd::utf8::{decode_utf8, valid_utf8};

verus! {

/// An answer of the remote that the client could not make sense of: the
/// status it came with and the bytes of its body.
pub struct HttpFailure {
    pub status: u16,
    pub body: Vec<u8>,
}

/// Why a lookup of events failed.
pub enum LookupEventsError {
    /// The remote answered, but not with events.
    Unknown(HttpFailure),
    /// Anything else, as text.
    Other(String),
}

/// Why a listing of networks failed.
pub enum DescribeVpcsError {
    /// The remote answered, but not with networks.
    Unknown(HttpFailure),
    /// Anything else, as text.
    Other(String),
}

/// Why a finished record could not be handed on.
pub struct SendError {
    pub description: String,
}

/// A failure of one task of the run, with what is known about it as text.
#[derive(Debug)]
pub enum CarrotError {
    DescribeVpcsFailed(String),
    LookUpEventsFailed(String),
    SendingVpcInfoFailed(String),
}

/// The text that [`body_text`] makes of the bytes `body`.
pub uninterp spec fn spec_body_text(body: Seq<u8>) -> String;

/// The bytes of a body as text. Bytes that are UTF-8 are decoded as they
/// stand.
///
/// Trusted: calls `String::from_utf8_lossy`, whose result depends on the
/// bytes alone and which hands back valid UTF-8 unchanged.
#[verifier::external_body]
fn body_text(body: &[u8]) -> (r: String)
    ensures
        r == spec_body_text(body@),
        valid_utf8(body@) ==> r@ == decode_utf8(body@),
{
    String::from_utf8_lossy(body).into_owned()
}

impl CarrotError {
    /// What is known about the failure.
    pub open spec fn spec_message(self) -> String {
        match self {
            CarrotError::DescribeVpcsFailed(text) => text,
            CarrotError::LookUpEventsFailed(text) => text,
            CarrotError::SendingVpcInfoFailed(text) => text,
        }
    }

    /// What is known about the failure.
    pub fn message(&self) -> (r: &String)
        ensures
            *r == self.spec_message(),
    {
        match self {
            CarrotError::DescribeVpcsFailed(text) => text,
            CarrotError::LookUpEventsFailed(text) => text,
            CarrotError::SendingVpcInfoFailed(text) => text,
        }
    }
}

/// A failed lookup as a failure of the run: with the body of the remote's
/// answer where there is one, else with the failure's own text.
pub open spec fn spec_lookup_events_failed(e: LookupEventsError) -> CarrotError {
    match e {
        LookupEventsError::Unknown(failure) => CarrotError::LookUpEventsFailed(
            spec_body_text(failure.body@),
        ),
        LookupEventsError::Other(text) => CarrotError::LookUpEventsFailed(text),
    }
}

/// A failed listing as a failure of the run: with the body of the remote's
/// answer where there is one, else with the failure's own text.
pub open spec fn spec_describe_vpcs_failed(e: DescribeVpcsError) -> CarrotError {
    match e {
        DescribeVpcsError::Unknown(failure) => CarrotError::DescribeVpcsFailed(
            spec_body_text(failure.body@),
        ),
        DescribeVpcsError::Other(text) => CarrotError::DescribeVpcsFailed(text),
    }
}

impl CarrotError {
    /// A failed lookup as a failure of the run.
    pub fn from_lookup_events(e: LookupEventsError) -> (r: CarrotError)
        ensures
            r == spec_lookup_events_failed(e),
    {
        match e {
            LookupEventsError::Unknown(failure) => CarrotError::LookUpEventsFailed(
                body_text(failure.body.as_slice()),
            ),
            LookupEventsError::Other(text) => CarrotError::LookUpEventsFailed(text),
        }
    }

    /// A failed listing as a failure of the run.
    pub fn from_describe_vpcs(e: DescribeVpcsError) -> (r: CarrotError)
        ensures
            r == spec_describe_vpcs_failed(e),
    {
        match e {
            DescribeVpcsError::Unknown(failure) => CarrotError::DescribeVpcsFailed(
                body_text(failure.body.as_slice()),
            ),
            DescribeVpcsError::Other(text) => CarrotError::DescribeVpcsFailed(text),
        }
    }

    /// A record that could not be handed on as a failure of the run, with
    /// the reason as text.
    pub fn from_send(e: SendError) -> (r: CarrotError)
        ensures
            r == CarrotError::SendingVpcInfoFailed(e.description),
    {
        CarrotError::SendingVpcInfoFailed(e.description)
    }
}

} // verus!
