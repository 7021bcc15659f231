use vstd::prelude::*;

use crate::error::TunnelReject;
use crate::ident::{beam_id_wf, compose_destination, spec_compose, BeamId};
use crate::metadata::{
    decode_header_form, encode_stream, spec_decode_header, spec_encode_stream,
};
use crate::text::str_eq;

verus! {

/// The decided handling of one accepted tunnel request: the destination
/// and the stream metadata of the outbound stream to open.  The caller
/// opens the stream, answers the HTTP client, and copies the request
/// body into the stream in the background.
#[derive(Debug, Clone)]
pub struct TunnelPlan {
    pub dest: BeamId,
    pub metadata_text: String,
}

/// Decides one tunnel request.
///
/// The request's Basic-auth password is held against the configured
/// key first: exactly the requests whose password differs are refused
/// as unauthorized, and a refusal carries no plan, so no outbound
/// stream can be opened for them.  An accepted password combines the
/// caller's path segment with this instance's identifier; a segment
/// that does not combine refuses the request.  The request's header
/// values decode as the header form does — a bad or missing metadata
/// header degrades to no metadata, never to a refusal — and the
/// resulting record, re-encoded in the stream form, travels with the
/// outbound stream.
pub fn plan_tunnel(
    api_key: &str,
    password: &str,
    dest_fragment: &str,
    filename: Option<&str>,
    metadata: Option<&str>,
    own: &BeamId,
) -> (r: Result<TunnelPlan, TunnelReject>)
    requires
        beam_id_wf(own),
    ensures
        (r matches Err(TunnelReject::Unauthorized)) <==> password@ != api_key@,
        password@ == api_key@ ==> ((r matches Err(TunnelReject::BadDestination)) <==> spec_compose(
            dest_fragment@,
            own.app@,
        ) is None),
        r is Ok ==> {
            let (a, p) = spec_compose(dest_fragment@, own.app@)->Some_0;
            &&& r->Ok_0.dest.app@ == a
            &&& r->Ok_0.dest.proxy@ == p
            &&& r->Ok_0.dest.broker@ == own.broker@
            &&& beam_id_wf(&r->Ok_0.dest)
            &&& r->Ok_0.metadata_text@ == spec_encode_stream(
                spec_decode_header(
                    match filename {
                        Some(f) => Some(f@),
                        None => None,
                    },
                    match metadata {
                        Some(x) => Some(x@),
                        None => None,
                    },
                ),
            )
        },
{
    if !str_eq(password, api_key) {
        return Err(TunnelReject::Unauthorized);
    }
    let dest = match compose_destination(dest_fragment, own) {
        Ok(d) => d,
        Err(_) => {
            return Err(TunnelReject::BadDestination);
        },
    };
    let m = decode_header_form(filename, metadata);
    Ok(TunnelPlan { dest, metadata_text: encode_stream(&m) })
}

} // verus!
