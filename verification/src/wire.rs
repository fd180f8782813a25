//! The wire protocol: message types, length-prefixed framing, and the
//! session rules of the worker loop.
//!
//! The transport encodes a message to payload bytes, and every frame in
//! either direction is the payload length as four big-endian bytes followed
//! by the payload.  The host performs the byte traffic; the framing and the
//! decision which request may follow which response are verified here.

use vstd::prelude::*;

use crate::geom::Ray;
use crate::scene::Scene;
use crate::shade::{evaluate, shade_spec, Config, Outcome};

verus! {

/// The protocol version written, big-endian, immediately after connecting.
pub const PROTOCOL_VERSION: u32 = 2;

/// A request from the worker to the coordinator.
#[derive(Debug)]
pub enum Request {
    /// Ask for a batch of rays and a scene.
    ReserveRays,
    /// Hand back one outcome per reserved ray, in ray order.
    SubmitResults(Vec<Outcome>),
    /// Identify this worker, once, before the first batch.
    SetName(String),
}

/// A response from the coordinator; each answers the request of the same
/// variant.
#[derive(Debug)]
pub enum Response {
    ReserveRays(Vec<Ray>, Scene),
    SubmitResults,
    SetName,
}

/// The four big-endian bytes of `n`.
pub open spec fn be32_spec(n: u32) -> Seq<u8> {
    seq![(n >> 24) as u8, (n >> 16) as u8, (n >> 8) as u8, n as u8]
}

/// A whole frame: the payload length as four big-endian bytes, then the
/// payload.
pub open spec fn frame_spec(payload: Seq<u8>) -> Seq<u8> {
    be32_spec(payload.len() as u32) + payload
}

/// Encode `n` as its four big-endian bytes.
pub fn encode_u32_be(n: u32) -> (r: Vec<u8>)
    ensures
        r@ == be32_spec(n),
{
    let b0: u8 = #[verifier::truncate] ((n >> 24) as u8);
    let b1: u8 = #[verifier::truncate] ((n >> 16) as u8);
    let b2: u8 = #[verifier::truncate] ((n >> 8) as u8);
    let b3: u8 = #[verifier::truncate] (n as u8);
    let r = vec![b0, b1, b2, b3];
    proof {
        assert(r@ =~= be32_spec(n));
    }
    r
}

/// Decode four big-endian bytes: the result is exactly the value those
/// bytes encode.
pub fn decode_u32_be(b0: u8, b1: u8, b2: u8, b3: u8) -> (n: u32)
    ensures
        be32_spec(n) == seq![b0, b1, b2, b3],
{
    let n: u32 = ((b0 as u32) << 24) | ((b1 as u32) << 16) | ((b2 as u32) << 8) | (b3 as u32);
    proof {
        assert((n >> 24) as u8 == b0 && (n >> 16) as u8 == b1 && (n >> 8) as u8 == b2 && n as u8
            == b3) by (bit_vector)
            requires
                n == ((b0 as u32) << 24) | ((b1 as u32) << 16) | ((b2 as u32) << 8) | (b3 as u32),
        ;
        assert(be32_spec(n) =~= seq![b0, b1, b2, b3]);
    }
    n
}

/// Frame a payload: its length as four big-endian bytes, then its bytes.
/// `None` exactly when the payload is too long for the length prefix.
pub fn encode_frame(payload: &Vec<u8>) -> (r: Option<Vec<u8>>)
    ensures
        payload@.len() <= u32::MAX ==> (r matches Some(f) && f@ == frame_spec(payload@)),
        payload@.len() > u32::MAX ==> r is None,
{
    if payload.len() > u32::MAX as usize {
        return None;
    }
    let mut f = encode_u32_be(payload.len() as u32);
    let n = payload.len();
    for i in 0..n
        invariant
            n == payload.len(),
            n <= u32::MAX,
            f@ == be32_spec(payload@.len() as u32) + payload@.take(i as int),
    {
        f.push(payload[i]);
        proof {
            assert(payload@.take(i + 1) =~= payload@.take(i as int).push(payload@[i as int]));
        }
    }
    proof {
        assert(payload@.take(n as int) =~= payload@);
    }
    Some(f)
}

/// Where the worker stands in the session: which request it last sent and
/// has not yet seen answered.
#[derive(PartialEq, Eq, Structural, Clone, Copy, Debug)]
pub enum Phase {
    /// The one-shot `SetName` handshake is outstanding.
    NameSent,
    /// A `ReserveRays` request is outstanding.
    BatchRequested,
    /// A `SubmitResults` request is outstanding.
    ResultsSent,
}

/// A response of the wrong variant for the outstanding request: fatal.
#[derive(PartialEq, Eq, Structural, Clone, Copy, Debug)]
pub enum ProtocolError {
    UnexpectedResponse,
}

/// Whether `resp` is the variant that answers the outstanding request of
/// `phase`.
pub open spec fn phase_accepts(phase: Phase, resp: &Response) -> bool {
    match phase {
        Phase::NameSent => resp is SetName,
        Phase::BatchRequested => resp matches Response::ReserveRays(_, _),
        Phase::ResultsSent => resp is SubmitResults,
    }
}

/// The first request of a session: the one-shot `SetName` handshake.
pub fn initial_request(config: &Config) -> (r: Request)
    ensures
        r matches Request::SetName(name) && name@ == config.name@,
{
    Request::SetName(config.name.clone())
}

/// Advance the session: given the reply to the outstanding request, decide
/// the next request.  An acknowledged name or submission asks for the next
/// batch; a delivered batch is evaluated — one outcome per ray, in ray
/// order — and submitted; a reply of the wrong variant is a protocol
/// violation, and fatal.
pub fn advance(phase: Phase, resp: Response, config: &Config) -> (r: Result<
    (Phase, Request),
    ProtocolError,
>)
    requires
        config.wf(),
    ensures
        r is Err <==> !phase_accepts(phase, &resp),
        r is Err ==> r == Err::<(Phase, Request), ProtocolError>(ProtocolError::UnexpectedResponse),
        (phase is NameSent || phase is ResultsSent) && phase_accepts(phase, &resp) ==> (r matches Ok(
            (p2, req),
        ) && p2 is BatchRequested && req is ReserveRays),
        phase is BatchRequested ==> match resp {
            Response::ReserveRays(rays, scene) => {
                &&& r matches Ok((p2, req))
                &&& p2 is ResultsSent
                &&& req matches Request::SubmitResults(out)
                &&& out.len() == rays.len()
                &&& forall|j: int|
                    0 <= j < rays.len() ==> out[j] == shade_spec(
                        rays[j],
                        scene.spheres@,
                        config.foreground@,
                        config.background,
                        1,
                    )
            },
            _ => r is Err,
        },
{
    match (phase, resp) {
        (Phase::NameSent, Response::SetName) => Ok((Phase::BatchRequested, Request::ReserveRays)),
        (Phase::ResultsSent, Response::SubmitResults) => Ok(
            (Phase::BatchRequested, Request::ReserveRays),
        ),
        (Phase::BatchRequested, Response::ReserveRays(rays, scene)) => {
            let outcomes = evaluate(&rays, &scene, config);
            Ok((Phase::ResultsSent, Request::SubmitResults(outcomes)))
        },
        _ => Err(ProtocolError::UnexpectedResponse),
    }
}

} // verus!
