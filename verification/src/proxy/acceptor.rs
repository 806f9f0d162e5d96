//! Turns one accepted connection into a routed stream: protocol detection
//! on its first bytes, then the check of the shared secret.

use vstd::prelude::*;
use crate::config::base::InboundConfig;
use crate::proxy::base::{detect_from, Detection, SupportedProtocols};

verus! {

/// Why a connection was not accepted.
#[derive(Clone, Copy, Debug, PartialEq, Eq, Structural)]
pub enum AcceptError {
    TlsHandshakeFailed,
    ProtocolUnrecognized,
    AuthFailed,
    Timeout,
}

/// How the TLS handshake on an inbound connection ended.
#[derive(Clone, Copy, Debug, PartialEq, Eq, Structural)]
pub enum HandshakeOutcome {
    Completed,
    Failed,
    TimedOut,
}

/// What a read of further bytes from the peer met.
#[derive(Clone, Copy, Debug, PartialEq, Eq, Structural)]
pub enum ReadStatus {
    /// The peer may still send more.
    Open,
    /// The peer has closed its side.
    Closed,
    /// The time allowed for classifying the stream is over.
    TimedOut,
}

/// What to do next with a stream that is being classified.
#[derive(Clone, Copy, Debug, PartialEq, Eq, Structural)]
pub enum Classification {
    /// The variant at this position of the registry parses the stream.
    Selected(usize),
    /// Read more bytes, keep those already read, and classify again.
    ReadMore,
}

/// What the winning parser took from the preamble of a stream.
pub struct ParsedHeader {
    pub target_host: String,
    pub target_port: u16,
    pub credential: Option<Vec<u8>>,
}

/// The annotations of an accepted stream: its protocol, the destination it
/// asks for, and the identity it proved, if one was demanded.
#[derive(Debug)]
pub struct RoutedStream {
    pub detected_protocol: u8,
    /// Length of the preamble that was consumed: the payload of the stream
    /// starts behind it.
    pub header_len: usize,
    pub target_host: String,
    pub target_port: u16,
    pub authenticated_identity: Option<Vec<u8>>,
}

/// The acceptor of one listening endpoint.
pub struct Acceptor {
    pub tls: bool,
    pub secret: Option<Vec<u8>>,
    pub protocols: SupportedProtocols,
    pub detect_budget: usize,
}

/// The contents of an optional byte string.
pub open spec fn optional_bytes(b: Option<Vec<u8>>) -> Option<Seq<u8>> {
    match b {
        Some(v) => Some(v@),
        None => None,
    }
}

/// The bytes of an optional text.
pub open spec fn optional_text_bytes(s: Option<String>) -> Option<Seq<u8>> {
    match s {
        Some(t) => Some(vstd::utf8::encode_utf8(t@)),
        None => None,
    }
}

/// Compares two byte strings. Strings of different lengths are unequal;
/// strings of one length are compared without stopping at the first
/// difference, so that every byte is read whatever the contents.
pub fn constant_time_eq(a: &[u8], b: &[u8]) -> (r: bool)
    ensures
        r == (a@ == b@),
{
    if a.len() != b.len() {
        return false;
    }
    let mut diff: u8 = 0;
    let mut i: usize = 0;
    while i < a.len()
        invariant
            a.len() == b.len(),
            i <= a.len(),
            (diff == 0) <==> (forall|k: int| 0 <= k < i ==> a@[k] == b@[k]),
        decreases a.len() - i,
    {
        let x: u8 = a[i];
        let y: u8 = b[i];
        let ghost before: u8 = diff;
        diff = diff | (x ^ y);
        assert(((before | (x ^ y)) == 0) <==> (before == 0 && x == y)) by (bit_vector);
        i += 1;
    }
    if diff == 0 {
        assert(a@ =~= b@);
    }
    diff == 0
}

/// Whether the handshake stage lets the connection go on. A handshake that
/// failed, ran out of time or was never made counts as a failed handshake.
pub open spec fn handshake_outcome(tls: bool, outcome: Option<HandshakeOutcome>) -> Result<
    (),
    AcceptError,
> {
    if !tls {
        Ok(())
    } else {
        match outcome {
            Some(HandshakeOutcome::Completed) => Ok(()),
            _ => Err(AcceptError::TlsHandshakeFailed),
        }
    }
}

/// What follows from a detection result and the state of the read side.
pub open spec fn classification_outcome(detection: Detection, status: ReadStatus) -> Result<
    Classification,
    AcceptError,
> {
    match detection {
        Detection::Recognized(i) => Ok(Classification::Selected(i)),
        Detection::Unrecognized => Err(AcceptError::ProtocolUnrecognized),
        Detection::Incomplete => match status {
            ReadStatus::Open => Ok(Classification::ReadMore),
            ReadStatus::Closed => Err(AcceptError::ProtocolUnrecognized),
            ReadStatus::TimedOut => Err(AcceptError::Timeout),
        },
    }
}

/// Whether a presented credential satisfies the configured secret, and the
/// identity it proves: without a secret nothing is demanded and nothing
/// proved; with one, exactly the secret itself is accepted.
pub open spec fn authentication_outcome(
    secret: Option<Seq<u8>>,
    credential: Option<Seq<u8>>,
) -> Result<Option<Seq<u8>>, AcceptError> {
    match secret {
        None => Ok(None),
        Some(s) => if credential == Some(s) {
            Ok(Some(s))
        } else {
            Err(AcceptError::AuthFailed)
        },
    }
}

impl ParsedHeader {
    /// The header as plain values.
    pub open spec fn view(&self) -> (Seq<char>, u16, Option<Seq<u8>>) {
        (self.target_host@, self.target_port, optional_bytes(self.credential))
    }
}

impl RoutedStream {
    /// The annotations as plain values.
    pub open spec fn view(&self) -> (u8, usize, Seq<char>, u16, Option<Seq<u8>>) {
        (
            self.detected_protocol,
            self.header_len,
            self.target_host@,
            self.target_port,
            optional_bytes(self.authenticated_identity),
        )
    }
}

/// The routed stream, or the refusal, that follows from what the selected
/// variant's parser made of the preamble. A preamble that does not parse is
/// refused like a wrong credential; no other variant is tried.
pub open spec fn authorize_outcome(
    secret: Option<Seq<u8>>,
    variant: (u8, Seq<u8>, usize),
    header: Option<(Seq<char>, u16, Option<Seq<u8>>)>,
) -> Result<(u8, usize, Seq<char>, u16, Option<Seq<u8>>), AcceptError> {
    match header {
        None => Err(AcceptError::AuthFailed),
        Some(h) => match authentication_outcome(secret, h.2) {
            Ok(identity) => Ok((variant.0, variant.2, h.0, h.1, identity)),
            Err(e) => Err(e),
        },
    }
}

/// A parser's result as plain values.
pub open spec fn optional_header(header: Option<ParsedHeader>) -> Option<
    (Seq<char>, u16, Option<Seq<u8>>),
> {
    match header {
        Some(h) => Some(h@),
        None => None,
    }
}

/// How many bytes of a fixed preamble are still to be read.
pub open spec fn missing_bytes(preamble_len: usize, buffered: usize) -> usize {
    if buffered >= preamble_len {
        0
    } else {
        (preamble_len - buffered) as usize
    }
}

/// Whether to go on reading a preamble: a complete one needs nothing more,
/// an incomplete one is read on while the peer is there, and is given up as
/// unparsable when the peer has closed, or as timed out.
pub open spec fn preamble_outcome(preamble_len: usize, buffered: usize, status: ReadStatus) -> Result<
    usize,
    AcceptError,
> {
    if buffered >= preamble_len {
        Ok(0)
    } else {
        match status {
            ReadStatus::Open => Ok(missing_bytes(preamble_len, buffered)),
            ReadStatus::Closed => Err(AcceptError::AuthFailed),
            ReadStatus::TimedOut => Err(AcceptError::Timeout),
        }
    }
}

/// What an authorization result holds, as plain values.
pub open spec fn authorized_view(r: Result<RoutedStream, AcceptError>) -> Result<
    (u8, usize, Seq<char>, u16, Option<Seq<u8>>),
    AcceptError,
> {
    match r {
        Ok(s) => Ok(s@),
        Err(e) => Err(e),
    }
}

impl Acceptor {
    /// The acceptor that an inbound configuration describes.
    pub fn new(inbound_config: &InboundConfig) -> (r: Acceptor)
        ensures
            r.tls == inbound_config.tls,
            r.detect_budget == inbound_config.detect_budget,
            r.protocols@ == inbound_config.protocol@,
            optional_bytes(r.secret) == optional_text_bytes(inbound_config.secret),
    {
        let secret = match &inbound_config.secret {
            Some(s) => Some(vstd::slice::slice_to_vec(s.as_str().as_bytes())),
            None => None,
        };
        Acceptor {
            tls: inbound_config.tls,
            secret,
            protocols: inbound_config.protocol.duplicate(),
            detect_budget: inbound_config.detect_budget,
        }
    }

    /// Judges the handshake stage. An endpoint without TLS has none; one
    /// with TLS goes on only after a completed handshake and never falls
    /// back to plaintext.
    pub fn after_handshake(&self, outcome: Option<HandshakeOutcome>) -> (r: Result<(), AcceptError>)
        ensures
            r == handshake_outcome(self.tls, outcome),
    {
        if !self.tls {
            Ok(())
        } else {
            match outcome {
                Some(HandshakeOutcome::Completed) => Ok(()),
                _ => Err(AcceptError::TlsHandshakeFailed),
            }
        }
    }

    /// Classifies a stream by all the bytes read from it so far.
    pub fn classify(&self, bytes: &[u8], status: ReadStatus) -> (r: Result<
        Classification,
        AcceptError,
    >)
        ensures
            r == classification_outcome(
                detect_from(self.protocols.signatures(), bytes@, self.detect_budget as nat, 0),
                status,
            ),
            r matches Ok(Classification::Selected(i)) ==> i < self.protocols.variants@.len(),
    {
        match self.protocols.detect(bytes, self.detect_budget) {
            Detection::Recognized(i) => Ok(Classification::Selected(i)),
            Detection::Unrecognized => Err(AcceptError::ProtocolUnrecognized),
            Detection::Incomplete => match status {
                ReadStatus::Open => Ok(Classification::ReadMore),
                ReadStatus::Closed => Err(AcceptError::ProtocolUnrecognized),
                ReadStatus::TimedOut => Err(AcceptError::Timeout),
            },
        }
    }

    /// The number of bytes of the selected variant's fixed preamble that are
    /// still to be read when `buffered` bytes are in hand.
    pub fn preamble_missing(&self, index: usize, buffered: usize) -> (r: usize)
        requires
            index < self.protocols.variants@.len(),
        ensures
            r == missing_bytes(self.protocols@[index as int].2, buffered),
    {
        let needed: usize = self.protocols.variants[index].preamble_len;
        if buffered >= needed {
            0
        } else {
            needed - buffered
        }
    }

    /// Decides whether the preamble of the selected variant is complete and,
    /// if not, whether reading goes on. Bytes already read are kept.
    pub fn await_preamble(&self, index: usize, buffered: usize, status: ReadStatus) -> (r: Result<
        usize,
        AcceptError,
    >)
        requires
            index < self.protocols.variants@.len(),
        ensures
            r == preamble_outcome(self.protocols@[index as int].2, buffered, status),
    {
        let missing: usize = self.preamble_missing(index, buffered);
        if missing == 0 {
            Ok(0)
        } else {
            match status {
                ReadStatus::Open => Ok(missing),
                ReadStatus::Closed => Err(AcceptError::AuthFailed),
                ReadStatus::TimedOut => Err(AcceptError::Timeout),
            }
        }
    }

    /// Checks the credential of a parsed header against the configured
    /// secret and, if it passes, annotates the stream.
    pub fn authorize(&self, index: usize, parsed: Option<ParsedHeader>) -> (r: Result<
        RoutedStream,
        AcceptError,
    >)
        requires
            index < self.protocols.variants@.len(),
        ensures
            authorized_view(r) == authorize_outcome(
                optional_bytes(self.secret),
                self.protocols@[index as int],
                optional_header(parsed),
            ),
    {
        let header = match parsed {
            Some(h) => h,
            None => { return Err(AcceptError::AuthFailed); },
        };
        let protocol: u8 = self.protocols.variants[index].id;
        let header_len: usize = self.protocols.variants[index].preamble_len;
        let identity = match &self.secret {
            None => None,
            Some(secret) => {
                let presented = match &header.credential {
                    Some(c) => constant_time_eq(secret.as_slice(), c.as_slice()),
                    None => false,
                };
                if !presented {
                    return Err(AcceptError::AuthFailed);
                }
                Some(vstd::slice::slice_to_vec(secret.as_slice()))
            },
        };
        Ok(
            RoutedStream {
                detected_protocol: protocol,
                header_len,
                target_host: header.target_host,
                target_port: header.target_port,
                authenticated_identity: identity,
            },
        )
    }
}

/// With a secret configured, a header whose credential is missing or differs
/// from the secret is refused with `AuthFailed`, whatever else it holds.
pub proof fn wrong_credential_is_refused(
    secret: Seq<u8>,
    variant: (u8, Seq<u8>, usize),
    header: (Seq<char>, u16, Option<Seq<u8>>),
)
    requires
        header.2 != Some(secret),
    ensures
        authorize_outcome(Some(secret), variant, Some(header)) == Err::<
            (u8, usize, Seq<char>, u16, Option<Seq<u8>>),
            _,
        >(AcceptError::AuthFailed),
{
}

/// A stream that starts with no registered signature is never selected: it
/// is refused as unrecognised once the byte budget is used up or the peer
/// has closed, and it times out only below the budget.
pub proof fn unmatched_stream_is_never_selected(
    signatures: Seq<Seq<u8>>,
    bytes: Seq<u8>,
    budget: nat,
    status: ReadStatus,
)
    requires
        signatures.len() <= usize::MAX,
        forall|j: int| 0 <= j < signatures.len() ==> !(#[trigger] signatures[j]).is_prefix_of(bytes),
    ensures
        !(classification_outcome(detect_from(signatures, bytes, budget, 0), status) matches Ok(
            Classification::Selected(_),
        )),
        (bytes.len() >= budget || status == ReadStatus::Closed) ==> classification_outcome(
            detect_from(signatures, bytes, budget, 0),
            status,
        ) == Err::<Classification, _>(AcceptError::ProtocolUnrecognized),
{
    crate::proxy::base::unmatched_stream_is_refused(signatures, bytes, budget, 0);
    match detect_from(signatures, bytes, budget, 0) {
        Detection::Recognized(i) => {
            crate::proxy::base::recognized_is_first_match(signatures, bytes, budget, 0, i);
        },
        _ => {},
    }
}

} // verus!
