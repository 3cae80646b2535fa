//! The report session: builds the protocol packets of one publish cycle
//! (connect, publish, disconnect), assembles topics, and decides how a
//! server response moves the login along.
//!
//! Packet encoding and decoding come from the mqtt_tiny codec behind
//! trusted items; the decisions around them are verified. Transport I/O
//! stays with the caller, which hands received bytes in and sends built
//! packets out.

use crate::buffer::{MqttBuffer, MQTT_BUF_SIZE};
use vstd::prelude::*;

verus! {

/// The bytes of a connect packet with the given keep-alive, clean-session
/// flag, client identifier and optional credentials.
pub uninterp spec fn connect_encoding(
    keep_alive_secs: u16,
    clean_session: bool,
    client_id: Seq<u8>,
    credentials: Option<(Seq<u8>, Seq<u8>)>,
) -> Seq<u8>;

/// Relies on mqtt_tiny's `Connect::new`, `Connect::with_username_password`
/// and the packet's `IntoIterator` encoder: the bytes depend on the fields
/// alone. The encoder panics on fields longer than a 16-bit length, so
/// those are excluded.
#[verifier::external_body]
fn encode_connect(
    keep_alive_secs: u16,
    clean_session: bool,
    client_id: &[u8],
    credentials: Option<(&[u8], &[u8])>,
) -> (r: Option<Vec<u8>>)
    requires
        client_id@.len() <= u16::MAX,
        credentials matches Some(c) ==> c.0@.len() <= u16::MAX && c.1@.len() <= u16::MAX,
    ensures
        r matches Some(v) ==> v@ == connect_encoding(
            keep_alive_secs,
            clean_session,
            client_id@,
            match credentials {
                Some(c) => Some((c.0@, c.1@)),
                None => None,
            },
        ),
{
    let packet = mqtt_tiny::packets::connect::Connect::<Vec<u8>>::new(
        keep_alive_secs,
        clean_session,
        client_id,
    );
    let packet = match credentials {
        Some((username, password)) => {
            packet.and_then(|p| p.with_username_password(username, password))
        },
        None => packet,
    };
    packet.ok().map(|p| p.into_iter().collect())
}

/// The bytes of a publish packet with the given topic, payload and retain
/// flag, at quality-of-service zero.
pub uninterp spec fn publish_encoding(topic: Seq<u8>, payload: Seq<u8>, retain: bool) -> Seq<u8>;

/// Relies on mqtt_tiny's `Publish::new` and the packet's `IntoIterator`
/// encoder: the bytes depend on the fields alone. The encoder panics on
/// fields longer than a 16-bit length, so those are excluded.
#[verifier::external_body]
fn encode_publish(topic: &[u8], payload: &[u8], retain: bool) -> (r: Option<Vec<u8>>)
    requires
        topic@.len() <= u16::MAX,
        payload@.len() <= u16::MAX,
    ensures
        r matches Some(v) ==> v@ == publish_encoding(topic@, payload@, retain),
{
    let packet = match mqtt_tiny::packets::publish::Publish::<Vec<u8>>::new(
        topic,
        payload,
        retain,
    ) {
        Ok(packet) => packet,
        Err(_) => return None,
    };
    Some(packet.into_iter().collect())
}

/// Relies on mqtt_tiny's `Disconnect` encoder: a disconnect packet is the
/// fixed two bytes `0xE0 0x00` (packet type fourteen, zero flags, zero
/// body length).
#[verifier::external_body]
fn encode_disconnect() -> (r: Vec<u8>)
    ensures
        r@ == seq![0xE0u8, 0x00u8],
{
    mqtt_tiny::packets::disconnect::Disconnect::new().into_iter().collect()
}

/// What decoding a connect acknowledgement from the received bytes gave.
#[derive(Clone, Copy, Debug, PartialEq, Eq, Structural)]
pub enum ConnackOutcome {
    /// A complete acknowledgement: whether a previous session is present,
    /// and the server's return code.
    Response { session_present: bool, return_code: u8 },
    /// The bytes end before the packet does.
    Truncated,
    /// The bytes violate the protocol.
    Malformed,
}

/// Relies on mqtt_tiny's `Connack::try_from_iter` and the `Connack` field
/// getters: decodes one acknowledgement from the front of the bytes and
/// reports how many bytes were left unread.
#[verifier::external_body]
fn decode_connack(bytes: &[u8]) -> (r: (ConnackOutcome, usize))
    ensures
        r.1 <= bytes@.len(),
{
    let mut iter = bytes.iter();
    let outcome = match <mqtt_tiny::packets::connack::Connack as mqtt_tiny::packets::TryFromIterator>::try_from_iter(
        iter.by_ref().copied(),
    ) {
        Ok(packet) => ConnackOutcome::Response {
            session_present: packet.session_present(),
            return_code: packet.return_code(),
        },
        Err(e) => match e.variant {
            mqtt_tiny::error::Decoding::Truncated => ConnackOutcome::Truncated,
            mqtt_tiny::error::Decoding::SpecViolation => ConnackOutcome::Malformed,
            mqtt_tiny::error::Decoding::Memory => ConnackOutcome::Malformed,
        },
    };
    (outcome, iter.len())
}

/// The credentials a login sends: the username and password as configured,
/// or none at all when both are empty.
pub open spec fn wanted_credentials(username: Seq<u8>, password: Seq<u8>) -> Option<
    (Seq<u8>, Seq<u8>),
> {
    if username.len() + password.len() > 0 {
        Some((username, password))
    } else {
        None
    }
}

/// Builds the login request: a clean-session connect packet under the given
/// client identifier, with the credentials exactly when one of username and
/// password is configured. Yields nothing only if the codec could not build
/// the packet.
pub fn login_packet(
    keep_alive_secs: u16,
    client_id: &[u8],
    username: &[u8],
    password: &[u8],
) -> (r: Option<Vec<u8>>)
    requires
        client_id@.len() <= u16::MAX,
        username@.len() <= u16::MAX,
        password@.len() <= u16::MAX,
    ensures
        r matches Some(v) ==> v@ == connect_encoding(
            keep_alive_secs,
            true,
            client_id@,
            wanted_credentials(username@, password@),
        ),
{
    if username.len() > 0 || password.len() > 0 {
        encode_connect(keep_alive_secs, true, client_id, Some((username, password)))
    } else {
        encode_connect(keep_alive_secs, true, client_id, None)
    }
}

/// How the login proceeds after a decode of the received bytes.
#[derive(Clone, Copy, Debug, PartialEq, Eq, Structural)]
pub enum LoginStep {
    /// The server accepted the login; the session is established.
    Established { session_present: bool },
    /// The acknowledgement is still incomplete: read more bytes and retry.
    NeedMoreData,
    /// The server refused the login with this nonzero return code.
    Refused(u8),
    /// The response violates the protocol; the login fails.
    MalformedResponse,
}

/// Decides how a decoded acknowledgement moves the login along: return code
/// zero establishes the session, any other refuses it, truncated bytes ask
/// for more input, and a protocol violation fails.
pub fn login_step(outcome: ConnackOutcome) -> (r: LoginStep)
    ensures
        outcome matches ConnackOutcome::Response { session_present, return_code } ==> ((
        return_code == 0 ==> r == (LoginStep::Established { session_present })) && (return_code
            != 0 ==> r == LoginStep::Refused(return_code))),
        outcome is Truncated ==> r == LoginStep::NeedMoreData,
        outcome is Malformed ==> r == LoginStep::MalformedResponse,
{
    match outcome {
        ConnackOutcome::Response { session_present, return_code } => {
            if return_code == 0 {
                LoginStep::Established { session_present }
            } else {
                LoginStep::Refused(return_code)
            }
        },
        ConnackOutcome::Truncated => LoginStep::NeedMoreData,
        ConnackOutcome::Malformed => LoginStep::MalformedResponse,
    }
}

/// Feeds the buffered received bytes to the acknowledgement decoder,
/// discards exactly the bytes the decoder read, and decides the login step.
pub fn login_on_bytes(recv: &mut MqttBuffer) -> (r: LoginStep)
    requires
        old(recv).wf(),
    ensures
        final(recv).wf(),
        final(recv)@.len() <= old(recv)@.len(),
        r is NeedMoreData ==> final(recv)@ == old(recv)@,
{
    let (outcome, unread) = decode_connack(recv.as_bytes());
    match outcome {
        ConnackOutcome::Truncated => LoginStep::NeedMoreData,
        _ => {
            let total = recv.len();
            recv.consume(total - unread);
            login_step(outcome)
        },
    }
}

/// A topic sequence with its leading separators removed.
pub open spec fn trim_leading_slashes(s: Seq<u8>) -> Seq<u8>
    decreases s.len(),
{
    if s.len() > 0 && s[0] == 47 {
        trim_leading_slashes(s.drop_first())
    } else {
        s
    }
}

/// A topic sequence with its trailing separators removed.
pub open spec fn trim_trailing_slashes(s: Seq<u8>) -> Seq<u8>
    decreases s.len(),
{
    if s.len() > 0 && s.last() == 47 {
        trim_trailing_slashes(s.drop_last())
    } else {
        s
    }
}

/// The full topic of a publish: the configured prefix and the message topic
/// joined by exactly one separator.
pub open spec fn full_topic(prefix: Seq<u8>, topic: Seq<u8>) -> Seq<u8> {
    trim_trailing_slashes(prefix) + seq![47u8] + trim_leading_slashes(topic)
}

/// Joins the configured prefix and a message topic with exactly one
/// separator, if the result fits the buffer capacity.
pub fn assemble_topic(prefix: &[u8], topic: &[u8]) -> (r: Option<MqttBuffer>)
    ensures
        r is Some <==> full_topic(prefix@, topic@).len() <= MQTT_BUF_SIZE,
        r matches Some(b) ==> b@ == full_topic(prefix@, topic@) && b.wf(),
{
    let mut end: usize = prefix.len();
    proof {
        assert(prefix@.take(prefix@.len() as int) =~= prefix@);
    }
    while end > 0 && prefix[end - 1] == 47
        invariant
            end <= prefix@.len(),
            trim_trailing_slashes(prefix@) == trim_trailing_slashes(prefix@.take(end as int)),
        decreases end,
    {
        proof {
            assert(prefix@.take(end as int).drop_last() =~= prefix@.take(end as int - 1));
        }
        end = end - 1;
    }
    proof {
        assert(trim_trailing_slashes(prefix@) == prefix@.take(end as int));
    }
    let mut start: usize = 0;
    proof {
        assert(topic@.skip(0) =~= topic@);
    }
    while start < topic.len() && topic[start] == 47
        invariant
            start <= topic@.len(),
            trim_leading_slashes(topic@) == trim_leading_slashes(topic@.skip(start as int)),
        decreases topic@.len() - start,
    {
        proof {
            assert(topic@.skip(start as int).drop_first() =~= topic@.skip(start as int + 1));
        }
        start = start + 1;
    }
    proof {
        assert(trim_leading_slashes(topic@) == topic@.skip(start as int));
    }
    if end > MQTT_BUF_SIZE || 1 > MQTT_BUF_SIZE - end || topic.len() - start > MQTT_BUF_SIZE - end
        - 1 {
        return None;
    }
    let mut out: Vec<u8> = Vec::new();
    let mut i: usize = 0;
    while i < end
        invariant
            i <= end <= prefix@.len(),
            out@ == prefix@.take(end as int).take(i as int),
        decreases end - i,
    {
        out.push(prefix[i]);
        i = i + 1;
        proof {
            assert(out@ =~= prefix@.take(end as int).take(i as int));
        }
    }
    proof {
        assert(prefix@.take(end as int).take(end as int) =~= prefix@.take(end as int));
    }
    out.push(47);
    let mut j: usize = start;
    while j < topic.len()
        invariant
            start <= j <= topic@.len(),
            out@ == prefix@.take(end as int) + seq![47u8] + topic@.subrange(
                start as int,
                j as int,
            ),
        decreases topic@.len() - j,
    {
        out.push(topic[j]);
        j = j + 1;
        proof {
            assert(out@ =~= prefix@.take(end as int) + seq![47u8] + topic@.subrange(
                start as int,
                j as int,
            ));
        }
    }
    proof {
        assert(topic@.subrange(start as int, topic@.len() as int) =~= topic@.skip(start as int));
        assert(out@ =~= full_topic(prefix@, topic@));
    }
    Some(MqttBuffer::from_bytes(out.as_slice()))
}

/// Builds one publish packet for the session: the message goes out under
/// the joined topic, not retained, at quality-of-service zero. Yields
/// nothing if the joined topic does not fit its buffer or its length field,
/// if the payload does not fit its length field, or if the codec could not
/// build the packet.
pub fn publish_packet(prefix: &[u8], topic: &[u8], payload: &[u8]) -> (r: Option<Vec<u8>>)
    ensures
        r matches Some(v) ==> v@ == publish_encoding(full_topic(prefix@, topic@), payload@, false),
{
    let joined = match assemble_topic(prefix, topic) {
        Some(joined) => joined,
        None => return None,
    };
    if payload.len() > 65535 {
        return None;
    }
    encode_publish(joined.as_bytes(), payload, false)
}

/// Builds the disconnect packet that ends the session.
pub fn disconnect_packet() -> (r: Vec<u8>)
    ensures
        r@ == seq![0xE0u8, 0x00u8],
{
    encode_disconnect()
}

} // verus!
