use vstd::prelude::*;
use vstd::string::StringExecFns;

verus! {

/// The stem of every client identity that the consumer presents to a broker.
pub const CLIENT_ID_PREFIX: &'static str = "smart-trailer-consumer";

/// Options with which the consumer connects to its broker.
pub struct ConnectSettings {
    /// Keep-alive interval, in seconds.
    pub keep_alive_secs: u64,
    /// A clean session drops the broker's state for this client; the consumer
    /// keeps it.
    pub clean_session: bool,
    /// Topic of the last-will message that announces an unexpected loss.
    pub will_topic: String,
    pub will_payload: String,
    /// Delivery guarantee of the subscription (1: at least once).
    pub qos: i32,
}

/// Relies on uuid's `Uuid::new_v4` for a random identifier, written by
/// `hyphenated` as 36 characters.
#[verifier::external_body]
fn random_uuid_text() -> (r: String)
    ensures
        r@.len() == 36,
{
    uuid::Uuid::new_v4().hyphenated().to_string()
}

/// The client identity built on `unique`: the fixed stem, a dash, then `unique`.
pub fn client_id_from(unique: &str) -> (r: String)
    ensures
        r@ == CLIENT_ID_PREFIX@ + "-"@ + unique@,
{
    let stem = String::from_str(CLIENT_ID_PREFIX);
    let dashed = stem.concat("-");
    dashed.concat(unique)
}

/// A client identity unique to this process: the fixed stem, a dash, and a
/// fresh random identifier of 36 characters.
pub fn new_client_id() -> (r: String)
    ensures
        exists|u: Seq<char>| u.len() == 36 && r@ == CLIENT_ID_PREFIX@ + "-"@ + u,
{
    let u = random_uuid_text();
    client_id_from(u.as_str())
}

/// The consumer's connection options: a thirty-second keep-alive, a persistent
/// session, a last will on topic `test` that reports the lost connection, and
/// at-least-once delivery.
pub fn consumer_connect_settings() -> (r: ConnectSettings)
    ensures
        r.keep_alive_secs == 30,
        !r.clean_session,
        r.will_topic@ == "test"@,
        r.will_payload@ == "Receiver lost connection"@,
        r.qos == 1,
{
    ConnectSettings {
        keep_alive_secs: 30,
        clean_session: false,
        will_topic: String::from_str("test"),
        will_payload: String::from_str("Receiver lost connection"),
        qos: 1,
    }
}

} // verus!
