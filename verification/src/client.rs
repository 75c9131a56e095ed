use vstd::prelude::*;
use vstd::string::StringSliceAdditionalSpecFns;
use crate::encoding::{encode_c_string, encoded, is_c_string};
use crate::error::AdapterError;
use crate::event::{client_events, outcome_view, CallView, ClientEvent, ForeignCall};
use crate::store::{client_store_after_all, SharedState, StoreView};

verus! {

/// A connection handle: the parameters that the engine's connection was made
/// with, in the form in which they cross the boundary. It cannot be
/// duplicated, and nothing changes it after creation.
#[derive(Debug)]
pub struct NakamaClient {
    server_key: Vec<u8>,
    host: Vec<u8>,
    port: u16,
    ssl: bool,
}

/// The mathematical value of a `NakamaClient`: both strings null-terminated.
pub struct ClientView {
    pub server_key: Seq<u8>,
    pub host: Seq<u8>,
    pub port: u16,
    pub ssl: bool,
}

/// The handle that the given parameters make, or `InvalidParameter` where
/// the server key or the host holds a zero byte.
pub open spec fn connection(server_key: Seq<u8>, host: Seq<u8>, port: u16, ssl: bool) -> Result<
    ClientView,
    AdapterError,
> {
    match (encoded(server_key), encoded(host)) {
        (Ok(k), Ok(h)) => Ok(ClientView { server_key: k, host: h, port: port, ssl: ssl }),
        _ => Err(AdapterError::InvalidParameter),
    }
}

/// The authentication request for the given credentials, or
/// `InvalidParameter` where one of the three holds a zero byte.
pub open spec fn auth_request(email: Seq<u8>, password: Seq<u8>, username: Seq<u8>) -> Result<
    CallView,
    AdapterError,
> {
    match (encoded(email), encoded(password), encoded(username)) {
        (Ok(e), Ok(p), Ok(u)) => Ok(
            CallView::AuthenticateEmail { email: e, password: p, username: u },
        ),
        _ => Err(AdapterError::InvalidParameter),
    }
}

/// The view of a handle or an error.
pub open spec fn created_view(r: Result<NakamaClient, AdapterError>) -> Result<
    ClientView,
    AdapterError,
> {
    match r {
        Ok(c) => Ok(c@),
        Err(e) => Err(e),
    }
}

impl View for NakamaClient {
    type V = ClientView;

    closed spec fn view(&self) -> ClientView {
        ClientView { server_key: self.server_key@, host: self.host@, port: self.port, ssl: self.ssl }
    }
}

impl NakamaClient {
    /// Both strings of a handle are null-terminated, always.
    #[verifier::type_invariant]
    spec fn terminated(self) -> bool {
        is_c_string(self.server_key@) && is_c_string(self.host@)
    }

    /// Validates the parameters and makes the handle for them.
    pub fn new(server_key: &str, host: &str, port: u16, ssl: bool) -> (r: Result<
        NakamaClient,
        AdapterError,
    >)
        ensures
            created_view(r) == connection(server_key.spec_bytes(), host.spec_bytes(), port, ssl),
    {
        let key = match encode_c_string(server_key) {
            Ok(k) => k,
            Err(_) => {
                return Err(AdapterError::InvalidParameter);
            },
        };
        let host = match encode_c_string(host) {
            Ok(h) => h,
            Err(_) => {
                return Err(AdapterError::InvalidParameter);
            },
        };
        Ok(NakamaClient { server_key: key, host, port, ssl })
    }

    /// Takes the callbacks that one pump round of the connection delivered,
    /// in the order they fired, and records each in `store`. With nothing
    /// delivered, nothing changes. The handle itself never changes.
    pub fn tick(&mut self, delivered: &Vec<ClientEvent>, store: &mut SharedState)
        ensures
            final(self)@ == old(self)@,
            final(store)@ == client_store_after_all(old(store)@, client_events(delivered@)),
    {
        let mut i: usize = 0;
        while i < delivered.len()
            invariant
                i <= delivered.len(),
                store@ == client_store_after_all(
                    old(store)@,
                    client_events(delivered@).take(i as int),
                ),
            decreases delivered.len() - i,
        {
            store.record_client_event(&delivered[i]);
            proof {
                let evs = client_events(delivered@);
                assert(evs.take(i + 1).drop_last() =~= evs.take(i as int));
                assert(evs.take(i + 1).last() == delivered@[i as int]@);
            }
            i += 1;
        }
        proof {
            let evs = client_events(delivered@);
            assert(evs.take(evs.len() as int) =~= evs);
        }
    }

    /// The server key, null-terminated.
    pub fn server_key(&self) -> (r: &Vec<u8>)
        ensures
            r@ == self@.server_key,
            is_c_string(r@),
    {
        proof {
            use_type_invariant(self);
        }
        &self.server_key
    }

    /// The host, null-terminated.
    pub fn host(&self) -> (r: &Vec<u8>)
        ensures
            r@ == self@.host,
            is_c_string(r@),
    {
        proof {
            use_type_invariant(self);
        }
        &self.host
    }

    /// The port.
    pub fn port(&self) -> (r: u16)
        ensures
            r == self@.port,
    {
        self.port
    }

    /// Whether the connection uses TLS.
    pub fn ssl(&self) -> (r: bool)
        ensures
            r == self@.ssl,
    {
        self.ssl
    }
}

/// Builds the request that authenticates by email on `client`. Completion is
/// never announced here: it shows as a session in the store after a later
/// tick. The handle is left as it was.
pub fn auth_email(client: &mut NakamaClient, email: &str, password: &str, username: &str) -> (r:
    Result<ForeignCall, AdapterError>)
    ensures
        final(client)@ == old(client)@,
        outcome_view(r) == auth_request(
            email.spec_bytes(),
            password.spec_bytes(),
            username.spec_bytes(),
        ),
{
    let email = match encode_c_string(email) {
        Ok(e) => e,
        Err(_) => {
            return Err(AdapterError::InvalidParameter);
        },
    };
    let password = match encode_c_string(password) {
        Ok(p) => p,
        Err(_) => {
            return Err(AdapterError::InvalidParameter);
        },
    };
    let username = match encode_c_string(username) {
        Ok(u) => u,
        Err(_) => {
            return Err(AdapterError::InvalidParameter);
        },
    };
    Ok(ForeignCall::AuthenticateEmail { email, password, username })
}

/// Turns debug logging on for the whole process and hands back the request
/// that tells the engine so. Doing it again changes nothing.
pub fn enable_debug_logs(store: &mut SharedState) -> (r: ForeignCall)
    ensures
        final(store)@ == (StoreView { debug_logs: true, ..old(store)@ }),
        r@ == CallView::EnableDebugLogs,
{
    store.debug_logs = true;
    ForeignCall::EnableDebugLogs
}

} // verus!
