//! Protocol engine: builds requests, submits them through the transport
//! collaborator, validates responses, and decrypts returned entries. Each
//! operation is one round trip, with no retry and no shared state between
//! calls.

use vstd::prelude::*;

verus! {

use crate::entries::{Entry, raw_entry_ok, raw_entry_err, entry_matches, decrypt_entries};
use crate::errors::Error;
use crate::messages::{
    AssociateRequest, AssociateResponse, Config, GetLoginsRequest, GetLoginsResponse,
    TestAssociateRequest, TestAssociateResponse, associate_req_wf, config_key_err, config_key_wf,
};
use vstd::string::StringSliceAdditionalSpecFns;

/// The transport collaborator: one JSON round trip to the fixed local
/// endpoint per call. An implementation marshals the typed request, posts
/// it, and parses the typed response; on failure it returns a diagnostic
/// that tells an unreachable service from a non-success status. Nothing is
/// assumed of what it returns.
pub trait Transport {
    /// One round trip carrying a test-associate request.
    fn test_associate(&mut self, req: &TestAssociateRequest) -> Result<
        TestAssociateResponse,
        String,
    >;

    /// One round trip carrying an association request.
    fn associate(&mut self, req: &AssociateRequest) -> Result<AssociateResponse, String>;

    /// One round trip carrying a get-logins request.
    fn get_logins(&mut self, req: &GetLoginsRequest) -> Result<GetLoginsResponse, String>;
}

/// Asks the service whether the stored association is still valid. Builds a
/// fresh-nonce request from the config, submits it once, and reports the
/// service's success flag; no response content is decrypted.
pub fn test_associate<T: Transport>(transport: &mut T, config: &Config) -> (r: Result<bool, Error>)
    ensures
        !config_key_wf(*config) ==> (r matches Err(e) && e == config_key_err(*config)),
        r matches Err(e) ==> config_key_wf(*config) ==> e is TransportError,
        r is Ok ==> config_key_wf(*config),
{
    let req = match TestAssociateRequest::new(config) {
        Ok(req) => req,
        Err(e) => {
            return Err(e);
        },
    };
    match transport.test_associate(&req) {
        Ok(resp) => Ok(resp.success),
        Err(m) => Err(Error::TransportError(m)),
    }
}

/// Pairs the freshly generated secret of an association request with the
/// identity the service returned, forming the new session config; the
/// service declining, or answering success without an identity, is an
/// association failure.
pub fn associate_outcome(req: &AssociateRequest, resp: &AssociateResponse) -> (r: Result<
    Config,
    Error,
>)
    ensures
        r is Ok <==> resp.success && resp.id is Some,
        r matches Ok(c) ==> c.key@ == req.key@ && (resp.id matches Some(i) && c.id@ == i@),
        r matches Err(e) ==> e == Error::AssociationError,
{
    if resp.success {
        match &resp.id {
            Some(i) => Ok(Config { key: req.key.as_str().to_owned(), id: i.as_str().to_owned() }),
            None => Err(Error::AssociationError),
        }
    } else {
        Err(Error::AssociationError)
    }
}

/// Establishes a brand-new association: generates a fresh credential secret
/// and nonce, submits the request once, and on success returns the new
/// session config, whose stored secret is always well-formed.
pub fn associate<T: Transport>(transport: &mut T) -> (r: Result<Config, Error>)
    ensures
        r matches Ok(c) ==> config_key_wf(c),
        r matches Err(e) ==> e is TransportError || e is AssociationError,
{
    let req = AssociateRequest::new();
    let resp = match transport.associate(&req) {
        Ok(resp) => resp,
        Err(m) => {
            return Err(Error::TransportError(m));
        },
    };
    let r = associate_outcome(&req, &resp);
    proof {
        let (k, n) = choose|k: Seq<u8>, n: Seq<u8>|
            k.len() == 32 && n.len() == 16 && #[trigger] associate_req_wf(req, k, n);
        assert(r matches Ok(c) ==> config_key_wf(c));
    }
    r
}

/// The lookup-failure text of a get-logins response: the service's error
/// text verbatim, or empty when the service sent none.
pub open spec fn lookup_message(err: Option<String>) -> Seq<char> {
    match err {
        Option::Some(t) => t@,
        Option::None => Seq::empty(),
    }
}

/// Validates a get-logins response and decrypts its entries under the
/// config's secret and the response nonce: a reported failure becomes a
/// lookup error carrying the service's text and no entries; on success every
/// entry is decrypted in order, or the first malformed one fails the whole
/// call.
pub fn handle_get_logins_response(config: &Config, resp: &GetLoginsResponse) -> (r: Result<
    Vec<Entry>,
    Error,
>)
    ensures
        !resp.success ==> (r matches Err(Error::LookupError(m)) && m@ == lookup_message(
            resp.error,
        )),
        resp.success ==> ((r is Ok) <==> (forall|i: int|
            0 <= i < resp.entries@.len() ==> raw_entry_ok(
                #[trigger] resp.entries@[i],
                config.key@,
                resp.nonce@,
            ))),
        r matches Ok(v) ==> resp.success ==> v@.len() == resp.entries@.len() && (forall|i: int|
            0 <= i < resp.entries@.len() ==> entry_matches(
                v@[i],
                #[trigger] resp.entries@[i],
                config.key@,
                resp.nonce@,
            )),
        r matches Err(e) ==> resp.success ==> exists|i: int|
            0 <= i < resp.entries@.len() && !raw_entry_ok(
                #[trigger] resp.entries@[i],
                config.key@,
                resp.nonce@,
            ) && e == raw_entry_err(resp.entries@[i], config.key@, resp.nonce@),
{
    if !resp.success {
        let msg = match &resp.error {
            Some(t) => t.as_str().to_owned(),
            None => {
                proof {
                    reveal_strlit("");
                }
                "".to_owned()
            },
        };
        proof {
            assert(msg@ =~= lookup_message(resp.error));
        }
        return Err(Error::LookupError(msg));
    }
    decrypt_entries(&resp.entries, config.key.as_str(), resp.nonce.as_str())
}

/// Looks up credential entries for a target: builds a fresh-nonce request
/// with the target encrypted under (secret, nonce), submits it once, and on
/// success returns the decrypted entries in the order the service sent them.
pub fn get_logins<T: Transport>(transport: &mut T, config: &Config, url: &str) -> (r: Result<
    Vec<Entry>,
    Error,
>)
    requires
        url.spec_bytes().len() + 16 <= usize::MAX / 4,
    ensures
        !config_key_wf(*config) ==> (r matches Err(e) && e == config_key_err(*config)),
        r matches Err(e) ==> !(e is AssociationError),
        r is Ok ==> config_key_wf(*config),
{
    let req = match GetLoginsRequest::new(config, url) {
        Ok(req) => req,
        Err(e) => {
            return Err(e);
        },
    };
    let resp = match transport.get_logins(&req) {
        Ok(resp) => resp,
        Err(m) => {
            return Err(Error::TransportError(m));
        },
    };
    handle_get_logins_response(config, &resp)
}

} // verus!
