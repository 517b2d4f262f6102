use crate::command::structure::GenerateArgs;
use crate::error::CoralGateError;
use crate::gate::client::{trust_bundle, ClientManager};
use crate::gate::csr::{
    approve, expire_in_range, fetch_outcome, generate_cert_sigining_request_object,
    approves_now, get_signed_certificate, is_missing_name,
    is_request_for, outcome_of, start_polling, ApprovalRequest, CsrRecord, GeneratedCsrWithPem,
};
use crate::gate::encoding::{base64_standard, encode_standard};
use crate::gate::poll::{
    poll_next, poll_start, PollAction, PollEvent, PollPolicy, PollState, Signal,
    Step,
};
use vstd::prelude::*;
use vstd::string::*;

verus! {

/// The credential document: one cluster entry with the trust bundle and the
/// endpoint, one context that ties the cluster to the user, and one user
/// entry with the client certificate and the private key.
pub open spec fn kubeconfig_text(
    root_ca: Seq<char>,
    cluster_url: Seq<char>,
    user: Seq<char>,
    cert: Seq<char>,
    key: Seq<char>,
) -> Seq<char> {
    "apiVersion: v1\nkind: Config\nclusters:\n- cluster:\n    certificate-authority-data: "@
        + root_ca + "\n    server: "@ + cluster_url
        + "\n  name: cluster-default\ncontexts:\n- context:\n    cluster: cluster-default\n    user: "@
        + user + "\n  name: "@ + user + "-context\ncurrent-context: "@ + user
        + "-context\nusers:\n- name: "@ + user + "\n  user:\n    client-certificate-data: "@ + cert
        + "\n    client-key-data: "@ + key + "\n"@
}

/// Writes the credential document out of parts that are text already.
pub fn render_kubeconfig(root_ca: &str, cluster_url: &str, user: &str, cert: &str, key: &str) -> (out:
    String)
    ensures
        out@ == kubeconfig_text(root_ca@, cluster_url@, user@, cert@, key@),
{
    let mut out = String::from_str(
        "apiVersion: v1\nkind: Config\nclusters:\n- cluster:\n    certificate-authority-data: ",
    );
    out.append(root_ca);
    out.append("\n    server: ");
    out.append(cluster_url);
    out.append(
        "\n  name: cluster-default\ncontexts:\n- context:\n    cluster: cluster-default\n    user: ",
    );
    out.append(user);
    out.append("\n  name: ");
    out.append(user);
    out.append("-context\ncurrent-context: ");
    out.append(user);
    out.append("-context\nusers:\n- name: ");
    out.append(user);
    out.append("\n  user:\n    client-certificate-data: ");
    out.append(cert);
    out.append("\n    client-key-data: ");
    out.append(key);
    out.append("\n");
    out
}

/// What a credential document is made of.
#[derive(Clone, Debug)]
pub struct IssuedCredential {
    /// The endpoint of the cluster's API.
    pub endpoint: String,
    /// The trust bundle, in base64 already.
    pub trust_bundle: String,
    pub signed_certificate: Vec<u8>,
    pub private_key_pem: String,
    /// The identity that owns the credential.
    pub user: String,
}

impl IssuedCredential {
    /// The document that holds this credential.
    pub open spec fn document_text(self) -> Seq<char> {
        kubeconfig_text(
            self.trust_bundle@,
            self.endpoint@,
            self.user@,
            base64_standard(self.signed_certificate@),
            base64_standard(vstd::utf8::encode_utf8(self.private_key_pem@)),
        )
    }

    /// Writes the document that holds this credential.
    pub fn document(&self) -> (out: String)
        ensures
            out@ == self.document_text(),
    {
        package(
            self.endpoint.as_str(),
            self.trust_bundle.as_str(),
            self.signed_certificate.as_slice(),
            self.private_key_pem.as_str(),
            self.user.as_str(),
        )
    }
}

/// Packages a credential: the signed certificate and the private key are
/// written in base64, the trust bundle is taken as it is.
pub fn package(
    endpoint: &str,
    trust_bundle_b64: &str,
    signed_certificate: &[u8],
    private_key_pem: &str,
    user_identity: &str,
) -> (out: String)
    ensures
        out@ == kubeconfig_text(
            trust_bundle_b64@,
            endpoint@,
            user_identity@,
            base64_standard(signed_certificate@),
            base64_standard(private_key_pem.spec_bytes()),
        ),
{
    let cert = encode_standard(signed_certificate);
    let key = encode_standard(private_key_pem.as_bytes());
    render_kubeconfig(trust_bundle_b64, endpoint, user_identity, cert.as_str(), key.as_str())
}

/// The credential document of `user` for the connection that `manager`
/// holds. It cannot be made before the connection is resolved, nor without a
/// trust anchor.
pub fn credential_document(
    manager: &ClientManager,
    user: &str,
    certificates: &GeneratedCsrWithPem,
    signed_certificate: &[u8],
) -> (r: Result<String, CoralGateError>)
    ensures
        match r {
            Ok(text) => manager.config() matches Some(c) && c.root_cert matches Some(certs)
                && certs.len() > 0 && text@ == kubeconfig_text(
                trust_bundle(certs@),
                c.cluster_url@,
                user@,
                base64_standard(signed_certificate@),
                base64_standard(vstd::utf8::encode_utf8(certificates.key_pem@)),
            ),
            Err(CoralGateError::ClientManagerConfigNotInitialized) => manager.config() is None,
            Err(CoralGateError::ClientManagerRootCaMissing) => manager.config() matches Some(c)
                && (c.root_cert matches Some(certs) ==> certs.len() == 0),
            Err(_) => false,
        },
{
    let root_ca = match manager.root_cert_base64() {
        Ok(text) => text,
        Err(error) => {
            return Err(error);
        },
    };
    let cluster_url = match manager.cluster_url() {
        Ok(url) => url,
        Err(error) => {
            return Err(error);
        },
    };
    Ok(
        package(
            cluster_url.as_str(),
            root_ca.as_str(),
            signed_certificate,
            certificates.key_pem.as_str(),
            user,
        ),
    )
}

/// Where the issuance of a credential stands.
#[derive(Debug)]
pub enum IssuanceState {
    /// The signing request is built, and its submission is under way.
    Built,
    /// The request is submitted, and its approval was asked for.
    ApprovalRequested,
    /// The request is approved, and the signed certificate of the record
    /// called `name` is waited for.
    Polling { name: String, poll: PollState },
    /// The signed certificate was delivered.
    Issued,
    /// The wait for the signed certificate has run out.
    TimedOut,
    /// A stage has failed.
    Failed,
}

/// What the issuance is told of.
#[derive(Debug)]
pub enum IssuanceEvent {
    /// The submission has ended, with the record as the cluster holds it.
    Created(Result<CsrRecord, CoralGateError>),
    /// The approval has ended, with the record as the cluster holds it.
    Approved(Result<CsrRecord, CoralGateError>),
    /// A fetch of the record has ended.
    Fetched(Result<CsrRecord, CoralGateError>),
    /// A sleep has ended.
    Woke,
}

/// What the issuance asks for next.
#[derive(Debug)]
pub enum IssuanceAction {
    /// Create this record in the cluster.
    Submit(CsrRecord),
    /// Merge this approval into the status of the record.
    Approve(ApprovalRequest),
    /// Fetch the record called `name`.
    Fetch { name: String },
    /// Sleep for so many seconds.
    Sleep(u64),
    /// Package this signed certificate; the issuance is over.
    Deliver(Vec<u8>),
    /// Fail with this error; the issuance is over, and what it has left in
    /// the cluster stays there.
    Abort(CoralGateError),
    /// Nothing: the event was not the one awaited.
    Wait,
}

/// Whether `action` asks for the approval, given now, of the record that is
/// called `name`.
pub open spec fn asks_approval(action: IssuanceAction, name: String) -> bool {
    action matches IssuanceAction::Approve(request) && request.name@ == name@ && approves_now(
        request.patch,
    )
}

/// Whether (`next`, `action`) carries the step (`poll`, `step`) of the wait
/// for the certificate of the record called `name`.
pub open spec fn carries(
    next: IssuanceState,
    action: IssuanceAction,
    name: String,
    poll: PollState,
    step: Step,
) -> bool {
    match step {
        Step::Fetch => next == (IssuanceState::Polling { name, poll }) && action
            == (IssuanceAction::Fetch { name }),
        Step::Sleep(secs) => next == (IssuanceState::Polling { name, poll }) && action
            == IssuanceAction::Sleep(secs),
        Step::Wait => next == (IssuanceState::Polling { name, poll }) && action
            == IssuanceAction::Wait,
        Step::Issue(certificate) => {
            &&& next == IssuanceState::Issued
            &&& action matches IssuanceAction::Deliver(delivered)
            &&& delivered@ == certificate
        },
        Step::TimeOut(timeout) => {
            &&& next == IssuanceState::TimedOut
            &&& action matches IssuanceAction::Abort(error)
            &&& error@ == timeout
        },
    }
}

/// Whether the run fails with a record that came back without its name.
pub open spec fn fails_nameless(next: IssuanceState, action: IssuanceAction) -> bool {
    &&& next == IssuanceState::Failed
    &&& action matches IssuanceAction::Abort(error)
    &&& is_missing_name(error)
}

/// One transition of the issuance: submit, then approve, then wait for the
/// certificate. An error of any stage ends the run with that error; a record
/// that comes back without its name ends it too. An event that the state does
/// not await changes nothing.
pub open spec fn handled(
    policy: PollPolicy,
    state: IssuanceState,
    event: IssuanceEvent,
    next: IssuanceState,
    action: IssuanceAction,
) -> bool {
    match (state, event) {
        (IssuanceState::Built, IssuanceEvent::Created(Ok(record))) => match record.name {
            Some(name) => next == IssuanceState::ApprovalRequested && asks_approval(action, name),
            None => fails_nameless(next, action),
        },
        (IssuanceState::Built, IssuanceEvent::Created(Err(error))) => next
            == IssuanceState::Failed && action == IssuanceAction::Abort(error),
        (IssuanceState::ApprovalRequested, IssuanceEvent::Approved(Ok(record))) => match record.name {
            Some(name) => carries(
                next,
                action,
                name,
                poll_start(policy).0,
                poll_start(policy).1,
            ),
            None => fails_nameless(next, action),
        },
        (IssuanceState::ApprovalRequested, IssuanceEvent::Approved(Err(error))) => next
            == IssuanceState::Failed && action == IssuanceAction::Abort(error),
        (IssuanceState::Polling { name, poll }, IssuanceEvent::Fetched(fetched)) => carries(
            next,
            action,
            name,
            poll_next(policy, poll, Signal::Fetched(outcome_of(fetched))).0,
            poll_next(policy, poll, Signal::Fetched(outcome_of(fetched))).1,
        ),
        (IssuanceState::Polling { name, poll }, IssuanceEvent::Woke) => carries(
            next,
            action,
            name,
            poll_next(policy, poll, Signal::Woke).0,
            poll_next(policy, poll, Signal::Woke).1,
        ),
        _ => next == state && action == IssuanceAction::Wait,
    }
}

/// Turns a step of the wait into a step of the issuance.
fn carry(name: String, poll: PollState, action: PollAction) -> (r: (IssuanceState, IssuanceAction))
    ensures
        carries(r.0, r.1, name, poll, action@),
{
    match action {
        PollAction::Fetch => {
            let fetched = name.clone();
            (IssuanceState::Polling { name, poll }, IssuanceAction::Fetch { name: fetched })
        },
        PollAction::Sleep(secs) => (
            IssuanceState::Polling { name, poll },
            IssuanceAction::Sleep(secs),
        ),
        PollAction::Wait => (IssuanceState::Polling { name, poll }, IssuanceAction::Wait),
        PollAction::Issue(certificate) => (IssuanceState::Issued, IssuanceAction::Deliver(certificate)),
        PollAction::TimeOut(error) => (IssuanceState::TimedOut, IssuanceAction::Abort(error)),
    }
}

/// Ends the run for a record that came back without its name.
fn fail_nameless() -> (r: (IssuanceState, IssuanceAction))
    ensures
        fails_nameless(r.0, r.1),
{
    (
        IssuanceState::Failed,
        IssuanceAction::Abort(CoralGateError::MissingField(String::from_str("metadata.name"))),
    )
}

/// Begins the issuance for a certificate request that was made already: the
/// signing request is built and asked to be submitted.
pub fn begin(gen_args: &GenerateArgs, certificates: &GeneratedCsrWithPem) -> (r: (
    IssuanceState,
    IssuanceAction,
))
    requires
        expire_in_range(gen_args.expire),
    ensures
        r.0 == IssuanceState::Built,
        r.1 matches IssuanceAction::Submit(record) && is_request_for(
            record,
            *gen_args,
            *certificates,
        ),
{
    match generate_cert_sigining_request_object(gen_args, certificates) {
        Ok(record) => (IssuanceState::Built, IssuanceAction::Submit(record)),
        Err(error) => (IssuanceState::Failed, IssuanceAction::Abort(error)),
    }
}

/// Takes the issuance of a credential one step on: given where it stands and
/// what has happened, says where it stands now and what to do next.
pub fn handle(policy: &PollPolicy, state: IssuanceState, event: IssuanceEvent) -> (r: (
    IssuanceState,
    IssuanceAction,
))
    ensures
        handled(*policy, state, event, r.0, r.1),
{
    match (state, event) {
        (IssuanceState::Built, IssuanceEvent::Created(Ok(record))) => {
            match approve(&record) {
                Ok(request) => (IssuanceState::ApprovalRequested, IssuanceAction::Approve(request)),
                Err(error) => (IssuanceState::Failed, IssuanceAction::Abort(error)),
            }
        },
        (IssuanceState::Built, IssuanceEvent::Created(Err(error))) => (
            IssuanceState::Failed,
            IssuanceAction::Abort(error),
        ),
        (IssuanceState::ApprovalRequested, IssuanceEvent::Approved(Ok(record))) => {
            match record.name {
                Some(name) => {
                    let (poll, action) = start_polling(policy);
                    carry(name, poll, action)
                },
                None => fail_nameless(),
            }
        },
        (IssuanceState::ApprovalRequested, IssuanceEvent::Approved(Err(error))) => (
            IssuanceState::Failed,
            IssuanceAction::Abort(error),
        ),
        (IssuanceState::Polling { name, poll }, IssuanceEvent::Fetched(fetched)) => {
            let outcome = fetch_outcome(&fetched);
            let (poll, action) = get_signed_certificate(policy, poll, PollEvent::Fetched(outcome));
            carry(name, poll, action)
        },
        (IssuanceState::Polling { name, poll }, IssuanceEvent::Woke) => {
            let (poll, action) = get_signed_certificate(policy, poll, PollEvent::Woke);
            carry(name, poll, action)
        },
        (state, _) => (state, IssuanceAction::Wait),
    }
}

} // verus!
