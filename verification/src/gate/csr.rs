use crate::command::structure::GenerateArgs;
use crate::error::CoralGateError;
use crate::gate::clock::{is_utc_stamp, utc_now_rfc3339};
use crate::gate::keys::{
    crypto_error_text, empty_subject, generate_rsa, key_opening, pem_subject, private_key_pem,
    request_opening, request_params, request_pem, sign_request, subject_entries, subject_for,
    subject_push, PlanView, PrivateKeyPem, RequestPem, RequestPlan, RsaBits, RsaDigest,
    SubjectField,
};
use crate::gate::poll::{
    poll_next, poll_start, FetchOutcome, Outcome, PollAction, PollEvent, PollPolicy,
    PollState,
};
use crate::gate::text::{join2, opens_with, opt_text, texts};
use vstd::prelude::*;
use vstd::string::*;

verus! {

/// A certificate request and the private key it was signed with, both in
/// PEM, with the plan that they were made to.
#[derive(Clone, Debug)]
pub struct GeneratedCsrWithPem {
    pub csr_pem: String,
    pub key_pem: String,
    pub plan: RequestPlan,
}

/// One condition in the status of a signing request.
#[derive(Clone, Debug)]
pub struct CsrCondition {
    pub type_: String,
    pub status: String,
    pub reason: String,
    pub message: String,
    pub last_update_time: String,
}

/// What the cluster has said of a signing request so far.
#[derive(Clone, Debug)]
pub struct CsrStatus {
    pub conditions: Vec<CsrCondition>,
    /// The signed certificate, once the signer has issued it.
    pub certificate: Option<Vec<u8>>,
}

/// A signing request as the cluster holds it.
#[derive(Clone, Debug)]
pub struct CsrRecord {
    pub name: Option<String>,
    /// The labels, ordered by key, no key twice.
    pub labels: Option<Vec<(String, String)>>,
    /// The certificate request, in PEM.
    pub request: Vec<u8>,
    pub signer_name: String,
    pub usages: Option<Vec<String>>,
    pub expiration_seconds: Option<i32>,
    pub status: Option<CsrStatus>,
}

/// The labels as pairs of texts.
pub open spec fn label_texts(labels: Seq<(String, String)>) -> Seq<(Seq<char>, Seq<char>)> {
    Seq::new(labels.len(), |i: int| (labels[i].0@, labels[i].1@))
}

/// The labels that mark a request made for `user` in `group`, ordered by key.
pub open spec fn labels_for(user: Seq<char>, group: Seq<char>) -> Seq<(Seq<char>, Seq<char>)> {
    seq![("created-by"@, "coralgate"@), ("group"@, group), ("user"@, user)]
}

/// The name of the signing request of `user`.
pub open spec fn csr_name(user: Seq<char>) -> Seq<char> {
    user + "-csr"@
}

/// The signer that issues client certificates for the cluster's API.
pub open spec fn signer() -> Seq<char> {
    "kubernetes.io/kube-apiserver-client"@
}

/// Whether a validity of `expire` hours can be written in seconds.
pub open spec fn expire_in_range(expire: i32) -> bool {
    i32::MIN <= expire * 3600 <= i32::MAX
}

/// Tells whether a validity of `expire` hours can be written in seconds.
pub fn expire_fits(expire: i32) -> (fits: bool)
    ensures
        fits == expire_in_range(expire),
{
    -596523 <= expire && expire <= 596523
}

/// Whether `record` is the request that `generate_cert_sigining_request_object`
/// builds from these arguments and this certificate request.
pub open spec fn is_request_for(
    record: CsrRecord,
    gen_args: GenerateArgs,
    certificates: GeneratedCsrWithPem,
) -> bool {
    &&& opt_text(record.name) == Some(csr_name(gen_args.user@))
    &&& record.labels matches Some(labels) && label_texts(labels@) == labels_for(
        gen_args.user@,
        gen_args.profile.name(),
    )
    &&& record.request@ == vstd::utf8::encode_utf8(certificates.csr_pem@)
    &&& record.signer_name@ == signer()
    &&& record.usages matches Some(usages) && texts(usages@) == seq!["client auth"@]
    &&& record.expiration_seconds == Some((gen_args.expire * 3600) as i32)
    &&& record.status is None
}

/// A path to the connection configuration: `rest`, taken below the directory
/// `home` where one is given.
#[derive(Clone, Debug)]
pub struct KubePath {
    pub home: Option<String>,
    pub rest: String,
}

/// Whether a path begins with the sign that stands for the home directory.
pub open spec fn begins_at_home(path: Seq<char>) -> bool {
    path.len() > 0 && path[0] == '~'
}

/// What follows the home sign, and the separator behind it if there is one.
pub open spec fn below_home(path: Seq<char>) -> Seq<char> {
    if path.len() >= 2 && path[1] == '/' {
        path.subrange(2, path.len() as int)
    } else {
        path.subrange(1, path.len() as int)
    }
}

/// Whether resolving `input_path` needs the home directory.
pub fn needs_home(input_path: &str) -> (b: bool)
    ensures
        b == begins_at_home(input_path@),
{
    input_path.unicode_len() > 0 && input_path.get_char(0) == '~'
}

/// The home directory out of the two variables that may name it: the first
/// where it is set, else the second.
pub fn home_directory(home: Option<String>, user_profile: Option<String>) -> (dir: Option<String>)
    ensures
        dir == if home is Some {
            home
        } else {
            user_profile
        },
{
    match home {
        Some(dir) => Some(dir),
        None => user_profile,
    }
}

/// Resolves a path that may begin at the home directory. A path that does not
/// is kept as it is, and `home` is not looked at.
pub fn resolve_kube_path(input_path: &str, home: Option<String>) -> (path: KubePath)
    requires
        begins_at_home(input_path@) ==> home is Some,
    ensures
        begins_at_home(input_path@) ==> path.home == home && path.rest@ == below_home(
            input_path@,
        ),
        !begins_at_home(input_path@) ==> path.home is None && path.rest@ == input_path@,
{
    if needs_home(input_path) {
        let n = input_path.unicode_len();
        let from: usize = if n >= 2 && input_path.get_char(1) == '/' {
            2
        } else {
            1
        };
        KubePath { home, rest: String::from_str(input_path.substring_char(from, n)) }
    } else {
        KubePath { home: None, rest: String::from_str(input_path) }
    }
}

/// The plan of the request for `user` in `group`: an RSA key of 2048 bits, a
/// signature over SHA-256, the group as organization and the user as common
/// name, and no alternative names.
pub open spec fn plan_for(user: Seq<char>, group: Seq<char>) -> PlanView {
    PlanView {
        digest: RsaDigest::Sha256,
        bits: RsaBits::Bits2048,
        common_name: user,
        organization: group,
        alt_names: Seq::empty(),
    }
}

/// Plans the request for `user` in `group`.
pub fn request_plan(user: &str, group: &str) -> (plan: RequestPlan)
    ensures
        plan@ == plan_for(user@, group@),
        plan.subject_view() == subject_for(user@, group@),
        plan.alt_names@.len() == 0,
{
    let plan = RequestPlan {
        digest: RsaDigest::Sha256,
        bits: RsaBits::Bits2048,
        common_name: String::from_str(user),
        organization: String::from_str(group),
        alt_names: Vec::new(),
    };
    proof {
        assert(plan@.alt_names =~= Seq::<Seq<char>>::empty());
    }
    plan
}

/// The subject that a plan names.
pub fn certificate_subject(plan: &RequestPlan) -> (subject: rcgen::DistinguishedName)
    ensures
        subject_entries(subject) == plan.subject_view(),
{
    let mut subject = empty_subject();
    subject_push(&mut subject, SubjectField::OrganizationName, plan.organization.as_str());
    proof {
        let entries = subject_entries(subject);
        assert(entries =~= seq![(SubjectField::OrganizationName, plan.organization@)]);
        assert forall|i: int| 0 <= i < entries.len() implies (#[trigger] entries[i]).0
            != SubjectField::CommonName by {}
    }
    subject_push(&mut subject, SubjectField::CommonName, plan.common_name.as_str());
    proof {
        assert(subject_entries(subject) =~= plan.subject_view());
    }
    subject
}

/// Puts together what was made to a plan: the text of the key is the key's,
/// the text of the request the request's.
pub fn generated_from(plan: RequestPlan, key: PrivateKeyPem, request: RequestPem) -> (generated:
    GeneratedCsrWithPem)
    ensures
        generated.plan == plan,
        generated.key_pem == key.text,
        generated.csr_pem == request.text,
{
    GeneratedCsrWithPem { csr_pem: request.text, key_pem: key.text, plan }
}

/// Wraps a failure of the key or request library.
fn crypto_error(error: &rcgen::Error) -> (e: CoralGateError)
    ensures
        e is CryptoError,
{
    CoralGateError::CryptoError(crypto_error_text(error))
}

/// Whether `generated` is a key and a request as they come out for `plan`:
/// both are PEM texts of their kind, and the subject written in the request
/// is the one that the plan names.
pub open spec fn made_to(generated: GeneratedCsrWithPem, plan: PlanView) -> bool {
    &&& generated.plan@ == plan
    &&& opens_with(generated.key_pem@, key_opening())
    &&& opens_with(generated.csr_pem@, request_opening())
    &&& pem_subject(generated.csr_pem@) == subject_for(plan.common_name, plan.organization)
}

/// Makes a fresh key and, signed with it, a certificate request, both to
/// `plan`. Fails where the key or the request cannot be made.
pub fn generate_to_plan(plan: RequestPlan) -> (r: Result<GeneratedCsrWithPem, CoralGateError>)
    ensures
        match r {
            Ok(generated) => generated.plan == plan && made_to(generated, plan@),
            Err(error) => error is CryptoError,
        },
{
    let key_pair = match generate_rsa(&plan) {
        Ok(key_pair) => key_pair,
        Err(error) => {
            return Err(crypto_error(&error));
        },
    };
    let key = private_key_pem(&key_pair);
    let params = match request_params(&plan, certificate_subject(&plan)) {
        Ok(params) => params,
        Err(error) => {
            return Err(crypto_error(&error));
        },
    };
    let csr = match sign_request(&params, &key_pair) {
        Ok(csr) => csr,
        Err(error) => {
            return Err(crypto_error(&error));
        },
    };
    match request_pem(&csr) {
        Ok(request) => Ok(generated_from(plan, key, request)),
        Err(error) => Err(crypto_error(&error)),
    }
}

/// Makes a fresh RSA key of 2048 bits and, signed with it over SHA-256, a
/// certificate request whose subject names `group` as organization and `user`
/// as common name, without alternative names. Fails where the key or the
/// request cannot be made.
pub fn generate_certificate(user: &str, group: &str) -> (r: Result<
    GeneratedCsrWithPem,
    CoralGateError,
>)
    ensures
        match r {
            Ok(generated) => made_to(generated, plan_for(user@, group@)) && pem_subject(
                generated.csr_pem@,
            ) == subject_for(user@, group@),
            Err(error) => error is CryptoError,
        },
{
    generate_to_plan(request_plan(user, group))
}

/// The labels that mark a request as made here, for `user` in `group`.
pub fn generate_lables(user: &String, group: &String) -> (labels: Option<Vec<(String, String)>>)
    ensures
        labels matches Some(l) && label_texts(l@) == labels_for(user@, group@),
{
    let mut labels: Vec<(String, String)> = Vec::new();
    labels.push((String::from_str("created-by"), String::from_str("coralgate")));
    labels.push((String::from_str("group"), group.clone()));
    labels.push((String::from_str("user"), user.clone()));
    proof {
        assert(label_texts(labels@) =~= labels_for(user@, group@));
    }
    Some(labels)
}

/// Builds the signing request that is submitted for the credential: named
/// after the user, labelled, asking the API client signer for a client
/// certificate that is valid for the hours given.
pub fn generate_cert_sigining_request_object(
    gen_args: &GenerateArgs,
    certificates: &GeneratedCsrWithPem,
) -> (r: Result<CsrRecord, CoralGateError>)
    requires
        expire_in_range(gen_args.expire),
    ensures
        r matches Ok(record) && is_request_for(record, *gen_args, *certificates),
{
    let group = String::from_str(gen_args.profile.as_str());
    let labels = generate_lables(&gen_args.user, &group);
    let request = certificates.csr_pem.as_str().as_bytes_vec();
    let mut usages: Vec<String> = Vec::new();
    usages.push(String::from_str("client auth"));
    proof {
        assert(texts(usages@) =~= seq!["client auth"@]);
    }
    Ok(
        CsrRecord {
            name: Some(join2(gen_args.user.as_str(), "-csr")),
            labels,
            request,
            signer_name: String::from_str("kubernetes.io/kube-apiserver-client"),
            usages: Some(usages),
            expiration_seconds: Some(gen_args.expire * 3600),
            status: None,
        },
    )
}

/// The merge patch that approves a signing request.
#[derive(Clone, Debug)]
pub struct ApprovalPatch {
    pub api_version: String,
    pub kind: String,
    pub conditions: Vec<CsrCondition>,
}

/// The approval of the signing request called `name`.
#[derive(Clone, Debug)]
pub struct ApprovalRequest {
    pub name: String,
    pub patch: ApprovalPatch,
}

/// Whether `condition` is the approval given at `timestamp`.
pub open spec fn is_approval(condition: CsrCondition, timestamp: Seq<char>) -> bool {
    &&& condition.type_@ == "Approved"@
    &&& condition.status@ == "True"@
    &&& condition.reason@ == "coralgate auto approval, cli usage"@
    &&& condition.message@ == "Approved by coralgate tool"@
    &&& condition.last_update_time@ == timestamp
}

/// Whether `patch` merges the approval given at `timestamp`, and nothing
/// else, into the status of a signing request.
pub open spec fn is_approval_patch(patch: ApprovalPatch, timestamp: Seq<char>) -> bool {
    &&& patch.api_version@ == "certificates.k8s.io/v1"@
    &&& patch.kind@ == "CertificateSigningRequest"@
    &&& patch.conditions.len() == 1
    &&& is_approval(patch.conditions[0], timestamp)
}

/// Whether `patch` merges an approval, and nothing else, that is stamped
/// with a moment in UTC.
pub open spec fn approves_now(patch: ApprovalPatch) -> bool {
    &&& patch.conditions.len() == 1
    &&& is_approval_patch(patch, patch.conditions[0].last_update_time@)
    &&& is_utc_stamp(patch.conditions[0].last_update_time@)
}

/// Whether an error says that a record came back without its name.
pub open spec fn is_missing_name(error: CoralGateError) -> bool {
    error matches CoralGateError::MissingField(field) && field@ == "metadata.name"@
}

/// The patch that approves a signing request at `timestamp`.
pub fn approval_patch(timestamp: String) -> (patch: ApprovalPatch)
    ensures
        is_approval_patch(patch, timestamp@),
{
    let mut conditions: Vec<CsrCondition> = Vec::new();
    conditions.push(
        CsrCondition {
            type_: String::from_str("Approved"),
            status: String::from_str("True"),
            reason: String::from_str("coralgate auto approval, cli usage"),
            message: String::from_str("Approved by coralgate tool"),
            last_update_time: timestamp,
        },
    );
    ApprovalPatch {
        api_version: String::from_str("certificates.k8s.io/v1"),
        kind: String::from_str("CertificateSigningRequest"),
        conditions,
    }
}

/// The approval of a submitted request, given at `timestamp`. It is addressed
/// by the name that the cluster gave the record; a record without one cannot
/// be approved.
pub fn approve_at(created_csr: &CsrRecord, timestamp: String) -> (r: Result<
    ApprovalRequest,
    CoralGateError,
>)
    ensures
        match r {
            Ok(request) => created_csr.name matches Some(name) && request.name@ == name@
                && is_approval_patch(request.patch, timestamp@),
            Err(error) => created_csr.name is None && is_missing_name(error),
        },
{
    match &created_csr.name {
        Some(name) => Ok(ApprovalRequest { name: name.clone(), patch: approval_patch(timestamp) }),
        None => Err(CoralGateError::MissingField(String::from_str("metadata.name"))),
    }
}

/// The approval of a submitted request, given now.
pub fn approve(created_csr: &CsrRecord) -> (r: Result<ApprovalRequest, CoralGateError>)
    ensures
        match r {
            Ok(request) => created_csr.name matches Some(name) && request.name@ == name@
                && approves_now(request.patch),
            Err(error) => created_csr.name is None && is_missing_name(error),
        },
{
    approve_at(created_csr, utc_now_rfc3339())
}

/// What a fetch of the record brought: a certificate where the record came
/// with a status that holds one.
pub open spec fn outcome_of(fetched: Result<CsrRecord, CoralGateError>) -> Outcome {
    match fetched {
        Err(_) => Outcome::Failed,
        Ok(record) => match record.status {
            Some(status) => match status.certificate {
                Some(certificate) => Outcome::Signed(certificate@),
                None => Outcome::Pending,
            },
            None => Outcome::Pending,
        },
    }
}

/// Tells what a fetch of the record brought.
pub fn fetch_outcome(fetched: &Result<CsrRecord, CoralGateError>) -> (outcome: FetchOutcome)
    ensures
        outcome@ == outcome_of(*fetched),
{
    match fetched {
        Err(_) => FetchOutcome::Failed,
        Ok(record) => match &record.status {
            Some(status) => match &status.certificate {
                Some(certificate) => FetchOutcome::Signed(certificate.clone()),
                None => FetchOutcome::Pending,
            },
            None => FetchOutcome::Pending,
        },
    }
}

/// What follows a sleep, or the start, with `left` fetches to make.
fn resume_polling(policy: &PollPolicy, left: u32) -> (r: (PollState, PollAction))
    ensures
        (r.0, r.1@) == crate::gate::poll::resume(*policy, left),
{
    if left > 0 {
        (PollState::Fetching { left }, PollAction::Fetch)
    } else {
        (PollState::CoolingDown, PollAction::Sleep(policy.cooldown_secs))
    }
}

/// Begins the wait for the signed certificate.
pub fn start_polling(policy: &PollPolicy) -> (r: (PollState, PollAction))
    ensures
        (r.0, r.1@) == poll_start(*policy),
{
    resume_polling(policy, policy.max_attempts)
}

/// Takes the wait for the signed certificate one step on: given where it
/// stands and what has happened, says where it stands now and what to do next.
pub fn get_signed_certificate(policy: &PollPolicy, state: PollState, event: PollEvent) -> (r: (
    PollState,
    PollAction,
))
    ensures
        (r.0, r.1@) == poll_next(*policy, state, event@),
{
    match (state, event) {
        (PollState::Fetching { left }, PollEvent::Fetched(FetchOutcome::Signed(certificate))) => (
            PollState::Issued,
            PollAction::Issue(certificate),
        ),
        (PollState::Fetching { left }, PollEvent::Fetched(_)) => {
            let lower: u32 = if left > 0 {
                left - 1
            } else {
                0
            };
            (PollState::Resting { left: lower }, PollAction::Sleep(policy.interval_secs))
        },
        (PollState::Resting { left }, PollEvent::Woke) => resume_polling(policy, left),
        (PollState::CoolingDown, PollEvent::Woke) => (
            PollState::TimedOut,
            PollAction::TimeOut(
                CoralGateError::TimeoutError(
                    String::from_str("Timed out getting signed certificate"),
                ),
            ),
        ),
        (state, _) => (state, PollAction::Wait),
    }
}

} // verus!
