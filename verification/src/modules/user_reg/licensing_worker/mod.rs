//! Local reference backend for licensing flows: license records, device
//! bindings, access tokens, reset requests and an audit log, all in memory.

use crate::cloning::{clone_opt_string, clone_vec};
use crate::digest::{base64_encode_no_pad, base64_no_pad, is_base64_char, sha256, sha256_digest};
use crate::modules::user_reg::auth_licensing_core::domain::{
    device_id_of, masked_form, AccessToken, ActivationOutcome, ActivationRequest,
    AdminResetDecision, AuthError, BoundDeviceSummary, BoundDeviceView, DeviceFingerprint,
    DeviceId, DevicePublicKey, DeviceResetRequest, EntitlementStatus, FingerprintView,
    LicenseKey, MaskedLicenseKey, ResetRequestId, ValidationOutcome, ValidationView,
};
use crate::modules::user_reg::auth_licensing_core::state::{status_request_id, DeviceResetStatus};
use crate::text::{decimal, i64_to_string, is_ws, lemma_trim_noop, opt_text};
use vstd::hash_map::StringHashMap;
use vstd::prelude::*;
use vstd::utf8::encode_utf8;

verus! {

/// The stored hash of a secret: unpadded base64 of the SHA-256 of its UTF-8.
pub open spec fn hash_of(value: Seq<char>) -> Seq<char> {
    base64_no_pad(sha256(encode_utf8(value)))
}

/// The access token issued for a license hash, a device and an instant.
pub open spec fn token_text(license_hash: Seq<char>, device_id: Seq<char>, ts: i64) -> Seq<char> {
    "tok_"@ + hash_of(license_hash + ":"@ + device_id + ":"@ + decimal(ts as int))
}

/// The text a reset request's identifier is derived from: the license key,
/// else the masked key, else `unknown`.
pub open spec fn reset_key_text(request: DeviceResetRequest) -> Seq<char> {
    match request.license_key {
        Some(k) => k@,
        None => match request.masked_license_key {
            Some(m) => m@,
            None => "unknown"@,
        },
    }
}

/// The identifier of a reset request: `reset_` and the first sixteen
/// characters of the hash of key, purchaser email and timestamp.
pub open spec fn reset_id_text(request: DeviceResetRequest) -> Seq<char> {
    "reset_"@ + hash_of(
        reset_key_text(request) + ":"@ + request.purchaser_email@ + ":"@ + decimal(
            request.timestamp_ms as int,
        ),
    ).subrange(0, 16)
}

proof fn lemma_base64_not_ws(c: char)
    requires
        is_base64_char(c),
    ensures
        !is_ws(c),
{
}

fn hash_secret(value: &str) -> (r: String)
    ensures
        r@ == hash_of(value@),
        r@.len() == 43,
        forall|i: int| 0 <= i < r@.len() ==> is_base64_char(#[trigger] r@[i]),
{
    let digest = sha256_digest(value.as_bytes());
    base64_encode_no_pad(digest.as_slice())
}

fn issue_token(license_hash: &str, device_id: &str, timestamp_ms: i64) -> (r: AccessToken)
    ensures
        r@ == token_text(license_hash@, device_id@, timestamp_ms),
        r@.len() == TOKEN_LEN,
{
    let material = String::from_str(license_hash).concat(":").concat(device_id).concat(":").concat(
        i64_to_string(timestamp_ms).as_str(),
    );
    let hash = hash_secret(material.as_str());
    let text = String::from_str("tok_").concat(hash.as_str());
    proof {
        reveal_strlit("tok_");
        reveal_strlit(":");
        assert(material@ == license_hash@ + ":"@ + device_id@ + ":"@ + decimal(
            timestamp_ms as int,
        ));
        assert(text@[0] == 't');
        assert(text@[text@.len() - 1] == hash@[42]);
        lemma_base64_not_ws(hash@[42]);
        lemma_trim_noop(text@);
    }
    AccessToken::new(text.as_str()).unwrap()
}

fn reset_id(request: &DeviceResetRequest) -> (r: ResetRequestId)
    ensures
        r@ == reset_id_text(*request),
        r@.len() == 22,
{
    let key: String = match &request.license_key {
        Some(k) => String::from_str(k.expose_secret()),
        None => match &request.masked_license_key {
            Some(m) => String::from_str(m.as_str()),
            None => String::from_str("unknown"),
        },
    };
    let material = key.concat(":").concat(request.purchaser_email.as_str()).concat(":").concat(
        i64_to_string(request.timestamp_ms).as_str(),
    );
    let hash = hash_secret(material.as_str());
    let prefix = hash.as_str().substring_char(0, 16);
    let text = String::from_str("reset_").concat(prefix);
    proof {
        reveal_strlit("reset_");
        reveal_strlit(":");
        assert(text@[0] == 'r');
        assert(text@[text@.len() - 1] == hash@[15]);
        lemma_base64_not_ws(hash@[15]);
        lemma_trim_noop(text@);
    }
    ResetRequestId::new(text.as_str()).unwrap()
}

#[derive(Debug, PartialEq, Eq)]
pub struct PurchaserIdentity {
    pub email: String,
    pub gumroad_sale_id: Option<String>,
}

impl Clone for PurchaserIdentity {
    fn clone(&self) -> (r: Self)
        ensures
            r == *self,
    {
        PurchaserIdentity {
            email: self.email.clone(),
            gumroad_sale_id: clone_opt_string(&self.gumroad_sale_id),
        }
    }
}

#[derive(Debug, PartialEq, Eq)]
pub struct DeviceBinding {
    pub device_id: DeviceId,
    pub public_key: DevicePublicKey,
    pub fingerprint: DeviceFingerprint,
    pub activated_at_ms: i64,
}

/// The text of a device binding.
pub struct DeviceBindingView {
    pub device_id: Seq<char>,
    pub public_key: Seq<char>,
    pub fingerprint: FingerprintView,
    pub activated_at_ms: i64,
}

impl View for DeviceBinding {
    type V = DeviceBindingView;

    open spec fn view(&self) -> DeviceBindingView {
        DeviceBindingView {
            device_id: self.device_id@,
            public_key: self.public_key@,
            fingerprint: self.fingerprint@,
            activated_at_ms: self.activated_at_ms,
        }
    }
}

impl Clone for DeviceBinding {
    fn clone(&self) -> (r: Self)
        ensures
            r == *self,
    {
        DeviceBinding {
            device_id: self.device_id.clone(),
            public_key: self.public_key.clone(),
            fingerprint: self.fingerprint.clone(),
            activated_at_ms: self.activated_at_ms,
        }
    }
}

#[derive(Debug, PartialEq, Eq)]
pub struct LicenseRecord {
    pub license_key_hash: String,
    pub masked_license_key: MaskedLicenseKey,
    pub purchaser: PurchaserIdentity,
    pub current_binding: Option<DeviceBinding>,
    pub entitlement: EntitlementStatus,
}

/// The text of a license record.
pub struct LicenseRecordView {
    pub license_key_hash: Seq<char>,
    pub masked_license_key: Seq<char>,
    pub purchaser_email: Seq<char>,
    pub gumroad_sale_id: Option<Seq<char>>,
    pub current_binding: Option<DeviceBindingView>,
    pub entitlement: EntitlementStatus,
}

impl View for LicenseRecord {
    type V = LicenseRecordView;

    open spec fn view(&self) -> LicenseRecordView {
        LicenseRecordView {
            license_key_hash: self.license_key_hash@,
            masked_license_key: self.masked_license_key@,
            purchaser_email: self.purchaser.email@,
            gumroad_sale_id: opt_text(self.purchaser.gumroad_sale_id),
            current_binding: match self.current_binding {
                Some(b) => Some(b@),
                None => None,
            },
            entitlement: self.entitlement,
        }
    }
}

impl Clone for LicenseRecord {
    fn clone(&self) -> (r: Self)
        ensures
            r == *self,
    {
        LicenseRecord {
            license_key_hash: self.license_key_hash.clone(),
            masked_license_key: self.masked_license_key.clone(),
            purchaser: self.purchaser.clone(),
            current_binding: match &self.current_binding {
                Some(b) => Some(b.clone()),
                None => None,
            },
            entitlement: self.entitlement,
        }
    }
}

#[derive(Debug, PartialEq, Eq)]
pub struct StoredResetRequest {
    pub request_id: ResetRequestId,
    pub license_key_hash: Option<String>,
    pub masked_license_key: Option<MaskedLicenseKey>,
    pub purchaser_email: String,
    pub device_public_key: DevicePublicKey,
    pub fingerprint: DeviceFingerprint,
    pub app_version: String,
    pub receipt_reference: Option<String>,
    pub status: DeviceResetStatus,
}

/// The text of a stored reset request, with its status.
pub struct StoredResetView {
    pub request_id: Seq<char>,
    pub license_key_hash: Option<Seq<char>>,
    pub masked_license_key: Option<Seq<char>>,
    pub purchaser_email: Seq<char>,
    pub device_public_key: Seq<char>,
    pub fingerprint: FingerprintView,
    pub app_version: Seq<char>,
    pub receipt_reference: Option<Seq<char>>,
    pub status: DeviceResetStatus,
}

impl View for StoredResetRequest {
    type V = StoredResetView;

    open spec fn view(&self) -> StoredResetView {
        StoredResetView {
            request_id: self.request_id@,
            license_key_hash: opt_text(self.license_key_hash),
            masked_license_key: match self.masked_license_key {
                Some(m) => Some(m@),
                None => None,
            },
            purchaser_email: self.purchaser_email@,
            device_public_key: self.device_public_key@,
            fingerprint: self.fingerprint@,
            app_version: self.app_version@,
            receipt_reference: opt_text(self.receipt_reference),
            status: self.status,
        }
    }
}

impl Clone for StoredResetRequest {
    fn clone(&self) -> (r: Self)
        ensures
            r == *self,
    {
        StoredResetRequest {
            request_id: self.request_id.clone(),
            license_key_hash: clone_opt_string(&self.license_key_hash),
            masked_license_key: match &self.masked_license_key {
                Some(m) => Some(m.clone()),
                None => None,
            },
            purchaser_email: self.purchaser_email.clone(),
            device_public_key: self.device_public_key.clone(),
            fingerprint: self.fingerprint.clone(),
            app_version: self.app_version.clone(),
            receipt_reference: clone_opt_string(&self.receipt_reference),
            status: self.status.clone(),
        }
    }
}

#[derive(Debug, PartialEq, Eq)]
pub struct AuditEvent {
    pub kind: String,
    pub license_key_hash: Option<String>,
    pub reset_request_id: Option<String>,
    pub timestamp_ms: i64,
}

/// The text of an audit event.
pub struct AuditEventView {
    pub kind: Seq<char>,
    pub license_key_hash: Option<Seq<char>>,
    pub reset_request_id: Option<Seq<char>>,
    pub timestamp_ms: i64,
}

impl View for AuditEvent {
    type V = AuditEventView;

    open spec fn view(&self) -> AuditEventView {
        AuditEventView {
            kind: self.kind@,
            license_key_hash: opt_text(self.license_key_hash),
            reset_request_id: opt_text(self.reset_request_id),
            timestamp_ms: self.timestamp_ms,
        }
    }
}

impl Clone for AuditEvent {
    fn clone(&self) -> (r: Self)
        ensures
            r == *self,
    {
        AuditEvent {
            kind: self.kind.clone(),
            license_key_hash: clone_opt_string(&self.license_key_hash),
            reset_request_id: clone_opt_string(&self.reset_request_id),
            timestamp_ms: self.timestamp_ms,
        }
    }
}

/// The length of every issued access token: `tok_` and a 43-character hash.
pub const TOKEN_LEN: usize = 47;

/// Every text of an audit event is shorter than an access token.
pub open spec fn event_fits(e: AuditEventView) -> bool {
    &&& e.kind.len() < TOKEN_LEN
    &&& (e.license_key_hash matches Some(h) ==> h.len() < TOKEN_LEN)
    &&& (e.reset_request_id matches Some(r) ==> r.len() < TOKEN_LEN)
}

/// `s` holds the text `part` somewhere.
pub open spec fn holds_text(s: Seq<char>, part: Seq<char>) -> bool {
    exists|i: int| 0 <= i && i + part.len() <= s.len() && #[trigger] s.subrange(i, i + part.len()) == part
}

pub open spec fn event(
    kind: Seq<char>,
    license_key_hash: Option<Seq<char>>,
    reset_request_id: Option<Seq<char>>,
    timestamp_ms: i64,
) -> AuditEventView {
    AuditEventView { kind, license_key_hash, reset_request_id, timestamp_ms }
}

/// What the worker's store holds: license records and reset requests by
/// key, live access tokens with the license hash each belongs to, and the
/// audit log in order.
pub struct WorkerView {
    pub licenses: Map<Seq<char>, LicenseRecordView>,
    pub resets: Map<Seq<char>, StoredResetView>,
    pub tokens: Map<Seq<char>, Seq<char>>,
    pub audit: Seq<AuditEventView>,
}

pub struct InMemoryWorkerStore {
    licenses: StringHashMap<LicenseRecord>,
    resets: StringHashMap<StoredResetRequest>,
    tokens: StringHashMap<String>,
    issued: Vec<String>,
    audit: Vec<AuditEvent>,
}

impl View for InMemoryWorkerStore {
    type V = WorkerView;

    closed spec fn view(&self) -> WorkerView {
        WorkerView {
            licenses: self.licenses@.map_values(|r: LicenseRecord| r@),
            resets: self.resets@.map_values(|r: StoredResetRequest| r@),
            tokens: self.tokens@.map_values(|s: String| s@),
            audit: self.audit@.map_values(|e: AuditEvent| e@),
        }
    }
}

impl InMemoryWorkerStore {
    /// Every live token is among those ever issued; every issued token is
    /// [`TOKEN_LEN`] long, and every audited text and reset identifier is
    /// shorter.
    pub closed spec fn wf(&self) -> bool {
        &&& forall|k: Seq<char>|
            #![trigger self.tokens@.contains_key(k)]
            self.tokens@.contains_key(k) ==> exists|j: int|
                0 <= j < self.issued@.len() && (#[trigger] self.issued@[j])@ == k
        &&& forall|j: int|
            0 <= j < self.issued@.len() ==> (#[trigger] self.issued@[j])@.len() == TOKEN_LEN
        &&& forall|j: int| 0 <= j < self.audit@.len() ==> event_fits((#[trigger] self.audit@[j])@)
        &&& forall|k: Seq<char>|
            #![trigger self.resets@.contains_key(k)]
            self.resets@.contains_key(k) ==> k.len() < TOKEN_LEN
    }

    pub fn new() -> (r: Self)
        ensures
            r.wf(),
            r@ == (WorkerView {
                licenses: Map::empty(),
                resets: Map::empty(),
                tokens: Map::empty(),
                audit: Seq::empty(),
            }),
    {
        let r = InMemoryWorkerStore {
            licenses: StringHashMap::new(),
            resets: StringHashMap::new(),
            tokens: StringHashMap::new(),
            issued: Vec::new(),
            audit: Vec::new(),
        };
        assert(r@.licenses =~= Map::empty());
        assert(r@.resets =~= Map::empty());
        assert(r@.tokens =~= Map::empty());
        assert(r@.audit =~= Seq::empty());
        r
    }

    pub fn insert_license(&mut self, license_key: &LicenseKey, purchaser_email: &str)
        requires
            old(self).wf(),
        ensures
            final(self).wf(),
            final(self)@ == (WorkerView {
                licenses: old(self)@.licenses.insert(
                    hash_of(license_key@),
                    LicenseRecordView {
                        license_key_hash: hash_of(license_key@),
                        masked_license_key: masked_form(license_key@),
                        purchaser_email: purchaser_email@,
                        gumroad_sale_id: None,
                        current_binding: None,
                        entitlement: EntitlementStatus::Active,
                    },
                ),
                ..old(self)@
            }),
    {
        let hash = hash_secret(license_key.expose_secret());
        let record = LicenseRecord {
            license_key_hash: hash.clone(),
            masked_license_key: license_key.masked(),
            purchaser: PurchaserIdentity {
                email: String::from_str(purchaser_email),
                gumroad_sale_id: None,
            },
            current_binding: None,
            entitlement: EntitlementStatus::Active,
        };
        self.licenses.insert(hash, record);
        assert(self.tokens@ == old(self).tokens@ && self.issued@ == old(self).issued@);
        assert(self@.licenses =~= old(self)@.licenses.insert(hash_of(license_key@), record@));
    }

    pub fn license(&self, license_key: &LicenseKey) -> (r: Option<LicenseRecord>)
        ensures
            r is Some <==> self@.licenses.contains_key(hash_of(license_key@)),
            r matches Some(rec) ==> rec@ == self@.licenses[hash_of(license_key@)],
    {
        let hash = hash_secret(license_key.expose_secret());
        match self.licenses.get(hash.as_str()) {
            Some(rec) => Some(rec.clone()),
            None => None,
        }
    }

    pub fn reset_request(&self, request_id: &ResetRequestId) -> (r: Option<StoredResetRequest>)
        ensures
            r is Some <==> self@.resets.contains_key(request_id@),
            r matches Some(rec) ==> rec@ == self@.resets[request_id@],
    {
        match self.resets.get(request_id.as_str()) {
            Some(rec) => Some(rec.clone()),
            None => None,
        }
    }

    pub fn audit_events(&self) -> (r: Vec<AuditEvent>)
        ensures
            r@.map_values(|e: AuditEvent| e@) == self@.audit,
    {
        clone_vec(&self.audit)
    }

    fn append_audit(&mut self, event: AuditEvent)
        requires
            old(self).wf(),
            event_fits(event@),
        ensures
            final(self).wf(),
            final(self)@ == (WorkerView { audit: old(self)@.audit.push(event@), ..old(self)@ }),
    {
        self.audit.push(event);
        assert(self.tokens@ == old(self).tokens@ && self.issued@ == old(self).issued@);
        assert(forall|j: int| 0 <= j < old(self).audit@.len() ==> self.audit@[j] == old(self).audit@[j]);
        assert(self@.audit =~= old(self)@.audit.push(event@));
    }
}

impl Default for InMemoryWorkerStore {
    fn default() -> (r: Self)
        ensures
            r.wf(),
            r@ == (WorkerView {
                licenses: Map::empty(),
                resets: Map::empty(),
                tokens: Map::empty(),
                audit: Seq::empty(),
            }),
    {
        InMemoryWorkerStore::new()
    }
}

/// Why the worker refuses an activation, if it does: an unknown or inactive
/// license, or a license bound to another device.
pub open spec fn activation_refusal(v: WorkerView, request: ActivationRequest) -> Option<
    AuthError,
> {
    let h = hash_of(request.license_key@);
    if !v.licenses.contains_key(h) || v.licenses[h].entitlement != EntitlementStatus::Active {
        Some(AuthError::InvalidLicenseKey)
    } else if v.licenses[h].current_binding is Some && v.licenses[h].current_binding->Some_0.device_id
        != device_id_of(request.device_public_key@) {
        Some(AuthError::DeviceAlreadyBound)
    } else {
        None
    }
}

/// The binding an activation request creates.
pub open spec fn activation_binding(request: ActivationRequest) -> DeviceBindingView {
    DeviceBindingView {
        device_id: device_id_of(request.device_public_key@),
        public_key: request.device_public_key@,
        fingerprint: request.fingerprint@,
        activated_at_ms: request.timestamp_ms,
    }
}

/// The store after a successful activation: the license is bound to the
/// requesting device, a token is issued for it and the success is audited.
pub open spec fn activated(v: WorkerView, request: ActivationRequest) -> WorkerView {
    let h = hash_of(request.license_key@);
    let b = activation_binding(request);
    WorkerView {
        licenses: v.licenses.insert(
            h,
            LicenseRecordView { current_binding: Some(b), ..v.licenses[h] },
        ),
        resets: v.resets,
        tokens: v.tokens.insert(token_text(h, b.device_id, request.timestamp_ms), h),
        audit: v.audit.push(event("activation_success"@, Some(h), None, request.timestamp_ms)),
    }
}

/// The store after an activation refused because the license is bound to
/// another device: only the refusal is audited.
pub open spec fn bound_refused(v: WorkerView, request: ActivationRequest) -> WorkerView {
    WorkerView {
        audit: v.audit.push(
            event(
                "activation_device_bound_failure"@,
                Some(hash_of(request.license_key@)),
                None,
                request.timestamp_ms,
            ),
        ),
        ..v
    }
}

/// What a successful activation answers.
pub open spec fn activation_answer(
    o: ActivationOutcome,
    v: WorkerView,
    request: ActivationRequest,
) -> bool {
    let h = hash_of(request.license_key@);
    let d = device_id_of(request.device_public_key@);
    &&& o.access_token@ == token_text(h, d, request.timestamp_ms)
    &&& o.masked_license_key@ == v.licenses[h].masked_license_key
    &&& o.bound_device@ == (BoundDeviceView {
        device_id: d,
        public_key: request.device_public_key@,
        fingerprint: request.fingerprint@,
    })
    &&& o.entitlement == EntitlementStatus::Active
    &&& o.token_expires_at_ms == request.timestamp_ms + 3_600_000
}

/// What the worker answers when a token is presented for validation.
pub open spec fn validation_of(v: WorkerView, token: Seq<char>) -> ValidationView {
    if !v.tokens.contains_key(token) || !v.licenses.contains_key(v.tokens[token]) {
        ValidationView::ReauthRequired
    } else {
        let rec = v.licenses[v.tokens[token]];
        match rec.current_binding {
            None => ValidationView::Revoked,
            Some(b) => ValidationView::Active {
                masked_license_key: rec.masked_license_key,
                bound_device: BoundDeviceView {
                    device_id: b.device_id,
                    public_key: b.public_key,
                    fingerprint: b.fingerprint,
                },
                token_expires_at_ms: 3_600_000,
            },
        }
    }
}

/// The store after a validation: an unknown token is audited.
pub open spec fn after_validation(v: WorkerView, token: Seq<char>) -> WorkerView {
    if !v.tokens.contains_key(token) {
        WorkerView { audit: v.audit.push(event("validation_failure"@, None, None, 0)), ..v }
    } else {
        v
    }
}

/// The record a reset request is stored as, with the given status.
pub open spec fn stored_reset(request: DeviceResetRequest, status: DeviceResetStatus) -> StoredResetView {
    StoredResetView {
        request_id: reset_id_text(request),
        license_key_hash: match request.license_key {
            Some(k) => Some(hash_of(k@)),
            None => None,
        },
        masked_license_key: match request.masked_license_key {
            Some(m) => Some(m@),
            None => match request.license_key {
                Some(k) => Some(masked_form(k@)),
                None => None,
            },
        },
        purchaser_email: request.purchaser_email@,
        device_public_key: request.device_public_key@,
        fingerprint: request.fingerprint@,
        app_version: request.app_version@,
        receipt_reference: opt_text(request.receipt_reference),
        status,
    }
}

/// The store after a reset request is filed with the given status.
pub open spec fn reset_requested(
    v: WorkerView,
    request: DeviceResetRequest,
    status: DeviceResetStatus,
) -> WorkerView {
    let id = reset_id_text(request);
    WorkerView {
        resets: v.resets.insert(id, stored_reset(request, status)),
        audit: v.audit.push(
            event(
                "reset_request_created"@,
                stored_reset(request, status).license_key_hash,
                Some(id),
                request.timestamp_ms,
            ),
        ),
        ..v
    }
}

/// The status an admin decision gives a reset request.
pub open spec fn decision_status(
    request_id: ResetRequestId,
    decision: AdminResetDecision,
    timestamp_ms: i64,
) -> DeviceResetStatus {
    match decision {
        AdminResetDecision::Approve => DeviceResetStatus::Approved {
            request_id,
            decided_at_ms: timestamp_ms,
        },
        AdminResetDecision::Reject => DeviceResetStatus::Rejected {
            request_id,
            decided_at_ms: timestamp_ms,
            reason: None,
        },
    }
}

/// The live tokens, less those of the license with hash `h`.
pub open spec fn revoke_tokens(tokens: Map<Seq<char>, Seq<char>>, h: Seq<char>) -> Map<
    Seq<char>,
    Seq<char>,
> {
    Map::new(|k: Seq<char>| tokens.contains_key(k) && tokens[k] != h, |k: Seq<char>| tokens[k])
}

/// The license records with the license of hash `h` unbound.
pub open spec fn unbind(licenses: Map<Seq<char>, LicenseRecordView>, h: Seq<char>) -> Map<
    Seq<char>,
    LicenseRecordView,
> {
    if licenses.contains_key(h) {
        licenses.insert(h, LicenseRecordView { current_binding: None, ..licenses[h] })
    } else {
        licenses
    }
}

/// The store after an admin decides an existing reset request: an approval
/// of a request that names a license unbinds it and revokes its tokens; the
/// decision is recorded and audited.
pub open spec fn decided(
    v: WorkerView,
    request_id: ResetRequestId,
    decision: AdminResetDecision,
    timestamp_ms: i64,
) -> WorkerView {
    let id = request_id@;
    let stored = v.resets[id];
    let approve_license = decision == AdminResetDecision::Approve
        && stored.license_key_hash is Some;
    let h = stored.license_key_hash->Some_0;
    WorkerView {
        licenses: if approve_license {
            unbind(v.licenses, h)
        } else {
            v.licenses
        },
        resets: v.resets.insert(
            id,
            StoredResetView { status: decision_status(request_id, decision, timestamp_ms), ..stored },
        ),
        tokens: if approve_license {
            revoke_tokens(v.tokens, h)
        } else {
            v.tokens
        },
        audit: v.audit.push(
            event(
                if decision == AdminResetDecision::Approve {
                    "reset_approved"@
                } else {
                    "reset_rejected"@
                },
                None,
                Some(id),
                timestamp_ms,
            ),
        ),
    }
}

/// Some token among the first `i` issued has text `k`.
pub open spec fn issued_before(issued: Seq<String>, i: int, k: Seq<char>) -> bool {
    exists|j: int| 0 <= j < i && (#[trigger] issued[j])@ == k
}

pub struct WorkerApp {
    store: InMemoryWorkerStore,
    admin_token: String,
}

impl WorkerApp {
    pub closed spec fn wf(&self) -> bool {
        self.store.wf()
    }

    /// What the worker's store holds.
    pub closed spec fn store_view(&self) -> WorkerView {
        self.store@
    }

    /// The token that admin requests must carry.
    pub closed spec fn admin_token_of(&self) -> Seq<char> {
        self.admin_token@
    }

    pub fn new(store: InMemoryWorkerStore, admin_token: &str) -> (r: Self)
        requires
            store.wf(),
        ensures
            r.wf(),
            r.store_view() == store@,
            r.admin_token_of() == admin_token@,
    {
        WorkerApp { store, admin_token: String::from_str(admin_token) }
    }

    pub fn store(&self) -> (r: &InMemoryWorkerStore)
        ensures
            r@ == self.store_view(),
            r.wf() == self.wf(),
    {
        &self.store
    }

    pub fn activate(&mut self, request: ActivationRequest) -> (r: Result<
        ActivationOutcome,
        AuthError,
    >)
        requires
            old(self).wf(),
            request.timestamp_ms <= i64::MAX - 3_600_000,
        ensures
            final(self).wf(),
            final(self).admin_token_of() == old(self).admin_token_of(),
            activation_refusal(old(self).store_view(), request) == Some(
                AuthError::InvalidLicenseKey,
            ) ==> r == Err::<ActivationOutcome, AuthError>(AuthError::InvalidLicenseKey) && final(self).store_view() == old(self).store_view(),
            activation_refusal(old(self).store_view(), request) == Some(
                AuthError::DeviceAlreadyBound,
            ) ==> r == Err::<ActivationOutcome, AuthError>(AuthError::DeviceAlreadyBound) && final(self).store_view() == bound_refused(old(self).store_view(), request),
            activation_refusal(old(self).store_view(), request) is None ==> (r matches Ok(o)
                && activation_answer(o, old(self).store_view(), request) && final(self).store_view() == activated(old(self).store_view(), request)),
    {
        let ghost v = self.store@;
        let ts = request.timestamp_ms;
        let license_hash = hash_secret(request.license_key.expose_secret());
        let record: LicenseRecord = match self.store.licenses.get(license_hash.as_str()) {
            Some(rec) => rec.clone(),
            None => {
                return Err(AuthError::InvalidLicenseKey);
            },
        };
        if record.entitlement != EntitlementStatus::Active {
            return Err(AuthError::InvalidLicenseKey);
        }
        let incoming_device_id = DeviceId::from_public_key(&request.device_public_key);
        if let Some(binding) = &record.current_binding {
            if !(binding.device_id == incoming_device_id) {
                proof {
                    reveal_strlit("activation_device_bound_failure");
                }
                self.store.append_audit(
                    AuditEvent {
                        kind: String::from_str("activation_device_bound_failure"),
                        license_key_hash: Some(license_hash),
                        reset_request_id: None,
                        timestamp_ms: ts,
                    },
                );
                return Err(AuthError::DeviceAlreadyBound);
            }
        }
        let binding = DeviceBinding {
            device_id: incoming_device_id,
            public_key: request.device_public_key.clone(),
            fingerprint: request.fingerprint.clone(),
            activated_at_ms: ts,
        };
        let masked = record.masked_license_key.clone();
        let updated = LicenseRecord { current_binding: Some(binding.clone()), ..record };
        self.store.licenses.insert(license_hash.clone(), updated);
        let token = issue_token(license_hash.as_str(), binding.device_id.as_str(), ts);
        let token_key = String::from_str(token.expose_secret());
        let ghost old_tokens = self.store.tokens@;
        let ghost old_issued = self.store.issued@;
        self.store.issued.push(token_key.clone());
        self.store.tokens.insert(token_key, license_hash.clone());
        proof {
            assert forall|k: Seq<char>| #[trigger]
                self.store.tokens@.contains_key(k) implies exists|j: int|
                0 <= j < self.store.issued@.len() && (#[trigger] self.store.issued@[j])@ == k by {
                if k == token@ {
                    assert(self.store.issued@[old_issued.len() as int]@ == k);
                } else {
                    assert(old_tokens.contains_key(k));
                    let j = choose|j: int| 0 <= j < old_issued.len() && (#[trigger] old_issued[j])@ == k;
                    assert(self.store.issued@[j] == old_issued[j]);
                }
            }
        }
        let outcome = ActivationOutcome {
            access_token: token,
            masked_license_key: masked,
            bound_device: BoundDeviceSummary {
                device_id: binding.device_id,
                public_key: binding.public_key,
                fingerprint: binding.fingerprint,
            },
            entitlement: EntitlementStatus::Active,
            token_expires_at_ms: ts + 3_600_000,
        };
        proof {
            reveal_strlit("activation_success");
        }
        self.store.append_audit(
            AuditEvent {
                kind: String::from_str("activation_success"),
                license_key_hash: Some(license_hash),
                reset_request_id: None,
                timestamp_ms: ts,
            },
        );
        proof {
            assert(self.store@.licenses =~= activated(v, request).licenses);
            assert(self.store@.tokens =~= activated(v, request).tokens);
        }
        Ok(outcome)
    }

    pub fn validate_session(&mut self, token: AccessToken) -> (r: Result<
        ValidationOutcome,
        AuthError,
    >)
        requires
            old(self).wf(),
        ensures
            final(self).wf(),
            final(self).admin_token_of() == old(self).admin_token_of(),
            r is Ok,
            r matches Ok(o) ==> o@ == validation_of(old(self).store_view(), token@),
            final(self).store_view() == after_validation(old(self).store_view(), token@),
    {
        let token_value = String::from_str(token.expose_secret());
        let license_hash: String = match self.store.tokens.get(token_value.as_str()) {
            Some(h) => h.clone(),
            None => {
                proof {
                    reveal_strlit("validation_failure");
                }
                self.store.append_audit(
                    AuditEvent {
                        kind: String::from_str("validation_failure"),
                        license_key_hash: None,
                        reset_request_id: None,
                        timestamp_ms: 0,
                    },
                );
                return Ok(ValidationOutcome::ReauthRequired);
            },
        };
        let record = match self.store.licenses.get(license_hash.as_str()) {
            Some(rec) => rec,
            None => {
                return Ok(ValidationOutcome::ReauthRequired);
            },
        };
        match &record.current_binding {
            None => Ok(ValidationOutcome::Revoked),
            Some(binding) => Ok(
                ValidationOutcome::Active {
                    masked_license_key: record.masked_license_key.clone(),
                    bound_device: BoundDeviceSummary {
                        device_id: binding.device_id.clone(),
                        public_key: binding.public_key.clone(),
                        fingerprint: binding.fingerprint.clone(),
                    },
                    token_expires_at_ms: 3_600_000,
                },
            ),
        }
    }

    pub fn request_device_reset(&mut self, request: DeviceResetRequest) -> (r: Result<
        DeviceResetStatus,
        AuthError,
    >)
        requires
            old(self).wf(),
        ensures
            final(self).wf(),
            final(self).admin_token_of() == old(self).admin_token_of(),
            (r matches Ok(DeviceResetStatus::Pending { request_id, created_at_ms })
                && request_id@ == reset_id_text(request) && created_at_ms == request.timestamp_ms),
            r is Ok ==> final(self).store_view() == reset_requested(
                old(self).store_view(),
                request,
                r->Ok_0,
            ),
    {
        let ghost req = request;
        let request_id = reset_id(&request);
        let license_hash: Option<String> = match &request.license_key {
            Some(key) => Some(hash_secret(key.expose_secret())),
            None => None,
        };
        let status = DeviceResetStatus::Pending {
            request_id: request_id.clone(),
            created_at_ms: request.timestamp_ms,
        };
        let masked_license_key = match request.masked_license_key {
            Some(m) => Some(m),
            None => match &request.license_key {
                Some(license_key) => Some(license_key.masked()),
                None => None,
            },
        };
        let stored = StoredResetRequest {
            request_id: request_id.clone(),
            license_key_hash: clone_opt_string(&license_hash),
            masked_license_key,
            purchaser_email: String::from_str(request.purchaser_email.as_str()),
            device_public_key: request.device_public_key,
            fingerprint: request.fingerprint,
            app_version: request.app_version,
            receipt_reference: request.receipt_reference,
            status: status.clone(),
        };
        assert(stored@ == stored_reset(req, status));
        self.store.resets.insert(String::from_str(request_id.as_str()), stored);
        assert(self.store.tokens@ == old(self).store.tokens@ && self.store.issued@ == old(self).store.issued@);
        proof {
            reveal_strlit("reset_request_created");
        }
        self.store.append_audit(
            AuditEvent {
                kind: String::from_str("reset_request_created"),
                license_key_hash: license_hash,
                reset_request_id: Some(String::from_str(request_id.as_str())),
                timestamp_ms: request.timestamp_ms,
            },
        );
        proof {
            assert(self.store@.resets =~= reset_requested(old(self).store@, req, status).resets);
        }
        Ok(status)
    }

    pub fn get_reset_status(&self, request_id: ResetRequestId) -> (r: DeviceResetStatus)
        ensures
            self.store_view().resets.contains_key(request_id@) ==> r == self.store_view().resets[request_id@].status,
            !self.store_view().resets.contains_key(request_id@) ==> r == (DeviceResetStatus::NotFound { request_id }),
    {
        match self.store.resets.get(request_id.as_str()) {
            Some(stored) => stored.status.clone(),
            None => DeviceResetStatus::NotFound { request_id },
        }
    }

    /// Drops every live token of the license with hash `hash`, and forgets
    /// the issued tokens that are no longer live.
    fn revoke_license_tokens(&mut self, hash: &String)
        requires
            old(self).wf(),
        ensures
            final(self).wf(),
            final(self).admin_token_of() == old(self).admin_token_of(),
            final(self).store_view() == (WorkerView {
                tokens: revoke_tokens(old(self).store_view().tokens, hash@),
                ..old(self).store_view()
            }),
    {
        let ghost t0 = self.store.tokens@;
        let ghost issued = self.store.issued@;
        let n = self.store.issued.len();
        let mut kept: Vec<String> = Vec::new();
        let mut i: usize = 0;
        while i < n
            invariant
                n == issued.len(),
                i <= n,
                self.store.issued@ == issued,
                self.admin_token@ == old(self).admin_token@,
                self.store.licenses@ == old(self).store.licenses@,
                self.store.resets@ == old(self).store.resets@,
                self.store.audit@ == old(self).store.audit@,
                t0 == old(self).store.tokens@,
                old(self).wf(),
                self.store.tokens@ =~= Map::new(
                    |k: Seq<char>|
                        t0.contains_key(k) && !(t0[k]@ == hash@ && issued_before(issued, i as int, k)),
                    |k: Seq<char>| t0[k],
                ),
                forall|j: int| 0 <= j < kept@.len() ==> (#[trigger] kept@[j])@.len() == TOKEN_LEN,
                forall|k: Seq<char>|
                    #![trigger self.store.tokens@.contains_key(k)]
                    self.store.tokens@.contains_key(k) && issued_before(issued, i as int, k)
                        ==> exists|j: int| 0 <= j < kept@.len() && (#[trigger] kept@[j])@ == k,
            decreases n - i,
        {
            let key = self.store.issued[i].clone();
            let found = match self.store.tokens.get(key.as_str()) {
                Some(v) => *v == *hash,
                None => false,
            };
            let ghost kept0 = kept@;
            if found {
                self.store.tokens.remove(key.as_str());
            } else if self.store.tokens.contains_key(key.as_str()) {
                kept.push(key.clone());
            }
            i = i + 1;
            proof {
                assert forall|k: Seq<char>|
                    #[trigger] issued_before(issued, i as int, k) <==> (issued_before(
                        issued,
                        i - 1,
                        k,
                    ) || k == key@) by {
                    if k == key@ {
                        assert(issued[i - 1]@ == k);
                    }
                    if issued_before(issued, i as int, k) && k != key@ {
                        let j = choose|j: int| 0 <= j < i && (#[trigger] issued[j])@ == k;
                        assert(j < i - 1);
                    }
                }
                assert forall|k: Seq<char>|
                    #[trigger] self.store.tokens@.contains_key(k) && issued_before(
                        issued,
                        i as int,
                        k,
                    ) implies exists|j: int| 0 <= j < kept@.len() && (#[trigger] kept@[j])@ == k by {
                    if k == key@ {
                        assert(kept@[kept@.len() - 1]@ == k);
                    } else {
                        assert(issued_before(issued, i - 1, k));
                        let j = choose|j: int| 0 <= j < kept0.len() && (#[trigger] kept0[j])@ == k;
                        assert(kept@[j] == kept0[j]);
                    }
                }
                assert forall|j: int| 0 <= j < kept@.len() implies (#[trigger] kept@[j])@.len() == TOKEN_LEN by {
                    if j < kept0.len() {
                        assert(kept@[j] == kept0[j]);
                    } else {
                        assert(kept@[j] == issued[i - 1]);
                    }
                }
            }
        }
        proof {
            assert forall|k: Seq<char>| #[trigger] t0.contains_key(k) implies issued_before(
                issued,
                n as int,
                k,
            ) by {
                assert(old(self).store.tokens@.contains_key(k));
            }
            assert(self.store@.tokens =~= revoke_tokens(old(self).store@.tokens, hash@));
        }
        let ghost kept_v = kept@;
        self.store.issued = kept;
        proof {
            assert forall|k: Seq<char>| #[trigger]
                self.store.tokens@.contains_key(k) implies exists|j: int|
                0 <= j < self.store.issued@.len() && (#[trigger] self.store.issued@[j])@ == k by {
                assert(t0.contains_key(k));
                assert(issued_before(issued, n as int, k));
                let j = choose|j: int| 0 <= j < kept_v.len() && (#[trigger] kept_v[j])@ == k;
                assert(self.store.issued@[j]@ == k);
            }
        }
    }

    pub fn decide_reset(
        &mut self,
        admin_token: &str,
        request_id: ResetRequestId,
        decision: AdminResetDecision,
        timestamp_ms: i64,
    ) -> (r: Result<DeviceResetStatus, AuthError>)
        requires
            old(self).wf(),
        ensures
            final(self).wf(),
            final(self).admin_token_of() == old(self).admin_token_of(),
            admin_token@ != old(self).admin_token_of() ==> r == Err::<DeviceResetStatus, AuthError>(
                AuthError::Unauthorized,
            ) && final(self).store_view() == old(self).store_view(),
            admin_token@ == old(self).admin_token_of() && !old(self).store_view().resets.contains_key(request_id@) ==> r == Err::<
                DeviceResetStatus,
                AuthError,
            >(AuthError::ResetRequestNotFound) && final(self).store_view() == old(self).store_view(),
            admin_token@ == old(self).admin_token_of() && old(self).store_view().resets.contains_key(request_id@) ==> r == Ok::<
                DeviceResetStatus,
                AuthError,
            >(decision_status(request_id, decision, timestamp_ms)) && final(self).store_view()
                == decided(old(self).store_view(), request_id, decision, timestamp_ms),
    {
        if !(String::from_str(admin_token) == self.admin_token) {
            return Err(AuthError::Unauthorized);
        }
        let ghost v = self.store@;
        let stored: StoredResetRequest = match self.store.resets.get(request_id.as_str()) {
            Some(s) => s.clone(),
            None => {
                return Err(AuthError::ResetRequestNotFound);
            },
        };
        let status = match decision {
            AdminResetDecision::Approve => {
                if let Some(hash) = &stored.license_key_hash {
                    let current = match self.store.licenses.get(hash.as_str()) {
                        Some(rec) => Some(rec.clone()),
                        None => None,
                    };
                    if let Some(record) = current {
                        self.store.licenses.insert(
                            hash.clone(),
                            LicenseRecord { current_binding: None, ..record },
                        );
                        assert(self.store.tokens@ == old(self).store.tokens@
                            && self.store.issued@ == old(self).store.issued@);
                        assert(self.store@.licenses =~= unbind(v.licenses, hash@));
                    }
                    self.revoke_license_tokens(hash);
                }
                DeviceResetStatus::Approved { request_id: request_id.clone(), decided_at_ms: timestamp_ms }
            },
            AdminResetDecision::Reject => DeviceResetStatus::Rejected {
                request_id: request_id.clone(),
                decided_at_ms: timestamp_ms,
                reason: None,
            },
        };
        let ghost pre = self.store;
        assert(pre.wf());
        let updated = StoredResetRequest { status: status.clone(), ..stored };
        self.store.resets.insert(String::from_str(request_id.as_str()), updated);
        assert(self.store.tokens@ == pre.tokens@ && self.store.issued@ == pre.issued@);
        proof {
            reveal_strlit("reset_approved");
            reveal_strlit("reset_rejected");
        }
        let kind = match decision {
            AdminResetDecision::Approve => String::from_str("reset_approved"),
            AdminResetDecision::Reject => String::from_str("reset_rejected"),
        };
        self.store.append_audit(
            AuditEvent {
                kind,
                license_key_hash: None,
                reset_request_id: Some(String::from_str(request_id.as_str())),
                timestamp_ms,
            },
        );
        proof {
            assert(self.store@.resets =~= decided(v, request_id, decision, timestamp_ms).resets);
            assert(self.store@.licenses =~= decided(v, request_id, decision, timestamp_ms).licenses);
            assert(self.store@.tokens =~= decided(v, request_id, decision, timestamp_ms).tokens);
        }
        Ok(status)
    }
}

/// A token issued by a successful activation validates as active, for the
/// device the activation bound.
pub proof fn law_issued_token_validates(v: WorkerView, request: ActivationRequest)
    requires
        activation_refusal(v, request) is None,
    ensures
        ({
            let h = hash_of(request.license_key@);
            let d = device_id_of(request.device_public_key@);
            validation_of(activated(v, request), token_text(h, d, request.timestamp_ms))
                == ValidationView::Active {
                masked_license_key: v.licenses[h].masked_license_key,
                bound_device: BoundDeviceView {
                    device_id: d,
                    public_key: request.device_public_key@,
                    fingerprint: request.fingerprint@,
                },
                token_expires_at_ms: 3_600_000,
            }
        }),
{
}

/// Once a license is bound by an activation, an activation of the same
/// license from a device with another identifier is refused as already bound.
pub proof fn law_binding_is_exclusive(
    v: WorkerView,
    first: ActivationRequest,
    second: ActivationRequest,
)
    requires
        activation_refusal(v, first) is None,
        second.license_key@ == first.license_key@,
        device_id_of(second.device_public_key@) != device_id_of(first.device_public_key@),
    ensures
        activation_refusal(activated(v, first), second) == Some(AuthError::DeviceAlreadyBound),
{
}

/// Once a license is bound by an activation, the same device may activate it
/// again.
pub proof fn law_same_device_may_reactivate(
    v: WorkerView,
    first: ActivationRequest,
    second: ActivationRequest,
)
    requires
        activation_refusal(v, first) is None,
        second.license_key@ == first.license_key@,
        second.device_public_key@ == first.device_public_key@,
    ensures
        activation_refusal(activated(v, first), second) is None,
{
}

/// Approving a reset request that names a license unbinds that license and
/// revokes every token issued for it: each of them then validates as
/// requiring re-authentication.
pub proof fn law_approval_unbinds_and_revokes(
    v: WorkerView,
    request_id: ResetRequestId,
    timestamp_ms: i64,
    token: Seq<char>,
)
    requires
        v.resets.contains_key(request_id@),
        v.resets[request_id@].license_key_hash is Some,
        v.tokens.contains_key(token),
        v.tokens[token] == v.resets[request_id@].license_key_hash->Some_0,
    ensures
        ({
            let h = v.resets[request_id@].license_key_hash->Some_0;
            let after = decided(v, request_id, AdminResetDecision::Approve, timestamp_ms);
            &&& after.licenses.contains_key(h) ==> after.licenses[h].current_binding is None
            &&& forall|t: Seq<char>| #[trigger]
                after.tokens.contains_key(t) ==> after.tokens[t] != h
            &&& validation_of(after, token) == ValidationView::ReauthRequired
        }),
{
}

/// Rejecting a reset request leaves every binding and every token as it was.
pub proof fn law_rejection_preserves_bindings(
    v: WorkerView,
    request_id: ResetRequestId,
    timestamp_ms: i64,
)
    requires
        v.resets.contains_key(request_id@),
    ensures
        decided(v, request_id, AdminResetDecision::Reject, timestamp_ms).licenses == v.licenses,
        decided(v, request_id, AdminResetDecision::Reject, timestamp_ms).tokens == v.tokens,
{
}

/// The audit log only grows: every change of the store keeps the earlier
/// events in order and adds at most one.
pub proof fn law_audit_is_append_only(
    v: WorkerView,
    activation: ActivationRequest,
    reset: DeviceResetRequest,
    status: DeviceResetStatus,
    request_id: ResetRequestId,
    decision: AdminResetDecision,
    timestamp_ms: i64,
    token: Seq<char>,
)
    ensures
        activated(v, activation).audit.drop_last() == v.audit,
        bound_refused(v, activation).audit.drop_last() == v.audit,
        reset_requested(v, reset, status).audit.drop_last() == v.audit,
        decided(v, request_id, decision, timestamp_ms).audit.drop_last() == v.audit,
        after_validation(v, token).audit == v.audit || after_validation(
            v,
            token,
        ).audit.drop_last() == v.audit,
{
    assert(activated(v, activation).audit.drop_last() =~= v.audit);
    assert(bound_refused(v, activation).audit.drop_last() =~= v.audit);
    assert(reset_requested(v, reset, status).audit.drop_last() =~= v.audit);
    assert(decided(v, request_id, decision, timestamp_ms).audit.drop_last() =~= v.audit);
    if !v.tokens.contains_key(token) {
        assert(after_validation(v, token).audit.drop_last() =~= v.audit);
    }
}

/// No audit event holds a live access token, whole or in part: every text
/// the audit log keeps is shorter than a token.
pub proof fn law_audit_never_holds_a_token(app: WorkerApp, i: int, token: Seq<char>)
    requires
        app.wf(),
        0 <= i < app.store_view().audit.len(),
        app.store_view().tokens.contains_key(token),
    ensures
        !holds_text(app.store_view().audit[i].kind, token),
        app.store_view().audit[i].license_key_hash matches Some(h) ==> !holds_text(h, token),
        app.store_view().audit[i].reset_request_id matches Some(r) ==> !holds_text(r, token),
{
    let s = app.store;
    assert(s.tokens@.contains_key(token));
    let j = choose|j: int| 0 <= j < s.issued@.len() && (#[trigger] s.issued@[j])@ == token;
    assert(s.issued@[j]@.len() == TOKEN_LEN);
    assert(event_fits(s.audit@[i]@));
    assert(s.audit@[i]@ == app.store_view().audit[i]);
}

/// Two reset requests with the same key text, purchaser email and timestamp
/// get the same identifier, whatever else they carry.
pub proof fn law_reset_id_depends_on_key_email_and_time(
    a: DeviceResetRequest,
    b: DeviceResetRequest,
)
    requires
        reset_key_text(a) == reset_key_text(b),
        a.purchaser_email@ == b.purchaser_email@,
        a.timestamp_ms == b.timestamp_ms,
    ensures
        reset_id_text(a) == reset_id_text(b),
{
}

/// An admin decision on an existing reset request is returned as, and stored
/// as, that request's status: a rejection as `Rejected` and an approval as
/// `Approved`, both naming the same request and stamped with the decision's
/// time; a rejection carries no reason.
pub proof fn law_decision_is_recorded(
    v: WorkerView,
    request_id: ResetRequestId,
    decision: AdminResetDecision,
    timestamp_ms: i64,
)
    requires
        v.resets.contains_key(request_id@),
    ensures
        decided(v, request_id, decision, timestamp_ms).resets[request_id@].status
            == decision_status(request_id, decision, timestamp_ms),
        decision == AdminResetDecision::Reject ==> decision_status(
            request_id,
            decision,
            timestamp_ms,
        ) == (DeviceResetStatus::Rejected { request_id, decided_at_ms: timestamp_ms, reason: None }),
        decision == AdminResetDecision::Approve ==> decision_status(
            request_id,
            decision,
            timestamp_ms,
        ) == (DeviceResetStatus::Approved { request_id, decided_at_ms: timestamp_ms }),
        status_request_id(decision_status(request_id, decision, timestamp_ms)) == request_id,
{
}

} // verus!
