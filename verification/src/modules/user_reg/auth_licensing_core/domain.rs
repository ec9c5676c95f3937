//! Validated value types of the client licensing core.

use crate::digest::{base64_encode_no_pad, base64_no_pad, sha256, sha256_digest};
use crate::text::{ascii_lower, chars_of, lower_chars, push_char, string_from_chars, trim_to_string, trimmed};
use vstd::prelude::*;
use vstd::std_specs::cmp::PartialEqSpecImpl;
use vstd::utf8::encode_utf8;

verus! {

#[derive(Debug, PartialEq, Eq)]
pub enum AuthError {
    InvalidLicenseKey,
    InvalidPurchaseEmail,
    InvalidDeviceIdentity,
    InvalidResetRequest,
    DeviceAlreadyBound,
    ReauthRequired,
    WorkerUnreachable,
    ResetRequestNotFound,
    Unauthorized,
    Storage(String),
    Serialization(String),
    InvalidTransition(String),
}

impl Clone for AuthError {
    fn clone(&self) -> (r: Self)
        ensures
            r == *self,
    {
        match self {
            AuthError::InvalidLicenseKey => AuthError::InvalidLicenseKey,
            AuthError::InvalidPurchaseEmail => AuthError::InvalidPurchaseEmail,
            AuthError::InvalidDeviceIdentity => AuthError::InvalidDeviceIdentity,
            AuthError::InvalidResetRequest => AuthError::InvalidResetRequest,
            AuthError::DeviceAlreadyBound => AuthError::DeviceAlreadyBound,
            AuthError::ReauthRequired => AuthError::ReauthRequired,
            AuthError::WorkerUnreachable => AuthError::WorkerUnreachable,
            AuthError::ResetRequestNotFound => AuthError::ResetRequestNotFound,
            AuthError::Unauthorized => AuthError::Unauthorized,
            AuthError::Storage(s) => AuthError::Storage(s.clone()),
            AuthError::Serialization(s) => AuthError::Serialization(s.clone()),
            AuthError::InvalidTransition(s) => AuthError::InvalidTransition(s.clone()),
        }
    }
}

/// The stable machine-readable code of an error.
pub open spec fn error_code(e: AuthError) -> Seq<char> {
    match e {
        AuthError::InvalidLicenseKey => "invalid_license_key"@,
        AuthError::InvalidPurchaseEmail => "invalid_purchase_email"@,
        AuthError::InvalidDeviceIdentity => "invalid_device_identity"@,
        AuthError::InvalidResetRequest => "invalid_reset_request"@,
        AuthError::DeviceAlreadyBound => "device_already_bound"@,
        AuthError::ReauthRequired => "reauth_required"@,
        AuthError::WorkerUnreachable => "worker_unreachable"@,
        AuthError::ResetRequestNotFound => "reset_request_not_found"@,
        AuthError::Unauthorized => "unauthorized"@,
        AuthError::Storage(_) => "storage"@,
        AuthError::Serialization(_) => "serialization"@,
        AuthError::InvalidTransition(_) => "invalid_transition"@,
    }
}

/// The human-readable message of an error.
pub open spec fn error_message(e: AuthError) -> Seq<char> {
    match e {
        AuthError::InvalidLicenseKey => "invalid license key"@,
        AuthError::InvalidPurchaseEmail => "invalid purchase email"@,
        AuthError::InvalidDeviceIdentity => "invalid device identity"@,
        AuthError::InvalidResetRequest => "invalid reset request"@,
        AuthError::DeviceAlreadyBound => "license is already bound to another device"@,
        AuthError::ReauthRequired => "session requires re-authentication"@,
        AuthError::WorkerUnreachable => "worker is unreachable"@,
        AuthError::ResetRequestNotFound => "reset request was not found"@,
        AuthError::Unauthorized => "unauthorized"@,
        AuthError::Storage(s) => "storage error: "@ + s@,
        AuthError::Serialization(s) => "serialization error: "@ + s@,
        AuthError::InvalidTransition(s) => "invalid state transition: "@ + s@,
    }
}

impl AuthError {
    pub fn code(&self) -> (r: &'static str)
        ensures
            r@ == error_code(*self),
    {
        match self {
            Self::InvalidLicenseKey => "invalid_license_key",
            Self::InvalidPurchaseEmail => "invalid_purchase_email",
            Self::InvalidDeviceIdentity => "invalid_device_identity",
            Self::InvalidResetRequest => "invalid_reset_request",
            Self::DeviceAlreadyBound => "device_already_bound",
            Self::ReauthRequired => "reauth_required",
            Self::WorkerUnreachable => "worker_unreachable",
            Self::ResetRequestNotFound => "reset_request_not_found",
            Self::Unauthorized => "unauthorized",
            Self::Storage(_) => "storage",
            Self::Serialization(_) => "serialization",
            Self::InvalidTransition(_) => "invalid_transition",
        }
    }

    /// The error's message, as its `Display` form reads.
    pub fn to_string(&self) -> (r: String)
        ensures
            r@ == error_message(*self),
    {
        match self {
            Self::InvalidLicenseKey => String::from_str("invalid license key"),
            Self::InvalidPurchaseEmail => String::from_str("invalid purchase email"),
            Self::InvalidDeviceIdentity => String::from_str("invalid device identity"),
            Self::InvalidResetRequest => String::from_str("invalid reset request"),
            Self::DeviceAlreadyBound => String::from_str(
                "license is already bound to another device",
            ),
            Self::ReauthRequired => String::from_str("session requires re-authentication"),
            Self::WorkerUnreachable => String::from_str("worker is unreachable"),
            Self::ResetRequestNotFound => String::from_str("reset request was not found"),
            Self::Unauthorized => String::from_str("unauthorized"),
            Self::Storage(s) => String::from_str("storage error: ").concat(s.as_str()),
            Self::Serialization(s) => String::from_str("serialization error: ").concat(
                s.as_str(),
            ),
            Self::InvalidTransition(s) => String::from_str("invalid state transition: ").concat(
                s.as_str(),
            ),
        }
    }
}

/// A license key: the trimmed, non-empty text that the purchaser entered.
#[derive(PartialEq, Eq)]
pub struct LicenseKey(String);

impl View for LicenseKey {
    type V = Seq<char>;

    closed spec fn view(&self) -> Seq<char> {
        self.0@
    }
}

impl Clone for LicenseKey {
    fn clone(&self) -> (r: Self)
        ensures
            r == *self,
    {
        LicenseKey(self.0.clone())
    }
}

/// The masked form of a license key: four bullets, a dash and the last four
/// characters of the key (fewer when the key is shorter).
pub open spec fn masked_form(raw: Seq<char>) -> Seq<char> {
    let k = if raw.len() < 4 {
        raw.len() as int
    } else {
        4
    };
    seq!['\u{2022}', '\u{2022}', '\u{2022}', '\u{2022}', '-'] + raw.subrange(
        raw.len() - k,
        raw.len() as int,
    )
}

impl LicenseKey {
    pub fn new(value: &str) -> (r: Result<Self, AuthError>)
        ensures
            r is Err <==> trimmed(value@).len() == 0,
            r matches Ok(k) ==> k@ == trimmed(value@),
            r matches Err(e) ==> e == AuthError::InvalidLicenseKey,
    {
        let normalized = trim_to_string(value);
        if normalized.as_str().is_empty() {
            return Err(AuthError::InvalidLicenseKey);
        }
        Ok(LicenseKey(normalized))
    }

    pub fn expose_secret(&self) -> (r: &str)
        ensures
            r@ == self@,
    {
        self.0.as_str()
    }

    pub fn masked(&self) -> (r: MaskedLicenseKey)
        ensures
            r@ == masked_form(self@),
    {
        MaskedLicenseKey::from_license_key(self)
    }

    /// The `Debug` form, which never shows the key.
    pub fn debug_string(&self) -> (r: String)
        ensures
            r@ == "LicenseKey(\"<redacted>\")"@,
    {
        String::from_str("LicenseKey(\"<redacted>\")")
    }

    /// The `Display` form, which never shows the key.
    pub fn to_string(&self) -> (r: String)
        ensures
            r@ == "<redacted-license-key>"@,
    {
        String::from_str("<redacted-license-key>")
    }
}

/// A masked license key, safe to show and to store outside the keychain.
#[derive(Debug, PartialEq, Eq)]
pub struct MaskedLicenseKey(String);

impl View for MaskedLicenseKey {
    type V = Seq<char>;

    closed spec fn view(&self) -> Seq<char> {
        self.0@
    }
}

impl Clone for MaskedLicenseKey {
    fn clone(&self) -> (r: Self)
        ensures
            r == *self,
    {
        MaskedLicenseKey(self.0.clone())
    }
}

impl MaskedLicenseKey {
    pub fn new(value: &str) -> (r: Result<Self, AuthError>)
        ensures
            r is Err <==> trimmed(value@).len() == 0,
            r matches Ok(k) ==> k@ == trimmed(value@),
            r matches Err(e) ==> e == AuthError::InvalidLicenseKey,
    {
        let value = trim_to_string(value);
        if value.as_str().is_empty() {
            return Err(AuthError::InvalidLicenseKey);
        }
        Ok(MaskedLicenseKey(value))
    }

    pub fn from_license_key(key: &LicenseKey) -> (r: Self)
        ensures
            r@ == masked_form(key@),
    {
        let raw = chars_of(key.expose_secret());
        let n = raw.len();
        let k: usize = if n < 4 {
            n
        } else {
            4
        };
        let mut s = String::new();
        push_char(&mut s, '\u{2022}');
        push_char(&mut s, '\u{2022}');
        push_char(&mut s, '\u{2022}');
        push_char(&mut s, '\u{2022}');
        push_char(&mut s, '-');
        let suffix = string_from_chars(&raw, n - k, n);
        let r = s.concat(suffix.as_str());
        assert(r@ =~= masked_form(key@));
        MaskedLicenseKey(r)
    }

    pub fn as_str(&self) -> (r: &str)
        ensures
            r@ == self@,
    {
        self.0.as_str()
    }

    /// The `Display` form: the masked key itself.
    pub fn to_string(&self) -> (r: String)
        ensures
            r@ == self@,
    {
        self.0.clone()
    }
}

/// `e` holds exactly one `@`, at index `i`.
pub open spec fn only_at(e: Seq<char>, i: int) -> bool {
    &&& 0 <= i < e.len()
    &&& e[i] == '@'
    &&& forall|j: int| 0 <= j < e.len() && j != i ==> e[j] != '@'
}

/// The domain part holds a dot and neither starts nor ends with one.
pub open spec fn domain_ok(d: Seq<char>) -> bool {
    &&& d.contains('.')
    &&& d[0] != '.'
    &&& d[d.len() - 1] != '.'
}

/// The purchase-email rule: exactly one `@`, and the part after it has a
/// dot that is neither its first nor its last character.
pub open spec fn valid_email(e: Seq<char>) -> bool {
    exists|i: int| only_at(e, i) && domain_ok(e.subrange(i + 1, e.len() as int))
}

/// The normal form of an email: trimmed and ASCII-lowercased.
pub open spec fn normal_email(value: Seq<char>) -> Seq<char> {
    ascii_lower(trimmed(value))
}

#[derive(Debug, PartialEq, Eq)]
pub struct PurchaseEmail(String);

impl View for PurchaseEmail {
    type V = Seq<char>;

    closed spec fn view(&self) -> Seq<char> {
        self.0@
    }
}

impl Clone for PurchaseEmail {
    fn clone(&self) -> (r: Self)
        ensures
            r == *self,
    {
        PurchaseEmail(self.0.clone())
    }
}

fn check_domain(v: &Vec<char>, lo: usize) -> (r: bool)
    requires
        lo <= v@.len(),
    ensures
        r == domain_ok(v@.subrange(lo as int, v@.len() as int)),
{
    let n = v.len();
    if lo == n {
        proof {
            let d = v@.subrange(lo as int, n as int);
            assert(!d.contains('.'));
        }
        return false;
    }
    let ghost d = v@.subrange(lo as int, n as int);
    let mut has_dot = false;
    let mut i = lo;
    while i < n
        invariant
            lo <= i <= n == v@.len(),
            d == v@.subrange(lo as int, n as int),
            has_dot <==> exists|j: int| lo <= j < i && v@[j] == '.',
        decreases n - i,
    {
        if v[i] == '.' {
            has_dot = true;
        }
        i = i + 1;
    }
    proof {
        if has_dot {
            let j = choose|j: int| lo <= j < n && v@[j] == '.';
            assert(d[j - lo] == '.');
        }
        if d.contains('.') {
            let j = choose|j: int| 0 <= j < d.len() && d[j] == '.';
            assert(v@[j + lo] == '.');
        }
    }
    has_dot && v[lo] != '.' && v[n - 1] != '.'
}

impl PurchaseEmail {
    pub fn new(value: &str) -> (r: Result<Self, AuthError>)
        ensures
            r is Ok <==> valid_email(normal_email(value@)),
            r matches Ok(e) ==> e@ == normal_email(value@),
            r matches Err(e) ==> e == AuthError::InvalidPurchaseEmail,
    {
        let trimmed_value = trim_to_string(value);
        let raw = chars_of(trimmed_value.as_str());
        let v = lower_chars(&raw);
        let ghost e = normal_email(value@);
        assert(v@ == e);
        let n = v.len();
        let mut count: usize = 0;
        let mut first: usize = 0;
        let mut i: usize = 0;
        while i < n
            invariant
                i <= n == v@.len(),
                v@ == e,
                count <= i,
                count == 0 ==> forall|j: int| 0 <= j < i ==> v@[j] != '@',
                count >= 1 ==> first < i && v@[first as int] == '@' && forall|j: int|
                    0 <= j < first ==> v@[j] != '@',
                count == 1 ==> forall|j: int| 0 <= j < i && j != first ==> v@[j] != '@',
                count >= 2 ==> exists|a: int, b: int|
                    0 <= a < b < i && v@[a] == '@' && v@[b] == '@',
            decreases n - i,
        {
            if v[i] == '@' {
                if count == 0 {
                    first = i;
                } else {
                    assert(v@[first as int] == '@');
                }
                count = count + 1;
            }
            i = i + 1;
        }
        if count != 1 {
            proof {
                if count >= 2 {
                    let (a, b) = choose|a: int, b: int|
                        0 <= a < b < n && v@[a] == '@' && v@[b] == '@';
                    assert forall|k: int| !only_at(e, k) by {
                        if only_at(e, k) {
                            assert(a == k);
                            assert(b == k);
                        }
                    }
                } else {
                    assert forall|k: int| !only_at(e, k) by {
                        if only_at(e, k) {
                            assert(v@[k] == '@');
                        }
                    }
                }
            }
            return Err(AuthError::InvalidPurchaseEmail);
        }
        let ok = check_domain(&v, first + 1);
        proof {
            assert(only_at(e, first as int));
            assert forall|k: int| only_at(e, k) implies k == first by {
                if k != first {
                    assert(e[first as int] == '@');
                }
            }
        }
        if !ok {
            return Err(AuthError::InvalidPurchaseEmail);
        }
        Ok(PurchaseEmail(string_from_chars(&v, 0, n)))
    }

    pub fn as_str(&self) -> (r: &str)
        ensures
            r@ == self@,
    {
        self.0.as_str()
    }

    /// The `Display` form: the normalised address.
    pub fn to_string(&self) -> (r: String)
        ensures
            r@ == self@,
    {
        self.0.clone()
    }
}


/// A session access token: trimmed and non-empty.
#[derive(PartialEq, Eq)]
pub struct AccessToken(String);

impl View for AccessToken {
    type V = Seq<char>;

    closed spec fn view(&self) -> Seq<char> {
        self.0@
    }
}

impl Clone for AccessToken {
    fn clone(&self) -> (r: Self)
        ensures
            r == *self,
    {
        AccessToken(self.0.clone())
    }
}

impl AccessToken {
    pub fn new(value: &str) -> (r: Result<Self, AuthError>)
        ensures
            r is Err <==> trimmed(value@).len() == 0,
            r matches Ok(t) ==> t@ == trimmed(value@),
            r matches Err(e) ==> e == AuthError::ReauthRequired,
    {
        let value = trim_to_string(value);
        if value.as_str().is_empty() {
            return Err(AuthError::ReauthRequired);
        }
        Ok(AccessToken(value))
    }

    pub fn expose_secret(&self) -> (r: &str)
        ensures
            r@ == self@,
    {
        self.0.as_str()
    }

    /// The `Debug` form, which never shows the token.
    pub fn debug_string(&self) -> (r: String)
        ensures
            r@ == "AccessToken(\"<redacted>\")"@,
    {
        String::from_str("AccessToken(\"<redacted>\")")
    }

    /// The `Display` form, which never shows the token.
    pub fn to_string(&self) -> (r: String)
        ensures
            r@ == "<redacted-access-token>"@,
    {
        String::from_str("<redacted-access-token>")
    }
}

#[derive(Debug, PartialEq, Eq)]
pub struct DevicePublicKey(String);

impl View for DevicePublicKey {
    type V = Seq<char>;

    closed spec fn view(&self) -> Seq<char> {
        self.0@
    }
}

impl Clone for DevicePublicKey {
    fn clone(&self) -> (r: Self)
        ensures
            r == *self,
    {
        DevicePublicKey(self.0.clone())
    }
}

impl DevicePublicKey {
    pub fn new(value: &str) -> (r: Result<Self, AuthError>)
        ensures
            r is Err <==> trimmed(value@).len() == 0,
            r matches Ok(k) ==> k@ == trimmed(value@),
            r matches Err(e) ==> e == AuthError::InvalidDeviceIdentity,
    {
        let value = trim_to_string(value);
        if value.as_str().is_empty() {
            return Err(AuthError::InvalidDeviceIdentity);
        }
        Ok(DevicePublicKey(value))
    }

    pub fn as_str(&self) -> (r: &str)
        ensures
            r@ == self@,
    {
        self.0.as_str()
    }
}

/// What `{:?}` prints for a string slice: the text quoted, with escapes.
pub uninterp spec fn debug_quoted(s: Seq<char>) -> Seq<char>;

/// `<str as Debug>::fmt`, through `format!("{:?}", ..)`.
#[verifier::external_body]
pub(crate) fn str_debug(s: &str) -> (r: String)
    ensures
        r@ == debug_quoted(s@),
{
    format!("{:?}", s)
}

/// A device key pair; the private half is never printed.
#[derive(PartialEq, Eq)]
pub struct DeviceKeyPair {
    public_key: DevicePublicKey,
    private_key_material: String,
}

impl Clone for DeviceKeyPair {
    fn clone(&self) -> (r: Self)
        ensures
            r == *self,
    {
        DeviceKeyPair {
            public_key: self.public_key.clone(),
            private_key_material: self.private_key_material.clone(),
        }
    }
}

impl DeviceKeyPair {
    /// The public half.
    pub closed spec fn public_view(&self) -> DevicePublicKey {
        self.public_key
    }

    /// The private key material, as given.
    pub closed spec fn private_view(&self) -> Seq<char> {
        self.private_key_material@
    }

    pub fn new(public_key: DevicePublicKey, private_key_material: &str) -> (r: Result<
        Self,
        AuthError,
    >)
        ensures
            r is Err <==> trimmed(private_key_material@).len() == 0,
            r matches Ok(p) ==> p.public_view() == public_key && p.private_view()
                == private_key_material@,
            r matches Err(e) ==> e == AuthError::InvalidDeviceIdentity,
    {
        let t = trim_to_string(private_key_material);
        if t.as_str().is_empty() {
            return Err(AuthError::InvalidDeviceIdentity);
        }
        Ok(DeviceKeyPair { public_key, private_key_material: String::from_str(private_key_material) })
    }

    pub fn public_key(&self) -> (r: &DevicePublicKey)
        ensures
            *r == self.public_view(),
    {
        &self.public_key
    }

    pub fn expose_private_key_material(&self) -> (r: &str)
        ensures
            r@ == self.private_view(),
    {
        self.private_key_material.as_str()
    }

    /// The `Debug` form: the public key is shown, the private material is not.
    pub fn debug_string(&self) -> (r: String)
        ensures
            r@ == "DeviceKeyPair { public_key: DevicePublicKey("@ + debug_quoted(
                self.public_view()@,
            ) + "), private_key_material: \"<redacted>\" }"@,
    {
        let quoted = str_debug(self.public_key.as_str());
        String::from_str("DeviceKeyPair { public_key: DevicePublicKey(").concat(
            quoted.as_str(),
        ).concat("), private_key_material: \"<redacted>\" }")
    }
}

/// The device identifier derived from a public key: the unpadded base64 of the
/// first 18 bytes of the SHA-256 of the key's UTF-8 bytes.
pub open spec fn device_id_of(public_key: Seq<char>) -> Seq<char> {
    base64_no_pad(sha256(encode_utf8(public_key)).subrange(0, 18))
}

#[derive(Debug, Eq)]
pub struct DeviceId(String);

impl View for DeviceId {
    type V = Seq<char>;

    closed spec fn view(&self) -> Seq<char> {
        self.0@
    }
}

impl Clone for DeviceId {
    fn clone(&self) -> (r: Self)
        ensures
            r == *self,
    {
        DeviceId(self.0.clone())
    }
}

impl PartialEq for DeviceId {
    fn eq(&self, other: &Self) -> (r: bool) {
        self.0 == other.0
    }
}

impl PartialEqSpecImpl for DeviceId {
    open spec fn obeys_eq_spec() -> bool {
        true
    }

    open spec fn eq_spec(&self, other: &DeviceId) -> bool {
        self@ == other@
    }
}

impl DeviceId {
    pub fn from_public_key(public_key: &DevicePublicKey) -> (r: Self)
        ensures
            r@ == device_id_of(public_key@),
    {
        let mut digest = sha256_digest(public_key.as_str().as_bytes());
        digest.truncate(18);
        DeviceId(base64_encode_no_pad(digest.as_slice()))
    }

    pub fn new(value: &str) -> (r: Result<Self, AuthError>)
        ensures
            r is Err <==> trimmed(value@).len() == 0,
            r matches Ok(k) ==> k@ == trimmed(value@),
            r matches Err(e) ==> e == AuthError::InvalidDeviceIdentity,
    {
        let value = trim_to_string(value);
        if value.as_str().is_empty() {
            return Err(AuthError::InvalidDeviceIdentity);
        }
        Ok(DeviceId(value))
    }

    pub fn as_str(&self) -> (r: &str)
        ensures
            r@ == self@,
    {
        self.0.as_str()
    }
}

#[derive(Debug, PartialEq, Eq)]
pub struct ResetRequestId(String);

impl View for ResetRequestId {
    type V = Seq<char>;

    closed spec fn view(&self) -> Seq<char> {
        self.0@
    }
}

impl Clone for ResetRequestId {
    fn clone(&self) -> (r: Self)
        ensures
            r == *self,
    {
        ResetRequestId(self.0.clone())
    }
}

impl ResetRequestId {
    pub fn new(value: &str) -> (r: Result<Self, AuthError>)
        ensures
            r is Err <==> trimmed(value@).len() == 0,
            r matches Ok(k) ==> k@ == trimmed(value@),
            r matches Err(e) ==> e == AuthError::InvalidResetRequest,
    {
        let value = trim_to_string(value);
        if value.as_str().is_empty() {
            return Err(AuthError::InvalidResetRequest);
        }
        Ok(ResetRequestId(value))
    }

    pub fn as_str(&self) -> (r: &str)
        ensures
            r@ == self@,
    {
        self.0.as_str()
    }
}

#[derive(Debug, PartialEq, Eq)]
pub struct DeviceFingerprint {
    pub platform: String,
    pub os: String,
    pub arch: String,
    pub hostname_hash: Option<String>,
}

impl Clone for DeviceFingerprint {
    fn clone(&self) -> (r: Self)
        ensures
            r == *self,
    {
        DeviceFingerprint {
            platform: self.platform.clone(),
            os: self.os.clone(),
            arch: self.arch.clone(),
            hostname_hash: match &self.hostname_hash {
                Some(h) => Some(h.clone()),
                None => None,
            },
        }
    }
}

impl DeviceFingerprint {
    pub fn new(platform: &str, os: &str, arch: &str, hostname_hash: Option<String>) -> (r: Result<
        Self,
        AuthError,
    >)
        ensures
            r is Err <==> trimmed(platform@).len() == 0 || trimmed(os@).len() == 0 || trimmed(
                arch@,
            ).len() == 0,
            r matches Ok(f) ==> f.platform@ == trimmed(platform@) && f.os@ == trimmed(os@)
                && f.arch@ == trimmed(arch@) && f.hostname_hash == hostname_hash,
            r matches Err(e) ==> e == AuthError::InvalidDeviceIdentity,
    {
        let fingerprint = DeviceFingerprint {
            platform: trim_to_string(platform),
            os: trim_to_string(os),
            arch: trim_to_string(arch),
            hostname_hash,
        };
        if fingerprint.platform.as_str().is_empty() || fingerprint.os.as_str().is_empty()
            || fingerprint.arch.as_str().is_empty() {
            return Err(AuthError::InvalidDeviceIdentity);
        }
        Ok(fingerprint)
    }
}

#[derive(Debug, PartialEq, Eq)]
pub struct BoundDeviceSummary {
    pub device_id: DeviceId,
    pub public_key: DevicePublicKey,
    pub fingerprint: DeviceFingerprint,
}

impl Clone for BoundDeviceSummary {
    fn clone(&self) -> (r: Self)
        ensures
            r == *self,
    {
        BoundDeviceSummary {
            device_id: self.device_id.clone(),
            public_key: self.public_key.clone(),
            fingerprint: self.fingerprint.clone(),
        }
    }
}

#[derive(PartialEq, Eq)]
pub struct ActivationRequest {
    pub license_key: LicenseKey,
    pub device_public_key: DevicePublicKey,
    pub fingerprint: DeviceFingerprint,
    pub app_version: String,
    pub timestamp_ms: i64,
}

impl Clone for ActivationRequest {
    fn clone(&self) -> (r: Self)
        ensures
            r == *self,
    {
        ActivationRequest {
            license_key: self.license_key.clone(),
            device_public_key: self.device_public_key.clone(),
            fingerprint: self.fingerprint.clone(),
            app_version: self.app_version.clone(),
            timestamp_ms: self.timestamp_ms,
        }
    }
}

#[derive(PartialEq, Eq)]
pub struct ActivationOutcome {
    pub access_token: AccessToken,
    pub masked_license_key: MaskedLicenseKey,
    pub bound_device: BoundDeviceSummary,
    pub entitlement: EntitlementStatus,
    pub token_expires_at_ms: i64,
}

impl Clone for ActivationOutcome {
    fn clone(&self) -> (r: Self)
        ensures
            r == *self,
    {
        ActivationOutcome {
            access_token: self.access_token.clone(),
            masked_license_key: self.masked_license_key.clone(),
            bound_device: self.bound_device.clone(),
            entitlement: self.entitlement,
            token_expires_at_ms: self.token_expires_at_ms,
        }
    }
}

#[derive(Debug, Clone, Copy, PartialEq, Eq, Structural)]
pub enum EntitlementStatus {
    Active,
    Disabled,
    Refunded,
}

#[derive(Debug, PartialEq, Eq)]
pub enum ValidationOutcome {
    Active {
        masked_license_key: MaskedLicenseKey,
        bound_device: BoundDeviceSummary,
        token_expires_at_ms: i64,
    },
    ReauthRequired,
    Revoked,
}

impl Clone for ValidationOutcome {
    fn clone(&self) -> (r: Self)
        ensures
            r == *self,
    {
        match self {
            ValidationOutcome::Active { masked_license_key, bound_device, token_expires_at_ms } =>
                ValidationOutcome::Active {
                masked_license_key: masked_license_key.clone(),
                bound_device: bound_device.clone(),
                token_expires_at_ms: *token_expires_at_ms,
            },
            ValidationOutcome::ReauthRequired => ValidationOutcome::ReauthRequired,
            ValidationOutcome::Revoked => ValidationOutcome::Revoked,
        }
    }
}

#[derive(PartialEq, Eq)]
pub struct DeviceResetRequest {
    pub license_key: Option<LicenseKey>,
    pub masked_license_key: Option<MaskedLicenseKey>,
    pub purchaser_email: PurchaseEmail,
    pub device_public_key: DevicePublicKey,
    pub fingerprint: DeviceFingerprint,
    pub app_version: String,
    pub timestamp_ms: i64,
    pub receipt_reference: Option<String>,
}

impl Clone for DeviceResetRequest {
    fn clone(&self) -> (r: Self)
        ensures
            r == *self,
    {
        DeviceResetRequest {
            license_key: match &self.license_key {
                Some(k) => Some(k.clone()),
                None => None,
            },
            masked_license_key: match &self.masked_license_key {
                Some(k) => Some(k.clone()),
                None => None,
            },
            purchaser_email: self.purchaser_email.clone(),
            device_public_key: self.device_public_key.clone(),
            fingerprint: self.fingerprint.clone(),
            app_version: self.app_version.clone(),
            timestamp_ms: self.timestamp_ms,
            receipt_reference: match &self.receipt_reference {
                Some(r) => Some(r.clone()),
                None => None,
            },
        }
    }
}

#[derive(Debug, Clone, Copy, PartialEq, Eq, Structural)]
pub enum AdminResetDecision {
    Approve,
    Reject,
}

/// The text of a fingerprint.
pub struct FingerprintView {
    pub platform: Seq<char>,
    pub os: Seq<char>,
    pub arch: Seq<char>,
    pub hostname_hash: Option<Seq<char>>,
}

impl View for DeviceFingerprint {
    type V = FingerprintView;

    open spec fn view(&self) -> FingerprintView {
        FingerprintView {
            platform: self.platform@,
            os: self.os@,
            arch: self.arch@,
            hostname_hash: match self.hostname_hash {
                Some(h) => Some(h@),
                None => None,
            },
        }
    }
}

/// The text of a bound-device summary.
pub struct BoundDeviceView {
    pub device_id: Seq<char>,
    pub public_key: Seq<char>,
    pub fingerprint: FingerprintView,
}

impl View for BoundDeviceSummary {
    type V = BoundDeviceView;

    open spec fn view(&self) -> BoundDeviceView {
        BoundDeviceView {
            device_id: self.device_id@,
            public_key: self.public_key@,
            fingerprint: self.fingerprint@,
        }
    }
}

/// The text of a validation outcome.
pub enum ValidationView {
    Active {
        masked_license_key: Seq<char>,
        bound_device: BoundDeviceView,
        token_expires_at_ms: i64,
    },
    ReauthRequired,
    Revoked,
}

impl View for ValidationOutcome {
    type V = ValidationView;

    open spec fn view(&self) -> ValidationView {
        match self {
            ValidationOutcome::Active { masked_license_key, bound_device, token_expires_at_ms } =>
                ValidationView::Active {
                masked_license_key: masked_license_key@,
                bound_device: bound_device@,
                token_expires_at_ms: *token_expires_at_ms,
            },
            ValidationOutcome::ReauthRequired => ValidationView::ReauthRequired,
            ValidationOutcome::Revoked => ValidationView::Revoked,
        }
    }
}

/// The `Debug` text of an optional string: `None` or `Some(..)` around the
/// quoted string.
pub open spec fn debug_option(o: Option<Seq<char>>) -> Seq<char> {
    match o {
        Some(s) => "Some("@ + debug_quoted(s) + ")"@,
        None => "None"@,
    }
}

pub(crate) fn option_debug(o: &Option<String>) -> (r: String)
    ensures
        r@ == debug_option(
            match o {
                Some(s) => Some(s@),
                None => None,
            },
        ),
{
    match o {
        Some(s) => String::from_str("Some(").concat(str_debug(s.as_str()).as_str()).concat(")"),
        None => String::from_str("None"),
    }
}

/// The `Debug` text of a fingerprint, field by field.
pub open spec fn fingerprint_debug(f: FingerprintView) -> Seq<char> {
    "DeviceFingerprint { platform: "@ + debug_quoted(f.platform) + ", os: "@ + debug_quoted(f.os)
        + ", arch: "@ + debug_quoted(f.arch) + ", hostname_hash: "@ + debug_option(
        f.hostname_hash,
    ) + " }"@
}

impl DeviceFingerprint {
    /// The `Debug` form.
    pub fn debug_string(&self) -> (r: String)
        ensures
            r@ == fingerprint_debug(self@),
    {
        String::from_str("DeviceFingerprint { platform: ").concat(
            str_debug(self.platform.as_str()).as_str(),
        ).concat(", os: ").concat(str_debug(self.os.as_str()).as_str()).concat(", arch: ").concat(
            str_debug(self.arch.as_str()).as_str(),
        ).concat(", hostname_hash: ").concat(option_debug(&self.hostname_hash).as_str()).concat(
            " }",
        )
    }
}

} // verus!
