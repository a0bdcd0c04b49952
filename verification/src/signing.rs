//! Signatures of requests: the key of the account, the text that is signed, and the signed body.

use crate::json::{
    canonical, json_get, json_text, lemma_object_view, member, names_in_order, overlaid, print_json,
    set_member, upper_members_count, Json, JsonNumber, JsonView,
};
use crate::order_payload::{payload_members, to_sorted_payload, Payload};
use crate::text::{decimal, decimal_text, lex_less, outcome, starts_with_char, trim, trim_start,
    trimmed, trimmed_start};
use ed25519_dalek::Signer;
use vstd::prelude::*;
use vstd::string::StringExecFns;
use vstd::utf8::encode_utf8;

verus! {

/// Why a key cannot be used.
#[derive(Debug)]
pub enum SigningError {
    InvalidKeyLength(usize),
    InvalidBase58(String),
    InvalidJson(String),
}

/// What a [`SigningError`] says.
pub enum SigningErrorView {
    InvalidKeyLength(nat),
    InvalidBase58(Seq<char>),
    InvalidJson(Seq<char>),
}

impl View for SigningError {
    type V = SigningErrorView;

    open spec fn view(&self) -> SigningErrorView {
        match *self {
            SigningError::InvalidKeyLength(len) => SigningErrorView::InvalidKeyLength(len as nat),
            SigningError::InvalidBase58(error) => SigningErrorView::InvalidBase58(error@),
            SigningError::InvalidJson(error) => SigningErrorView::InvalidJson(error@),
        }
    }
}

impl SigningErrorView {
    /// The words for the error.
    pub open spec fn words(self) -> Seq<char> {
        match self {
            SigningErrorView::InvalidKeyLength(len) =>
                "invalid key length: expected 32 or 64 bytes, got "@ + decimal(len),
            SigningErrorView::InvalidBase58(error) => "invalid base58 key: "@ + error,
            SigningErrorView::InvalidJson(error) => "invalid json key: "@ + error,
        }
    }
}

impl SigningError {
    /// The words for the error.
    pub fn message(&self) -> (r: String)
        ensures
            r@ == self@.words(),
    {
        match self {
            SigningError::InvalidKeyLength(len) =>
                "invalid key length: expected 32 or 64 bytes, got ".to_string().concat(
                decimal_text(*len as u64).as_str(),
            ),
            SigningError::InvalidBase58(error) => "invalid base58 key: ".to_string().concat(
                error.as_str(),
            ),
            SigningError::InvalidJson(error) => "invalid json key: ".to_string().concat(
                error.as_str(),
            ),
        }
    }
}

/// The bytes that a Base58 text stands for, or the words of the error of `bs58`.
pub uninterp spec fn base58_bytes(text: Seq<char>) -> Result<Seq<u8>, Seq<char>>;

/// The Base58 text of some bytes.
pub uninterp spec fn base58_text(bytes: Seq<u8>) -> Seq<char>;

/// The bytes that a JSON list of small numbers holds, or the words of the error of `serde_json`.
pub uninterp spec fn byte_list(text: Seq<char>) -> Result<Seq<u8>, Seq<char>>;

/// The Ed25519 signature of a message under the key that a seed gives.
pub uninterp spec fn ed25519_signature(seed: Seq<u8>, message: Seq<u8>) -> Seq<u8>;

/// The Ed25519 public key that belongs to a seed.
pub uninterp spec fn ed25519_public_key(seed: Seq<u8>) -> Seq<u8>;

/// What came of reading a list of bytes.
pub open spec fn bytes_read(r: Result<Vec<u8>, String>) -> Result<Seq<u8>, Seq<char>> {
    match r {
        Ok(bytes) => Ok(bytes@),
        Err(error) => Err(error@),
    }
}

/// Reads a Base58 text with `bs58::decode` in its default alphabet. The bytes, or the words of the
/// error, depend on the text alone.
#[verifier::external_body]
fn base58_decode(text: &str) -> (r: Result<Vec<u8>, String>)
    ensures
        bytes_read(r) == base58_bytes(text@),
{
    bs58::decode(text).into_vec().map_err(|error| error.to_string())
}

/// Writes bytes with `bs58::encode` in its default alphabet. The text depends on the bytes alone.
#[verifier::external_body]
fn base58_encode(bytes: &Vec<u8>) -> (r: String)
    ensures
        r@ == base58_text(bytes@),
{
    bs58::encode(bytes).into_string()
}

/// Reads a JSON list of numbers with `serde_json::from_str` into a `Vec<u8>`. The bytes, or the
/// words of the error, depend on the text alone.
#[verifier::external_body]
fn parse_byte_list(text: &str) -> (r: Result<Vec<u8>, String>)
    ensures
        bytes_read(r) == byte_list(text@),
{
    serde_json::from_str(text).map_err(|error| error.to_string())
}

/// Signs with the `ed25519_dalek::SigningKey` that `from_bytes` makes of the seed. Ed25519
/// signatures are deterministic: the bytes depend on the seed and the message alone.
#[verifier::external_body]
fn ed25519_sign(seed: &[u8; 32], message: &[u8]) -> (r: Vec<u8>)
    ensures
        r@ == ed25519_signature(seed@, message@),
{
    ed25519_dalek::SigningKey::from_bytes(seed).sign(message).to_bytes().to_vec()
}

/// The bytes of `verifying_key` of the `ed25519_dalek::SigningKey` that `from_bytes` makes of the
/// seed. They depend on the seed alone.
#[verifier::external_body]
fn ed25519_verifying_key(seed: &[u8; 32]) -> (r: Vec<u8>)
    ensures
        r@ == ed25519_public_key(seed@),
{
    ed25519_dalek::SigningKey::from_bytes(seed).verifying_key().to_bytes().to_vec()
}

/// A private key, held as its seed.
#[derive(Clone, Copy, Debug)]
pub struct SigningKey {
    seed: [u8; 32],
}

impl View for SigningKey {
    type V = Seq<u8>;

    closed spec fn view(&self) -> Seq<u8> {
        self.seed@
    }
}

impl DeepView for SigningKey {
    type V = Seq<u8>;

    open spec fn deep_view(&self) -> Seq<u8> {
        self@
    }
}

/// The seed in the bytes of a key: the bytes themselves, or the first half of a key pair.
pub open spec fn seed_of(key_bytes: Seq<u8>) -> Result<Seq<u8>, SigningErrorView> {
    if key_bytes.len() == 32 || key_bytes.len() == 64 {
        Ok(key_bytes.take(32))
    } else {
        Err(SigningErrorView::InvalidKeyLength(key_bytes.len()))
    }
}

/// The key in the bytes of a key.
pub fn signing_key_from_bytes(key_bytes: &[u8]) -> (r: Result<SigningKey, SigningError>)
    ensures
        outcome(r) == seed_of(key_bytes@),
{
    let len: usize = key_bytes.len();
    if len != 32 && len != 64 {
        return Err(SigningError::InvalidKeyLength(len));
    }
    let mut seed: [u8; 32] = [0u8;32];
    let mut i: usize = 0;
    while i < 32
        invariant
            i <= 32,
            32 <= key_bytes.len(),
            forall|j: int| 0 <= j < i ==> seed@[j] == key_bytes@[j],
        decreases 32 - i,
    {
        seed[i] = key_bytes[i];
        i = i + 1;
    }
    assert(seed@ =~= key_bytes@.take(32));
    Ok(SigningKey { seed })
}

/// The text of the public key that belongs to the bytes of a key.
pub open spec fn public_key_of(key_bytes: Seq<u8>) -> Result<Seq<char>, SigningErrorView> {
    match seed_of(key_bytes) {
        Ok(seed) => Ok(base58_text(ed25519_public_key(seed))),
        Err(error) => Err(error),
    }
}

/// The bytes of a key that is written as a JSON list or in Base58.
pub open spec fn keypair_bytes(keypair: Seq<char>) -> Result<Seq<u8>, SigningErrorView> {
    let start = trimmed_start(keypair);
    if start.len() > 0 && start[0] == '[' {
        match byte_list(keypair) {
            Ok(bytes) => Ok(bytes),
            Err(error) => Err(SigningErrorView::InvalidJson(error)),
        }
    } else {
        match base58_bytes(trimmed(keypair)) {
            Ok(bytes) => Ok(bytes),
            Err(error) => Err(SigningErrorView::InvalidBase58(error)),
        }
    }
}

/// The text of the public key that belongs to a key pair, which is written as a JSON list or in
/// Base58.
pub fn public_key_from_keypair_text(keypair: &str) -> (r: Result<String, SigningError>)
    ensures
        outcome(r) == (match keypair_bytes(keypair@) {
            Ok(bytes) => public_key_of(bytes),
            Err(error) => Err(error),
        }),
{
    let key_bytes = if starts_with_char(trim_start(keypair), '[') {
        match parse_byte_list(keypair) {
            Ok(key_bytes) => key_bytes,
            Err(error) => {
                return Err(SigningError::InvalidJson(error));
            },
        }
    } else {
        match base58_decode(trim(keypair)) {
            Ok(key_bytes) => key_bytes,
            Err(error) => {
                return Err(SigningError::InvalidBase58(error));
            },
        }
    };
    public_key_from_key_bytes(key_bytes.as_slice())
}

/// The text of the public key that belongs to the bytes of a key.
pub fn public_key_from_key_bytes(key_bytes: &[u8]) -> (r: Result<String, SigningError>)
    ensures
        outcome(r) == public_key_of(key_bytes@),
{
    match signing_key_from_bytes(key_bytes) {
        Ok(signing_key) => Ok(base58_encode(&ed25519_verifying_key(&signing_key.seed))),
        Err(error) => Err(error),
    }
}

/// A signed request.
#[derive(Debug)]
pub struct SignedAction {
    pub account: String,
    pub signature: String,
    pub timestamp: i64,
    pub expiry_window: i64,
    pub payload: Vec<(String, Json)>,
}

/// What a [`SignedAction`] says.
pub struct SignedActionView {
    pub account: Seq<char>,
    pub signature: Seq<char>,
    pub timestamp: i64,
    pub expiry_window: i64,
    pub payload: Seq<(Seq<char>, JsonView)>,
}

impl View for SignedAction {
    type V = SignedActionView;

    open spec fn view(&self) -> SignedActionView {
        SignedActionView {
            account: self.account@,
            signature: self.signature@,
            timestamp: self.timestamp,
            expiry_window: self.expiry_window,
            payload: self.payload.deep_view(),
        }
    }
}

impl DeepView for SignedAction {
    type V = SignedActionView;

    open spec fn deep_view(&self) -> SignedActionView {
        self@
    }
}

impl SignedActionView {
    /// What is sent besides the request itself.
    pub open spec fn envelope(self) -> Seq<(Seq<char>, JsonView)> {
        seq![
            ("account"@, JsonView::Text(self.account)),
            ("expiry_window"@, JsonView::Int(self.expiry_window)),
            ("signature"@, JsonView::Text(self.signature)),
            ("timestamp"@, JsonView::Int(self.timestamp)),
        ]
    }

    /// The body to send: the members of the request laid over those of the envelope.
    pub open spec fn body(self) -> JsonView {
        JsonView::Object(overlaid(self.envelope(), self.payload, self.payload.len() as int))
    }
}

impl SignedAction {
    /// The body to send.
    pub fn into_value(self) -> (r: Json)
        requires
            canonical(JsonView::Object(self@.payload)),
        ensures
            r@ == self@.body(),
            canonical(r@),
    {
        broadcast use lemma_object_view;

        let ghost said = self@;
        let mut members: Vec<(String, Json)> = Vec::new();
        members.push(("account".to_string(), Json::Text(self.account)));
        members.push(
            ("expiry_window".to_string(), Json::Number(JsonNumber::Int(self.expiry_window))),
        );
        members.push(("signature".to_string(), Json::Text(self.signature)));
        members.push(("timestamp".to_string(), Json::Number(JsonNumber::Int(self.timestamp))));
        proof {
            assert(members.deep_view() =~= said.envelope());
            reveal_strlit("account");
            reveal_strlit("expiry_window");
            reveal_strlit("signature");
            reveal_strlit("timestamp");
            assert(names_in_order(said.envelope()));
            reveal_with_fuel(canonical, 2);
            assert(canonical(JsonView::Object(said.envelope())));
        }
        let mut payload = self.payload;
        let ghost over = payload.deep_view();
        let n: usize = payload.len();
        let mut i: usize = 0;
        while i < n
            invariant
                i <= n,
                n == over.len(),
                over == said.payload,
                payload.deep_view() == over.skip(i as int),
                canonical(JsonView::Object(over)),
                canonical(JsonView::Object(members.deep_view())),
                members.deep_view() == overlaid(said.envelope(), over, i as int),
            decreases n - i,
        {
            let ghost rest = payload.deep_view();
            let ghost left = payload@;
            assert(rest.len() == payload@.len());
            assert(rest[0] == (payload@[0].0@, payload@[0].1@));
            let (name, value) = payload.remove(0);
            proof {
                assert(rest[0] == over[i as int]);
                assert((name@, value@) == over[i as int]);
                assert forall|j: int| 0 <= j < payload@.len() implies payload.deep_view()[j]
                    == #[trigger] over.skip(i as int + 1)[j] by {
                    assert(payload@[j] == left[j + 1]);
                    assert(rest[j + 1] == left[j + 1].deep_view());
                    assert(over.skip(i as int)[j + 1] == over.skip(i as int + 1)[j]);
                }
                assert(payload.deep_view() =~= over.skip(i as int + 1));
                assert(canonical(over[i as int].1));
            }
            set_member(&mut members, name, value);
            i = i + 1;
        }
        Json::Object(members)
    }
}

/// What a signer works with.
pub struct SignerView {
    pub seed: Seq<u8>,
    pub account: Seq<char>,
    pub expiry_window: i64,
}

/// Signs the requests of an account.
#[derive(Clone, Debug)]
pub struct PacificaSigner {
    signing_key: SigningKey,
    account: String,
    expiry_window: i64,
}

impl View for PacificaSigner {
    type V = SignerView;

    closed spec fn view(&self) -> SignerView {
        SignerView {
            seed: self.signing_key@,
            account: self.account@,
            expiry_window: self.expiry_window,
        }
    }
}

impl DeepView for PacificaSigner {
    type V = SignerView;

    open spec fn deep_view(&self) -> SignerView {
        self@
    }
}

/// The signer that the bytes of a key give.
pub open spec fn signer_of(
    key_bytes: Seq<u8>,
    account: Seq<char>,
    expiry_window: i64,
) -> Result<SignerView, SigningErrorView> {
    match seed_of(key_bytes) {
        Ok(seed) => Ok(SignerView { seed, account, expiry_window }),
        Err(error) => Err(error),
    }
}

/// The text that is signed: the request, its kind and its time, with sorted names.
pub open spec fn signed_text(
    operation_type: Seq<char>,
    request: JsonView,
    timestamp: i64,
    expiry_window: i64,
) -> Seq<char> {
    json_text(
        JsonView::Object(
            seq![
                ("data"@, JsonView::Object(payload_members(request))),
                ("expiry_window"@, JsonView::Int(expiry_window)),
                ("timestamp"@, JsonView::Int(timestamp)),
                ("type"@, JsonView::Text(operation_type)),
            ],
        ),
    )
}

impl SignerView {
    /// The signed form of a request.
    pub open spec fn signed(
        self,
        operation_type: Seq<char>,
        request: JsonView,
        timestamp: i64,
    ) -> SignedActionView {
        SignedActionView {
            account: self.account,
            signature: base58_text(
                ed25519_signature(
                    self.seed,
                    encode_utf8(
                        signed_text(operation_type, request, timestamp, self.expiry_window),
                    ),
                ),
            ),
            timestamp,
            expiry_window: self.expiry_window,
            payload: payload_members(request),
        }
    }
}

impl PacificaSigner {
    /// The signer with the key in some bytes.
    pub fn from_key_bytes(key_bytes: &[u8], account: &str, expiry_window: i64) -> (r: Result<
        Self,
        SigningError,
    >)
        ensures
            outcome(r) == signer_of(key_bytes@, account@, expiry_window),
    {
        match signing_key_from_bytes(key_bytes) {
            Ok(signing_key) => Ok(
                PacificaSigner { signing_key, account: account.to_string(), expiry_window },
            ),
            Err(error) => Err(error),
        }
    }

    /// The signer with a key pair written in Base58.
    pub fn from_base58_keypair(keypair: &str, account: &str, expiry_window: i64) -> (r: Result<
        Self,
        SigningError,
    >)
        ensures
            outcome(r) == (match base58_bytes(keypair@) {
                Ok(bytes) => signer_of(bytes, account@, expiry_window),
                Err(error) => Err(SigningErrorView::InvalidBase58(error)),
            }),
    {
        match base58_decode(keypair) {
            Ok(key_bytes) => Self::from_key_bytes(key_bytes.as_slice(), account, expiry_window),
            Err(error) => Err(SigningError::InvalidBase58(error)),
        }
    }

    /// The signer with a key pair written as a JSON list.
    pub fn from_json_uint8_keypair(keypair: &str, account: &str, expiry_window: i64) -> (r: Result<
        Self,
        SigningError,
    >)
        ensures
            outcome(r) == (match byte_list(keypair@) {
                Ok(bytes) => signer_of(bytes, account@, expiry_window),
                Err(error) => Err(SigningErrorView::InvalidJson(error)),
            }),
    {
        match parse_byte_list(keypair) {
            Ok(key_bytes) => Self::from_key_bytes(key_bytes.as_slice(), account, expiry_window),
            Err(error) => Err(SigningError::InvalidJson(error)),
        }
    }

    /// The text that is signed for a request.
    pub fn canonical_message<T: Payload>(
        &self,
        operation_type: &str,
        payload: &T,
        timestamp: i64,
    ) -> (r: Result<String, SigningError>)
        ensures
            outcome(r) == Ok::<Seq<char>, SigningErrorView>(
                signed_text(operation_type@, payload.json(), timestamp, self@.expiry_window),
            ),
    {
        canonical_message(operation_type, payload, timestamp, self.expiry_window)
    }

    /// Signs a request.
    pub fn sign_payload<T: Payload>(
        &self,
        operation_type: &str,
        payload: &T,
        timestamp: i64,
    ) -> (r: Result<SignedAction, SigningError>)
        ensures
            outcome(r) == Ok::<SignedActionView, SigningErrorView>(
                self@.signed(operation_type@, payload.json(), timestamp),
            ),
            r matches Ok(signed) && canonical(JsonView::Object(signed@.payload)),
    {
        let canonical = match self.canonical_message(operation_type, payload, timestamp) {
            Ok(canonical) => canonical,
            Err(error) => {
                return Err(error);
            },
        };
        let signature = ed25519_sign(&self.signing_key.seed, canonical.as_str().as_bytes());
        Ok(
            SignedAction {
                account: self.account.clone(),
                signature: base58_encode(&signature),
                timestamp,
                expiry_window: self.expiry_window,
                payload: to_sorted_payload(payload),
            },
        )
    }
}

/// The text that is signed for a request.
pub fn canonical_message<T: Payload>(
    operation_type: &str,
    payload: &T,
    timestamp: i64,
    expiry_window: i64,
) -> (r: Result<String, SigningError>)
    ensures
        outcome(r) == Ok::<Seq<char>, SigningErrorView>(
            signed_text(operation_type@, payload.json(), timestamp, expiry_window),
        ),
{
    broadcast use lemma_object_view;

    let mut message: Vec<(String, Json)> = Vec::new();
    message.push(("data".to_string(), Json::Object(to_sorted_payload(payload))));
    message.push(("expiry_window".to_string(), Json::Number(JsonNumber::Int(expiry_window))));
    message.push(("timestamp".to_string(), Json::Number(JsonNumber::Int(timestamp))));
    message.push(("type".to_string(), Json::Text(operation_type.to_string())));
    proof {
        let said = message.deep_view();
        assert(said =~= seq![
            ("data"@, JsonView::Object(payload_members(payload.json()))),
            ("expiry_window"@, JsonView::Int(expiry_window)),
            ("timestamp"@, JsonView::Int(timestamp)),
            ("type"@, JsonView::Text(operation_type@)),
        ]);
        reveal_strlit("data");
        reveal_strlit("expiry_window");
        reveal_strlit("timestamp");
        reveal_strlit("type");
        reveal_with_fuel(lex_less, 3);
        assert(names_in_order(said));
        assert(canonical(JsonView::Object(payload_members(payload.json()))));
        assert(canonical(JsonView::Int(expiry_window)));
        assert(canonical(JsonView::Int(timestamp)));
        assert(canonical(JsonView::Text(operation_type@)));
        assert forall|i: int| 0 <= i < said.len() implies canonical((#[trigger] said[i]).1) by {}
        assert(canonical(JsonView::Object(said)));
    }
    Ok(print_json(Json::Object(message)))
}

/// A key pair signs like its first half, and belongs to the same public key.
pub proof fn key_pair_signs_like_its_seed(
    pair: Seq<u8>,
    account: Seq<char>,
    expiry_window: i64,
)
    requires
        pair.len() == 64,
    ensures
        signer_of(pair, account, expiry_window) == signer_of(
            pair.take(32),
            account,
            expiry_window,
        ),
        public_key_of(pair) == public_key_of(pair.take(32)),
{
    assert(pair.take(32).take(32) =~= pair.take(32));
}

/// The body to send holds every member of the request, and besides them the account, the
/// signature and the times.
pub proof fn signed_body_holds_the_request(signed: SignedActionView, name: Seq<char>)
    requires
        names_in_order(signed.payload),
    ensures
        json_get(signed.body(), name) == (match member(signed.payload, name) {
            Some(value) => Some(value),
            None => member(signed.envelope(), name),
        }),
        member(signed.envelope(), "account"@) == Some(JsonView::Text(signed.account)),
        member(signed.envelope(), "signature"@) == Some(JsonView::Text(signed.signature)),
        member(signed.envelope(), "timestamp"@) == Some(JsonView::Int(signed.timestamp)),
        member(signed.envelope(), "expiry_window"@) == Some(JsonView::Int(signed.expiry_window)),
{
    reveal_strlit("account");
    reveal_strlit("expiry_window");
    reveal_strlit("signature");
    reveal_strlit("timestamp");
    let members = signed.envelope();
    assert(names_in_order(members));
    upper_members_count(members, signed.payload, signed.payload.len() as int, name);
    assert(signed.payload.take(signed.payload.len() as int) =~= signed.payload);
    reveal_with_fuel(member, 5);
    assert("account"@.len() == 7 && "expiry_window"@.len() == 13);
    assert("signature"@[0] == 's' && "timestamp"@[0] == 't');
    let rest = members.drop_first();
    assert(rest[0] == members[1]);
    assert(rest.drop_first()[0] == members[2]);
    assert(rest.drop_first().drop_first()[0] == members[3]);
}

} // verus!
