//! Two authenticated key exchanges built from the key-encapsulation
//! mechanism: one that authenticates the responder only, and one that
//! authenticates both parties.
//!
//! Neither exchange reports a forged message. Two parties of which one was
//! handed a forged message end with different secrets, and telling so is
//! left to whatever uses the secret.

use vstd::prelude::*;
use vstd::slice::slice_subrange;
use rand_core::{CryptoRng, RngCore};
use crate::buffer::{copy_into, wipe, zeros};
use crate::error::KyberLibError;
use crate::kem::{
    decaps_secret, decrypt_message, decrypts_encapsulation, encaps_ciphertext, encaps_secret,
    encrypt_message_from_seed, generate_key_pair_from_seed, key_pair_matches, keypair_public,
    keypair_secret, lemma_decapsulation_returns_encapsulated_secret,
};
use crate::params::{
    KYBER_CIPHERTEXT_BYTES, KYBER_PUBLIC_KEY_BYTES, KYBER_SECRET_KEY_BYTES,
    KYBER_SHARED_SECRET_BYTES, KYBER_SYM_BYTES,
};
use crate::rng::random_seed;
use crate::symmetric::{kdf, kdf_spec};

verus! {

/// Number of bytes in the message that opens a one-sided exchange.
pub const UAKE_INIT_BYTES: usize = 2272;

/// Number of bytes in the answer of a one-sided exchange.
pub const UAKE_RESPONSE_BYTES: usize = 1088;

/// Number of bytes in the message that opens a mutual exchange.
pub const AKE_INIT_BYTES: usize = 2272;

/// Number of bytes in the answer of a mutual exchange.
pub const AKE_RESPONSE_BYTES: usize = 2176;

/// What encapsulation returns: the ciphertext and the shared secret.
pub type Encapsulated = Result<
    ([u8; KYBER_CIPHERTEXT_BYTES], [u8; KYBER_SHARED_SECRET_BYTES]),
    KyberLibError,
>;

/// What decapsulation returns: the shared secret.
pub type Decapsulated = Result<[u8; KYBER_SHARED_SECRET_BYTES], KyberLibError>;

/// A public key.
pub type PublicKey = [u8; KYBER_PUBLIC_KEY_BYTES];

/// A secret key.
pub type SecretKey = [u8; KYBER_SECRET_KEY_BYTES];

/// A shared secret.
pub type SharedSecret = [u8; KYBER_SHARED_SECRET_BYTES];

/// The message that opens a one-sided exchange.
pub type UakeSendInit = [u8; UAKE_INIT_BYTES];

/// The answer of a one-sided exchange.
pub type UakeSendResponse = [u8; UAKE_RESPONSE_BYTES];

/// The message that opens a mutual exchange.
pub type AkeSendInit = [u8; AKE_INIT_BYTES];

/// The answer of a mutual exchange.
pub type AkeSendResponse = [u8; AKE_RESPONSE_BYTES];

/// The ephemeral public key at the head of an opening message.
pub open spec fn init_ephemeral_key(send_a: Seq<u8>) -> Seq<u8> {
    send_a.subrange(0, KYBER_PUBLIC_KEY_BYTES as int)
}

/// The ciphertext, for the responder, behind the ephemeral key of an opening
/// message.
pub open spec fn init_ciphertext(send_a: Seq<u8>) -> Seq<u8> {
    send_a.subrange(KYBER_PUBLIC_KEY_BYTES as int, UAKE_INIT_BYTES as int)
}

/// The first ciphertext of the answer of a mutual exchange: the one for the
/// initiator's ephemeral key.
pub open spec fn response_first(send_b: Seq<u8>) -> Seq<u8> {
    send_b.subrange(0, KYBER_CIPHERTEXT_BYTES as int)
}

/// The second ciphertext of the answer of a mutual exchange: the one for the
/// initiator's long-term key.
pub open spec fn response_second(send_b: Seq<u8>) -> Seq<u8> {
    send_b.subrange(KYBER_CIPHERTEXT_BYTES as int, AKE_RESPONSE_BYTES as int)
}

/// Opening an exchange towards the responder's public key `pkb`, with the
/// seed `d` and the fallback bytes `z` for the ephemeral key pair and the
/// randomness `m` for the encapsulation, leaves these three behind: the
/// message `send_a`, made of the ephemeral public key and the ciphertext;
/// the secret `tk` of the encapsulation; and the ephemeral secret key `esk`.
pub open spec fn opens_with(
    pkb: Seq<u8>,
    d: Seq<u8>,
    z: Seq<u8>,
    m: Seq<u8>,
    send_a: Seq<u8>,
    tk: Seq<u8>,
    esk: Seq<u8>,
) -> bool {
    &&& init_ephemeral_key(send_a) == keypair_public(d)
    &&& init_ciphertext(send_a) == encaps_ciphertext(pkb, m)
    &&& tk == encaps_secret(pkb, m)
    &&& esk == keypair_secret(d, z)
}

/// Some randomness makes these three the outcome of opening an exchange
/// towards `pkb`.
pub open spec fn is_opening(pkb: Seq<u8>, send_a: Seq<u8>, tk: Seq<u8>, esk: Seq<u8>) -> bool {
    exists|d: Seq<u8>, z: Seq<u8>, m: Seq<u8>|
        d.len() == KYBER_SYM_BYTES && z.len() == KYBER_SYM_BYTES && m.len() == KYBER_SYM_BYTES
            && #[trigger] opens_with(pkb, d, z, m, send_a, tk, esk)
}

/// The answer of the responder of a one-sided exchange to the opening
/// message `send_a`, for the randomness `m`.
pub open spec fn uake_response(send_a: Seq<u8>, m: Seq<u8>) -> Seq<u8> {
    encaps_ciphertext(init_ephemeral_key(send_a), m)
}

/// The secret that the responder of a one-sided exchange derives: from the
/// secret it encapsulated to the ephemeral key, and then the secret it
/// decapsulated with its own key.
pub open spec fn uake_responder_secret(send_a: Seq<u8>, skb: Seq<u8>, m: Seq<u8>) -> Seq<u8> {
    kdf_spec(
        encaps_secret(init_ephemeral_key(send_a), m) + decaps_secret(init_ciphertext(send_a), skb),
    )
}

/// The secret that the initiator of a one-sided exchange derives: from the
/// secret it decapsulated with its ephemeral key, and then the secret it
/// encapsulated to the responder.
pub open spec fn uake_initiator_secret(send_b: Seq<u8>, tk: Seq<u8>, esk: Seq<u8>) -> Seq<u8> {
    kdf_spec(decaps_secret(send_b, esk) + tk)
}

/// The secret that the responder of a mutual exchange derives, from three
/// blocks: the secret encapsulated to the ephemeral key, the secret
/// encapsulated to the initiator's long-term key, and the secret
/// decapsulated with its own key.
pub open spec fn ake_responder_secret(
    send_a: Seq<u8>,
    skb: Seq<u8>,
    pka: Seq<u8>,
    m2: Seq<u8>,
    m3: Seq<u8>,
) -> Seq<u8> {
    kdf_spec(
        encaps_secret(init_ephemeral_key(send_a), m2) + encaps_secret(pka, m3) + decaps_secret(
            init_ciphertext(send_a),
            skb,
        ),
    )
}

/// The secret that the initiator of a mutual exchange derives, from the same
/// three blocks in the same order: what it decapsulated with its ephemeral
/// key, what it decapsulated with its long-term key `ska`, and what it
/// encapsulated to the responder.
pub open spec fn ake_initiator_secret(
    send_b: Seq<u8>,
    tk: Seq<u8>,
    esk: Seq<u8>,
    ska: Seq<u8>,
) -> Seq<u8> {
    kdf_spec(
        decaps_secret(response_first(send_b), esk) + decaps_secret(response_second(send_b), ska)
            + tk,
    )
}

/// Answering the opening message `send_a` of a one-sided exchange with the
/// secret key `skb` and the randomness `m` gives the message `send_b` and
/// the secret `secret`.
pub open spec fn uake_answers_with(
    send_a: Seq<u8>,
    skb: Seq<u8>,
    m: Seq<u8>,
    send_b: Seq<u8>,
    secret: Seq<u8>,
) -> bool {
    &&& send_b == uake_response(send_a, m)
    &&& secret == uake_responder_secret(send_a, skb, m)
}

/// Some randomness makes `send_b` and `secret` the answer and the secret of
/// the responder of a one-sided exchange.
pub open spec fn is_uake_answer(
    send_a: Seq<u8>,
    skb: Seq<u8>,
    send_b: Seq<u8>,
    secret: Seq<u8>,
) -> bool {
    exists|m: Seq<u8>|
        m.len() == KYBER_SYM_BYTES && #[trigger] uake_answers_with(send_a, skb, m, send_b, secret)
}

/// Answering the opening message `send_a` of a mutual exchange with the
/// secret key `skb`, for the initiator's long-term key `pka` and with the
/// randomness `m2` and `m3`, gives the message `send_b`, made of a
/// ciphertext for the ephemeral key and one for `pka`, and the secret
/// `secret`.
pub open spec fn ake_answers_with(
    send_a: Seq<u8>,
    skb: Seq<u8>,
    pka: Seq<u8>,
    m2: Seq<u8>,
    m3: Seq<u8>,
    send_b: Seq<u8>,
    secret: Seq<u8>,
) -> bool {
    &&& response_first(send_b) == encaps_ciphertext(init_ephemeral_key(send_a), m2)
    &&& response_second(send_b) == encaps_ciphertext(pka, m3)
    &&& secret == ake_responder_secret(send_a, skb, pka, m2, m3)
}

/// Some randomness makes `send_b` and `secret` the answer and the secret of
/// the responder of a mutual exchange.
pub open spec fn is_ake_answer(
    send_a: Seq<u8>,
    skb: Seq<u8>,
    pka: Seq<u8>,
    send_b: Seq<u8>,
    secret: Seq<u8>,
) -> bool {
    exists|m2: Seq<u8>, m3: Seq<u8>|
        m2.len() == KYBER_SYM_BYTES && m3.len() == KYBER_SYM_BYTES && #[trigger] ake_answers_with(
            send_a,
            skb,
            pka,
            m2,
            m3,
            send_b,
            secret,
        )
}

/// In a one-sided exchange between honest parties both derive the same
/// secret. The initiator opened towards the responder's key pair and kept
/// `tk` and `esk`; the responder answered `send_a` with `send_b` and derived
/// `secret`; and the encryption scheme decrypted what was encrypted on both
/// legs. Then the secret that the initiator derives from `send_b` is
/// `secret`.
pub proof fn lemma_uake_agreement(
    pkb: Seq<u8>,
    skb: Seq<u8>,
    d: Seq<u8>,
    z: Seq<u8>,
    m1: Seq<u8>,
    m2: Seq<u8>,
    send_a: Seq<u8>,
    tk: Seq<u8>,
    esk: Seq<u8>,
    send_b: Seq<u8>,
    secret: Seq<u8>,
)
    requires
        key_pair_matches(pkb, skb),
        opens_with(pkb, d, z, m1, send_a, tk, esk),
        key_pair_matches(init_ephemeral_key(send_a), esk),
        uake_answers_with(send_a, skb, m2, send_b, secret),
        decrypts_encapsulation(pkb, skb, m1),
        decrypts_encapsulation(init_ephemeral_key(send_a), esk, m2),
    ensures
        uake_initiator_secret(send_b, tk, esk) == secret,
{
    lemma_decapsulation_returns_encapsulated_secret(pkb, skb, m1);
    lemma_decapsulation_returns_encapsulated_secret(init_ephemeral_key(send_a), esk, m2);
}

/// In a mutual exchange between honest parties both derive the same secret.
/// The initiator, whose long-term key pair is `pka` and `ska`, opened
/// towards the responder's key pair and kept `tk` and `esk`; the responder
/// answered `send_a` with `send_b` and derived `secret`; and the encryption
/// scheme decrypted what was encrypted on all three legs. Then the secret
/// that the initiator derives from `send_b` is `secret`.
pub proof fn lemma_ake_agreement(
    pka: Seq<u8>,
    ska: Seq<u8>,
    pkb: Seq<u8>,
    skb: Seq<u8>,
    d: Seq<u8>,
    z: Seq<u8>,
    m1: Seq<u8>,
    m2: Seq<u8>,
    m3: Seq<u8>,
    send_a: Seq<u8>,
    tk: Seq<u8>,
    esk: Seq<u8>,
    send_b: Seq<u8>,
    secret: Seq<u8>,
)
    requires
        key_pair_matches(pka, ska),
        key_pair_matches(pkb, skb),
        opens_with(pkb, d, z, m1, send_a, tk, esk),
        key_pair_matches(init_ephemeral_key(send_a), esk),
        ake_answers_with(send_a, skb, pka, m2, m3, send_b, secret),
        decrypts_encapsulation(pkb, skb, m1),
        decrypts_encapsulation(init_ephemeral_key(send_a), esk, m2),
        decrypts_encapsulation(pka, ska, m3),
    ensures
        ake_initiator_secret(send_b, tk, esk, ska) == secret,
{
    lemma_decapsulation_returns_encapsulated_secret(pkb, skb, m1);
    lemma_decapsulation_returns_encapsulated_secret(init_ephemeral_key(send_a), esk, m2);
    lemma_decapsulation_returns_encapsulated_secret(pka, ska, m3);
}

/// What one side of an exchange holds, as sequences of bytes.
pub struct ExchangeView {
    /// The secret that the exchange ends with.
    pub shared_secret: Seq<u8>,
    /// The opening message that this side made last.
    pub send_a: Seq<u8>,
    /// The answer that this side made last.
    pub send_b: Seq<u8>,
    /// The secret of the initiator's encapsulation to the responder.
    pub temp_key: Seq<u8>,
    /// The initiator's ephemeral secret key.
    pub ephemeral_secret: Seq<u8>,
}

/// What a side holds before its exchange, where the opening message has
/// `init_len` bytes and the answer `response_len`: zeros throughout.
pub open spec fn blank_exchange(init_len: nat, response_len: nat) -> ExchangeView {
    ExchangeView {
        shared_secret: zeros(KYBER_SHARED_SECRET_BYTES as nat),
        send_a: zeros(init_len),
        send_b: zeros(response_len),
        temp_key: zeros(KYBER_SHARED_SECRET_BYTES as nat),
        ephemeral_secret: zeros(KYBER_SECRET_KEY_BYTES as nat),
    }
}

/// One side of one run of the exchange that authenticates the responder
/// only. A value serves a single exchange.
#[derive(Clone, Debug, Eq, PartialEq)]
pub struct Uake {
    /// The secret that the exchange ends with.
    pub shared_secret: SharedSecret,
    send_a: UakeSendInit,
    send_b: UakeSendResponse,
    temp_key: SharedSecret,
    eska: SecretKey,
}

impl View for Uake {
    type V = ExchangeView;

    closed spec fn view(&self) -> ExchangeView {
        ExchangeView {
            shared_secret: self.shared_secret@,
            send_a: self.send_a@,
            send_b: self.send_b@,
            temp_key: self.temp_key@,
            ephemeral_secret: self.eska@,
        }
    }
}

/// The view leaves nothing out: two values with one view are one value. So
/// any two fresh values are equal, and so are a fresh value and one that was
/// erased.
pub proof fn lemma_uake_view_is_whole(first: Uake, second: Uake)
    requires
        first@ == second@,
    ensures
        first == second,
{
    assert(first.shared_secret =~= second.shared_secret);
    assert(first.send_a =~= second.send_a);
    assert(first.send_b =~= second.send_b);
    assert(first.temp_key =~= second.temp_key);
    assert(first.eska =~= second.eska);
}

impl Default for Uake {
    fn default() -> (state: Self)
        ensures
            state@ == blank_exchange(UAKE_INIT_BYTES as nat, UAKE_RESPONSE_BYTES as nat),
    {
        let state = Uake {
            shared_secret: [0u8; KYBER_SHARED_SECRET_BYTES],
            send_a: [0u8; UAKE_INIT_BYTES],
            send_b: [0u8; UAKE_RESPONSE_BYTES],
            temp_key: [0u8; KYBER_SHARED_SECRET_BYTES],
            eska: [0u8; KYBER_SECRET_KEY_BYTES],
        };
        assert(state.shared_secret@ =~= zeros(KYBER_SHARED_SECRET_BYTES as nat));
        assert(state.send_a@ =~= zeros(UAKE_INIT_BYTES as nat));
        assert(state.send_b@ =~= zeros(UAKE_RESPONSE_BYTES as nat));
        assert(state.temp_key@ =~= zeros(KYBER_SHARED_SECRET_BYTES as nat));
        assert(state.eska@ =~= zeros(KYBER_SECRET_KEY_BYTES as nat));
        state
    }
}

impl Uake {
    /// A fresh side of an exchange: every byte of every field is zero. Any
    /// two fresh values are therefore one value, by `lemma_uake_view_is_whole`.
    pub fn new() -> (state: Self)
        ensures
            state@ == blank_exchange(UAKE_INIT_BYTES as nat, UAKE_RESPONSE_BYTES as nat),
    {
        Self::default()
    }

    /// The secret that the exchange ended with: the field `shared_secret`.
    pub fn shared_secret(&self) -> (secret: &SharedSecret)
        ensures
            secret@ == self@.shared_secret,
    {
        &self.shared_secret
    }

    /// Opens the exchange towards the responder's public key: returns the
    /// message to send, and keeps it, the ephemeral secret key and the
    /// secret of the encapsulation for `client_confirm`. Fails only when the
    /// source of randomness fails, and then changes nothing.
    pub fn client_init<R: CryptoRng + RngCore>(&mut self, pubkey: &PublicKey, rng: &mut R) -> (res:
        Result<UakeSendInit, KyberLibError>)
        ensures
            final(self)@.shared_secret == old(self)@.shared_secret,
            final(self)@.send_b == old(self)@.send_b,
            res matches Ok(send_a) ==> final(self)@.send_a == send_a@ && is_opening(
                pubkey@,
                send_a@,
                final(self)@.temp_key,
                final(self)@.ephemeral_secret,
            ) && key_pair_matches(init_ephemeral_key(send_a@), final(self)@.ephemeral_secret),
            res matches Err(e) ==> e == KyberLibError::RandomBytesGeneration && *final(self)
                == *old(self),
    {
        match uake_init_a(&mut self.send_a, &mut self.temp_key, &mut self.eska, pubkey, rng) {
            Ok(_) => Ok(self.send_a),
            Err(e) => {
                assert(self.send_a =~= old(self).send_a);
                assert(self.temp_key =~= old(self).temp_key);
                assert(self.eska =~= old(self).eska);
                Err(e)
            },
        }
    }

    /// Answers the opening message `send_a` with the responder's secret key:
    /// returns the message to send back, keeps it, and sets `shared_secret`.
    /// Fails only when the source of randomness fails, and then changes
    /// nothing.
    pub fn server_receive<R: CryptoRng + RngCore>(
        &mut self,
        send_a: UakeSendInit,
        secretkey: &SecretKey,
        rng: &mut R,
    ) -> (res: Result<UakeSendResponse, KyberLibError>)
        ensures
            final(self)@.send_a == old(self)@.send_a,
            final(self)@.temp_key == old(self)@.temp_key,
            final(self)@.ephemeral_secret == old(self)@.ephemeral_secret,
            res matches Ok(send_b) ==> final(self)@.send_b == send_b@ && is_uake_answer(
                send_a@,
                secretkey@,
                send_b@,
                final(self)@.shared_secret,
            ),
            res matches Err(e) ==> e == KyberLibError::RandomBytesGeneration && *final(self)
                == *old(self),
    {
        match uake_shared_b(&mut self.send_b, &mut self.shared_secret, &send_a, secretkey, rng) {
            Ok(_) => Ok(self.send_b),
            Err(e) => {
                assert(self.send_b =~= old(self).send_b);
                assert(self.shared_secret =~= old(self).shared_secret);
                Err(e)
            },
        }
    }

    /// Ends the exchange on the initiator's side with the responder's answer
    /// `send_b`: sets `shared_secret` and nothing else. It never fails: a
    /// forged answer gives a secret that the responder does not share.
    pub fn client_confirm(&mut self, send_b: UakeSendResponse) -> (res: Result<(), KyberLibError>)
        ensures
            res is Ok,
            final(self)@ == (ExchangeView {
                shared_secret: uake_initiator_secret(
                    send_b@,
                    old(self)@.temp_key,
                    old(self)@.ephemeral_secret,
                ),
                ..old(self)@
            }),
    {
        uake_shared_a(&mut self.shared_secret, &send_b, &self.temp_key, &self.eska)
    }

    /// Overwrites every byte that the value holds with zeros, which leaves
    /// it as a fresh value is.
    pub fn zeroize(&mut self)
        ensures
            final(self)@ == blank_exchange(UAKE_INIT_BYTES as nat, UAKE_RESPONSE_BYTES as nat),
    {
        wipe(&mut self.shared_secret);
        wipe(&mut self.send_a);
        wipe(&mut self.send_b);
        wipe(&mut self.temp_key);
        wipe(&mut self.eska);
        assert(self.shared_secret@ =~= zeros(KYBER_SHARED_SECRET_BYTES as nat));
        assert(self.send_a@ =~= zeros(UAKE_INIT_BYTES as nat));
        assert(self.send_b@ =~= zeros(UAKE_RESPONSE_BYTES as nat));
        assert(self.temp_key@ =~= zeros(KYBER_SHARED_SECRET_BYTES as nat));
        assert(self.eska@ =~= zeros(KYBER_SECRET_KEY_BYTES as nat));
    }
}

/// One side of one run of the exchange that authenticates both parties. A
/// value serves a single exchange.
#[derive(Clone, Debug, Eq, PartialEq)]
pub struct Ake {
    /// The secret that the exchange ends with.
    pub shared_secret: SharedSecret,
    send_a: AkeSendInit,
    send_b: AkeSendResponse,
    temp_key: SharedSecret,
    eska: SecretKey,
}

impl View for Ake {
    type V = ExchangeView;

    closed spec fn view(&self) -> ExchangeView {
        ExchangeView {
            shared_secret: self.shared_secret@,
            send_a: self.send_a@,
            send_b: self.send_b@,
            temp_key: self.temp_key@,
            ephemeral_secret: self.eska@,
        }
    }
}

/// The view leaves nothing out: two values with one view are one value. So
/// any two fresh values are equal, and so are a fresh value and one that was
/// erased.
pub proof fn lemma_ake_view_is_whole(first: Ake, second: Ake)
    requires
        first@ == second@,
    ensures
        first == second,
{
    assert(first.shared_secret =~= second.shared_secret);
    assert(first.send_a =~= second.send_a);
    assert(first.send_b =~= second.send_b);
    assert(first.temp_key =~= second.temp_key);
    assert(first.eska =~= second.eska);
}

impl Default for Ake {
    fn default() -> (state: Self)
        ensures
            state@ == blank_exchange(AKE_INIT_BYTES as nat, AKE_RESPONSE_BYTES as nat),
    {
        let state = Ake {
            shared_secret: [0u8; KYBER_SHARED_SECRET_BYTES],
            send_a: [0u8; AKE_INIT_BYTES],
            send_b: [0u8; AKE_RESPONSE_BYTES],
            temp_key: [0u8; KYBER_SHARED_SECRET_BYTES],
            eska: [0u8; KYBER_SECRET_KEY_BYTES],
        };
        assert(state.shared_secret@ =~= zeros(KYBER_SHARED_SECRET_BYTES as nat));
        assert(state.send_a@ =~= zeros(AKE_INIT_BYTES as nat));
        assert(state.send_b@ =~= zeros(AKE_RESPONSE_BYTES as nat));
        assert(state.temp_key@ =~= zeros(KYBER_SHARED_SECRET_BYTES as nat));
        assert(state.eska@ =~= zeros(KYBER_SECRET_KEY_BYTES as nat));
        state
    }
}

impl Ake {
    /// A fresh side of an exchange: every byte of every field is zero. Any
    /// two fresh values are therefore one value, by `lemma_ake_view_is_whole`.
    pub fn new() -> (state: Self)
        ensures
            state@ == blank_exchange(AKE_INIT_BYTES as nat, AKE_RESPONSE_BYTES as nat),
    {
        Self::default()
    }

    /// The secret that the exchange ended with: the field `shared_secret`.
    pub fn shared_secret(&self) -> (secret: &SharedSecret)
        ensures
            secret@ == self@.shared_secret,
    {
        &self.shared_secret
    }

    /// Opens the exchange towards the responder's public key: returns the
    /// message to send, and keeps it, the ephemeral secret key and the
    /// secret of the encapsulation for `client_confirm`. Fails only when the
    /// source of randomness fails, and then changes nothing.
    pub fn client_init<R: CryptoRng + RngCore>(&mut self, pubkey: &PublicKey, rng: &mut R) -> (res:
        Result<AkeSendInit, KyberLibError>)
        ensures
            final(self)@.shared_secret == old(self)@.shared_secret,
            final(self)@.send_b == old(self)@.send_b,
            res matches Ok(send_a) ==> final(self)@.send_a == send_a@ && is_opening(
                pubkey@,
                send_a@,
                final(self)@.temp_key,
                final(self)@.ephemeral_secret,
            ) && key_pair_matches(init_ephemeral_key(send_a@), final(self)@.ephemeral_secret),
            res matches Err(e) ==> e == KyberLibError::RandomBytesGeneration && *final(self)
                == *old(self),
    {
        match ake_init_a(&mut self.send_a, &mut self.temp_key, &mut self.eska, pubkey, rng) {
            Ok(_) => Ok(self.send_a),
            Err(e) => {
                assert(self.send_a =~= old(self).send_a);
                assert(self.temp_key =~= old(self).temp_key);
                assert(self.eska =~= old(self).eska);
                Err(e)
            },
        }
    }

    /// Answers the opening message `ake_send_a` with the responder's secret
    /// key and the initiator's long-term public key `pubkey`: returns the
    /// message to send back, keeps it, and sets `shared_secret`. Fails only
    /// when the source of randomness fails, and then changes nothing.
    pub fn server_receive<R: CryptoRng + RngCore>(
        &mut self,
        ake_send_a: AkeSendInit,
        pubkey: &PublicKey,
        secretkey: &SecretKey,
        rng: &mut R,
    ) -> (res: Result<AkeSendResponse, KyberLibError>)
        ensures
            final(self)@.send_a == old(self)@.send_a,
            final(self)@.temp_key == old(self)@.temp_key,
            final(self)@.ephemeral_secret == old(self)@.ephemeral_secret,
            res matches Ok(send_b) ==> final(self)@.send_b == send_b@ && is_ake_answer(
                ake_send_a@,
                secretkey@,
                pubkey@,
                send_b@,
                final(self)@.shared_secret,
            ),
            res matches Err(e) ==> e == KyberLibError::RandomBytesGeneration && *final(self)
                == *old(self),
    {
        match ake_shared_b(
            &mut self.send_b,
            &mut self.shared_secret,
            &ake_send_a,
            secretkey,
            pubkey,
            rng,
        ) {
            Ok(_) => Ok(self.send_b),
            Err(e) => {
                assert(self.send_b =~= old(self).send_b);
                assert(self.shared_secret =~= old(self).shared_secret);
                Err(e)
            },
        }
    }

    /// Ends the exchange on the initiator's side with the responder's answer
    /// `send_b` and the initiator's long-term secret key: sets
    /// `shared_secret` and nothing else. It never fails: a forged answer
    /// gives a secret that the responder does not share.
    pub fn client_confirm(&mut self, send_b: AkeSendResponse, secretkey: &SecretKey) -> (res:
        Result<(), KyberLibError>)
        ensures
            res is Ok,
            final(self)@ == (ExchangeView {
                shared_secret: ake_initiator_secret(
                    send_b@,
                    old(self)@.temp_key,
                    old(self)@.ephemeral_secret,
                    secretkey@,
                ),
                ..old(self)@
            }),
    {
        ake_shared_a(&mut self.shared_secret, &send_b, &self.temp_key, &self.eska, secretkey)
    }

    /// Overwrites every byte that the value holds with zeros, which leaves
    /// it as a fresh value is.
    pub fn zeroize(&mut self)
        ensures
            final(self)@ == blank_exchange(AKE_INIT_BYTES as nat, AKE_RESPONSE_BYTES as nat),
    {
        wipe(&mut self.shared_secret);
        wipe(&mut self.send_a);
        wipe(&mut self.send_b);
        wipe(&mut self.temp_key);
        wipe(&mut self.eska);
        assert(self.shared_secret@ =~= zeros(KYBER_SHARED_SECRET_BYTES as nat));
        assert(self.send_a@ =~= zeros(AKE_INIT_BYTES as nat));
        assert(self.send_b@ =~= zeros(AKE_RESPONSE_BYTES as nat));
        assert(self.temp_key@ =~= zeros(KYBER_SHARED_SECRET_BYTES as nat));
        assert(self.eska@ =~= zeros(KYBER_SECRET_KEY_BYTES as nat));
    }
}

/// Opens an exchange towards the public key `pkb` with given randomness:
/// generates the ephemeral key pair from the seed `d` and the fallback bytes
/// `z`, encapsulates to `pkb` with `m`, and writes the ephemeral public key
/// followed by the ciphertext into `send`, the secret of the encapsulation
/// into `tk`, and the ephemeral secret key into `sk`.
pub fn uake_init_a_from_seed(
    send: &mut [u8],
    tk: &mut [u8],
    sk: &mut [u8],
    pkb: &[u8],
    d: &[u8; 32],
    z: &[u8; 32],
    m: &[u8; 32],
)
    requires
        old(send)@.len() == UAKE_INIT_BYTES,
        old(tk)@.len() == KYBER_SHARED_SECRET_BYTES,
        old(sk)@.len() == KYBER_SECRET_KEY_BYTES,
        pkb@.len() == KYBER_PUBLIC_KEY_BYTES,
    ensures
        final(send)@.len() == UAKE_INIT_BYTES,
        final(tk)@.len() == KYBER_SHARED_SECRET_BYTES,
        final(sk)@.len() == KYBER_SECRET_KEY_BYTES,
        final(send)@ == keypair_public(d@) + encaps_ciphertext(pkb@, m@),
        opens_with(pkb@, d@, z@, m@, final(send)@, final(tk)@, final(sk)@),
        key_pair_matches(init_ephemeral_key(final(send)@), final(sk)@),
{
    let mut ephemeral = [0u8; KYBER_PUBLIC_KEY_BYTES];
    let mut ct = [0u8; KYBER_CIPHERTEXT_BYTES];
    generate_key_pair_from_seed(&mut ephemeral, sk, d, z);
    encrypt_message_from_seed(&mut ct, tk, pkb, m);
    copy_into(send, 0, &ephemeral);
    copy_into(send, KYBER_PUBLIC_KEY_BYTES, &ct);
    assert(send@ =~= ephemeral@ + ct@);
    assert(init_ephemeral_key(send@) =~= ephemeral@);
    assert(init_ciphertext(send@) =~= ct@);
}

/// Opens an exchange towards the public key `pkb` with randomness drawn
/// from `rng`: the seed and the fallback bytes of the ephemeral key pair
/// first, then the randomness of the encapsulation. All of it is drawn
/// before anything is written: when the source fails, the three buffers are
/// untouched.
fn uake_init_a<R: CryptoRng + RngCore>(
    send: &mut [u8],
    tk: &mut [u8],
    sk: &mut [u8],
    pkb: &[u8],
    rng: &mut R,
) -> (res: Result<(), KyberLibError>)
    requires
        old(send)@.len() == UAKE_INIT_BYTES,
        old(tk)@.len() == KYBER_SHARED_SECRET_BYTES,
        old(sk)@.len() == KYBER_SECRET_KEY_BYTES,
        pkb@.len() == KYBER_PUBLIC_KEY_BYTES,
    ensures
        final(send)@.len() == UAKE_INIT_BYTES,
        final(tk)@.len() == KYBER_SHARED_SECRET_BYTES,
        final(sk)@.len() == KYBER_SECRET_KEY_BYTES,
        res is Ok ==> is_opening(pkb@, final(send)@, final(tk)@, final(sk)@) && key_pair_matches(
            init_ephemeral_key(final(send)@),
            final(sk)@,
        ),
        res matches Err(e) ==> e == KyberLibError::RandomBytesGeneration
            && final(send)@ == old(send)@ && final(tk)@ == old(tk)@ && final(sk)@ == old(sk)@,
{
    let d: [u8; 32] = match random_seed(rng) {
        Ok(bytes) => bytes,
        Err(e) => {
            return Err(e);
        },
    };
    let z: [u8; 32] = match random_seed(rng) {
        Ok(bytes) => bytes,
        Err(e) => {
            return Err(e);
        },
    };
    let m: [u8; 32] = match random_seed(rng) {
        Ok(bytes) => bytes,
        Err(e) => {
            return Err(e);
        },
    };
    uake_init_a_from_seed(send, tk, sk, pkb, &d, &z, &m);
    assert(opens_with(pkb@, d@, z@, m@, send@, tk@, sk@));
    Ok(())
}

/// The responder's part of a one-sided exchange with given randomness:
/// encapsulates with `m` to the ephemeral key at the head of `recv`, writes
/// that ciphertext into `send`, decapsulates the ciphertext behind the key
/// with `skb`, and derives the secret `k` from the two.
pub fn uake_shared_b_from_seed(
    send: &mut [u8],
    k: &mut [u8],
    recv: &[u8],
    skb: &[u8],
    m: &[u8; 32],
)
    requires
        old(send)@.len() == UAKE_RESPONSE_BYTES,
        old(k)@.len() == KYBER_SHARED_SECRET_BYTES,
        recv@.len() == UAKE_INIT_BYTES,
        skb@.len() == KYBER_SECRET_KEY_BYTES,
    ensures
        final(send)@.len() == UAKE_RESPONSE_BYTES,
        final(k)@.len() == KYBER_SHARED_SECRET_BYTES,
        uake_answers_with(recv@, skb@, m@, final(send)@, final(k)@),
{
    let mut buf = [0u8; 64];
    let mut sent = [0u8; KYBER_SHARED_SECRET_BYTES];
    let mut received = [0u8; KYBER_SHARED_SECRET_BYTES];
    encrypt_message_from_seed(send, &mut sent, slice_subrange(recv, 0, KYBER_PUBLIC_KEY_BYTES), m);
    decrypt_message(
        &mut received,
        slice_subrange(recv, KYBER_PUBLIC_KEY_BYTES, UAKE_INIT_BYTES),
        skb,
    );
    copy_into(&mut buf, 0, &sent);
    copy_into(&mut buf, 32, &received);
    assert(buf@ =~= sent@ + received@);
    assert(buf@.subrange(0, 64) =~= buf@);
    kdf(k, &buf, 64);
}

/// The responder's part of a one-sided exchange with randomness drawn from
/// `rng`. When the source fails, neither buffer is touched.
fn uake_shared_b<R: CryptoRng + RngCore>(
    send: &mut [u8],
    k: &mut [u8],
    recv: &[u8],
    skb: &[u8],
    rng: &mut R,
) -> (res: Result<(), KyberLibError>)
    requires
        old(send)@.len() == UAKE_RESPONSE_BYTES,
        old(k)@.len() == KYBER_SHARED_SECRET_BYTES,
        recv@.len() == UAKE_INIT_BYTES,
        skb@.len() == KYBER_SECRET_KEY_BYTES,
    ensures
        final(send)@.len() == UAKE_RESPONSE_BYTES,
        final(k)@.len() == KYBER_SHARED_SECRET_BYTES,
        res is Ok ==> is_uake_answer(recv@, skb@, final(send)@, final(k)@),
        res matches Err(e) ==> e == KyberLibError::RandomBytesGeneration
            && final(send)@ == old(send)@ && final(k)@ == old(k)@,
{
    let m: [u8; 32] = match random_seed(rng) {
        Ok(bytes) => bytes,
        Err(e) => {
            return Err(e);
        },
    };
    uake_shared_b_from_seed(send, k, recv, skb, &m);
    assert(uake_answers_with(recv@, skb@, m@, send@, k@));
    Ok(())
}

/// The initiator's part of a one-sided exchange: decapsulates the answer
/// `recv` with the ephemeral secret key `sk` and derives the secret `k` from
/// that and from the secret `tk` of its own encapsulation.
pub fn uake_shared_a(k: &mut [u8], recv: &[u8], tk: &[u8], sk: &[u8]) -> (res: Result<
    (),
    KyberLibError,
>)
    requires
        old(k)@.len() == KYBER_SHARED_SECRET_BYTES,
        recv@.len() == UAKE_RESPONSE_BYTES,
        tk@.len() == KYBER_SHARED_SECRET_BYTES,
        sk@.len() == KYBER_SECRET_KEY_BYTES,
    ensures
        res is Ok,
        final(k)@ == uake_initiator_secret(recv@, tk@, sk@),
        final(k)@.len() == KYBER_SHARED_SECRET_BYTES,
{
    let mut buf = [0u8; 64];
    let mut received = [0u8; KYBER_SHARED_SECRET_BYTES];
    decrypt_message(&mut received, recv, sk);
    copy_into(&mut buf, 0, &received);
    copy_into(&mut buf, 32, tk);
    assert(buf@ =~= received@ + tk@);
    assert(buf@.subrange(0, 64) =~= buf@);
    kdf(k, &buf, 64);
    Ok(())
}

/// Opens a mutual exchange towards the public key `pkb`, in the same way as
/// a one-sided exchange is opened.
fn ake_init_a<R: CryptoRng + RngCore>(
    send: &mut [u8],
    tk: &mut [u8],
    sk: &mut [u8],
    pkb: &[u8],
    rng: &mut R,
) -> (res: Result<(), KyberLibError>)
    requires
        old(send)@.len() == AKE_INIT_BYTES,
        old(tk)@.len() == KYBER_SHARED_SECRET_BYTES,
        old(sk)@.len() == KYBER_SECRET_KEY_BYTES,
        pkb@.len() == KYBER_PUBLIC_KEY_BYTES,
    ensures
        final(send)@.len() == AKE_INIT_BYTES,
        final(tk)@.len() == KYBER_SHARED_SECRET_BYTES,
        final(sk)@.len() == KYBER_SECRET_KEY_BYTES,
        res is Ok ==> is_opening(pkb@, final(send)@, final(tk)@, final(sk)@) && key_pair_matches(
            init_ephemeral_key(final(send)@),
            final(sk)@,
        ),
        res matches Err(e) ==> e == KyberLibError::RandomBytesGeneration
            && final(send)@ == old(send)@ && final(tk)@ == old(tk)@ && final(sk)@ == old(sk)@,
{
    uake_init_a(send, tk, sk, pkb, rng)
}

/// The responder's part of a mutual exchange with given randomness:
/// encapsulates with `m2` to the ephemeral key at the head of `recv` and
/// with `m3` to the initiator's long-term key `pka`, writes the two
/// ciphertexts into `send` in that order, decapsulates the ciphertext behind
/// the ephemeral key with `skb`, and derives the secret `k` from the three
/// secrets in that order.
pub fn ake_shared_b_from_seed(
    send: &mut [u8],
    k: &mut [u8],
    recv: &[u8],
    skb: &[u8],
    pka: &[u8],
    m2: &[u8; 32],
    m3: &[u8; 32],
)
    requires
        old(send)@.len() == AKE_RESPONSE_BYTES,
        old(k)@.len() == KYBER_SHARED_SECRET_BYTES,
        recv@.len() == AKE_INIT_BYTES,
        skb@.len() == KYBER_SECRET_KEY_BYTES,
        pka@.len() == KYBER_PUBLIC_KEY_BYTES,
    ensures
        final(send)@.len() == AKE_RESPONSE_BYTES,
        final(k)@.len() == KYBER_SHARED_SECRET_BYTES,
        final(send)@ == encaps_ciphertext(init_ephemeral_key(recv@), m2@) + encaps_ciphertext(
            pka@,
            m3@,
        ),
        ake_answers_with(recv@, skb@, pka@, m2@, m3@, final(send)@, final(k)@),
{
    let mut buf = [0u8; 96];
    let mut first = [0u8; KYBER_CIPHERTEXT_BYTES];
    let mut second = [0u8; KYBER_CIPHERTEXT_BYTES];
    let mut ephemeral = [0u8; KYBER_SHARED_SECRET_BYTES];
    let mut longterm = [0u8; KYBER_SHARED_SECRET_BYTES];
    let mut received = [0u8; KYBER_SHARED_SECRET_BYTES];
    encrypt_message_from_seed(
        &mut first,
        &mut ephemeral,
        slice_subrange(recv, 0, KYBER_PUBLIC_KEY_BYTES),
        m2,
    );
    encrypt_message_from_seed(&mut second, &mut longterm, pka, m3);
    decrypt_message(
        &mut received,
        slice_subrange(recv, KYBER_PUBLIC_KEY_BYTES, AKE_INIT_BYTES),
        skb,
    );
    copy_into(send, 0, &first);
    copy_into(send, KYBER_CIPHERTEXT_BYTES, &second);
    assert(send@ =~= first@ + second@);
    assert(response_first(send@) =~= first@);
    assert(response_second(send@) =~= second@);
    copy_into(&mut buf, 0, &ephemeral);
    copy_into(&mut buf, 32, &longterm);
    copy_into(&mut buf, 64, &received);
    assert(buf@ =~= ephemeral@ + longterm@ + received@);
    assert(buf@.subrange(0, 96) =~= buf@);
    kdf(k, &buf, 96);
}

/// The responder's part of a mutual exchange with randomness drawn from
/// `rng`: first for the ephemeral key, then for the long-term key. When the
/// source fails, neither buffer is touched.
fn ake_shared_b<R: CryptoRng + RngCore>(
    send: &mut [u8],
    k: &mut [u8],
    recv: &[u8],
    skb: &[u8],
    pka: &[u8],
    rng: &mut R,
) -> (res: Result<(), KyberLibError>)
    requires
        old(send)@.len() == AKE_RESPONSE_BYTES,
        old(k)@.len() == KYBER_SHARED_SECRET_BYTES,
        recv@.len() == AKE_INIT_BYTES,
        skb@.len() == KYBER_SECRET_KEY_BYTES,
        pka@.len() == KYBER_PUBLIC_KEY_BYTES,
    ensures
        final(send)@.len() == AKE_RESPONSE_BYTES,
        final(k)@.len() == KYBER_SHARED_SECRET_BYTES,
        res is Ok ==> is_ake_answer(recv@, skb@, pka@, final(send)@, final(k)@),
        res matches Err(e) ==> e == KyberLibError::RandomBytesGeneration
            && final(send)@ == old(send)@ && final(k)@ == old(k)@,
{
    let m2: [u8; 32] = match random_seed(rng) {
        Ok(bytes) => bytes,
        Err(e) => {
            return Err(e);
        },
    };
    let m3: [u8; 32] = match random_seed(rng) {
        Ok(bytes) => bytes,
        Err(e) => {
            return Err(e);
        },
    };
    ake_shared_b_from_seed(send, k, recv, skb, pka, &m2, &m3);
    assert(ake_answers_with(recv@, skb@, pka@, m2@, m3@, send@, k@));
    Ok(())
}

/// The initiator's part of a mutual exchange: decapsulates the first
/// ciphertext of the answer `recv` with the ephemeral secret key `sk` and
/// the second with the long-term secret key `ska`, and derives the secret
/// `k` from those two and the secret `tk` of its own encapsulation, in that
/// order.
pub fn ake_shared_a(k: &mut [u8], recv: &[u8], tk: &[u8], sk: &[u8], ska: &[u8]) -> (res: Result<
    (),
    KyberLibError,
>)
    requires
        old(k)@.len() == KYBER_SHARED_SECRET_BYTES,
        recv@.len() == AKE_RESPONSE_BYTES,
        tk@.len() == KYBER_SHARED_SECRET_BYTES,
        sk@.len() == KYBER_SECRET_KEY_BYTES,
        ska@.len() == KYBER_SECRET_KEY_BYTES,
    ensures
        res is Ok,
        final(k)@ == ake_initiator_secret(recv@, tk@, sk@, ska@),
        final(k)@.len() == KYBER_SHARED_SECRET_BYTES,
{
    let mut buf = [0u8; 96];
    let mut ephemeral = [0u8; KYBER_SHARED_SECRET_BYTES];
    let mut longterm = [0u8; KYBER_SHARED_SECRET_BYTES];
    decrypt_message(&mut ephemeral, slice_subrange(recv, 0, KYBER_CIPHERTEXT_BYTES), sk);
    decrypt_message(
        &mut longterm,
        slice_subrange(recv, KYBER_CIPHERTEXT_BYTES, AKE_RESPONSE_BYTES),
        ska,
    );
    copy_into(&mut buf, 0, &ephemeral);
    copy_into(&mut buf, 32, &longterm);
    copy_into(&mut buf, 64, tk);
    assert(buf@ =~= ephemeral@ + longterm@ + tk@);
    assert(buf@.subrange(0, 96) =~= buf@);
    kdf(k, &buf, 96);
    Ok(())
}

} // verus!
