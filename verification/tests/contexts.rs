//! Senders and receivers, from setup to export.

use ohttp_hpke::crypto::tag_start;
use ohttp_hpke::{
    derive_key_pair, generate_key_pair, Aead, AuthHpkeR, AuthHpkeS, Config, Decrypt, Encrypt,
    Error, Exporter, HpkeError, HpkeR, HpkeS, Kdf, Kem, PrivateKey, PublicKey,
};

const INFO: &[u8] = b"info";
const AAD: &[u8] = b"aad";
const PT: &[u8] = b"message";

fn config(aead: Aead) -> Config {
    Config::new(Kem::X25519Sha256, Kdf::HkdfSha256, aead)
}

#[test]
fn make() {
    let cfg = Config::default();
    let (sk_r, pk_r) = generate_key_pair(cfg.kem()).unwrap();
    let hpke_s = HpkeS::new(cfg, &pk_r, INFO).unwrap();
    let _hpke_r = HpkeR::new(cfg, &pk_r, &sk_r, &hpke_s.enc().unwrap(), INFO).unwrap();
}

fn seal_open(aead: Aead, kem: Kem) {
    // Setup
    let cfg = Config::new(kem, Config::default().kdf(), aead);
    assert!(cfg.supported());
    let (sk_r, pk_r) = generate_key_pair(cfg.kem()).unwrap();

    // Send
    let mut hpke_s = HpkeS::new(cfg, &pk_r, INFO).unwrap();
    let enc = hpke_s.enc().unwrap();
    let ct = hpke_s.seal(AAD, PT).unwrap();

    // Receive
    let mut hpke_r = HpkeR::new(cfg, &pk_r, &sk_r, &enc, INFO).unwrap();
    let pt = hpke_r.open(AAD, &ct).unwrap();
    assert_eq!(&pt[..], PT);
}

#[test]
fn seal_open_gcm() {
    seal_open(Aead::Aes128Gcm, Kem::X25519Sha256);
}

#[test]
fn seal_open_chacha() {
    seal_open(Aead::ChaCha20Poly1305, Kem::X25519Sha256);
}

#[test]
fn auth_make() {
    let cfg = Config::default();
    let (sk_r, pk_r) = generate_key_pair(cfg.kem()).unwrap();
    let (sk_s, pk_s) = generate_key_pair(cfg.kem()).unwrap();
    let hpke_s = AuthHpkeS::new(cfg, &pk_r, &sk_s, INFO).unwrap();
    let _hpke_r =
        AuthHpkeR::new(cfg, &pk_r, &sk_r, &pk_s, &hpke_s.enc().unwrap(), INFO).unwrap();
}

fn auth_seal_open(aead: Aead, kem: Kem) {
    let cfg = Config::new(kem, Config::default().kdf(), aead);
    assert!(cfg.supported());
    let (sk_r, pk_r) = generate_key_pair(cfg.kem()).unwrap();
    let (sk_s, pk_s) = generate_key_pair(cfg.kem()).unwrap();

    let mut hpke_s = AuthHpkeS::new(cfg, &pk_r, &sk_s, INFO).unwrap();
    let enc = hpke_s.enc().unwrap();
    let ct = hpke_s.seal(AAD, PT).unwrap();

    let mut hpke_r = AuthHpkeR::new(cfg, &pk_r, &sk_r, &pk_s, &enc, INFO).unwrap();
    let pt = hpke_r.open(AAD, &ct).unwrap();
    assert_eq!(&pt[..], PT);
}

#[test]
fn auth_seal_open_gcm() {
    auth_seal_open(Aead::Aes128Gcm, Kem::X25519Sha256);
}

#[test]
fn auth_seal_open_chacha() {
    auth_seal_open(Aead::ChaCha20Poly1305, Kem::X25519Sha256);
}

/// A base mode context on both sides.
fn base_pair(aead: Aead) -> (HpkeS, HpkeR) {
    let cfg = config(aead);
    let (sk_r, pk_r) = generate_key_pair(cfg.kem()).unwrap();
    let sender = HpkeS::new(cfg, &pk_r, INFO).unwrap();
    let receiver = HpkeR::new(cfg, &pk_r, &sk_r, &sender.enc().unwrap(), INFO).unwrap();
    (sender, receiver)
}

/// An auth mode context on both sides.
fn auth_pair(aead: Aead) -> (AuthHpkeS, AuthHpkeR) {
    let cfg = config(aead);
    let (sk_r, pk_r) = generate_key_pair(cfg.kem()).unwrap();
    let (sk_s, pk_s) = generate_key_pair(cfg.kem()).unwrap();
    let sender = AuthHpkeS::new(cfg, &pk_r, &sk_s, INFO).unwrap();
    let enc = sender.enc().unwrap();
    let receiver = AuthHpkeR::new(cfg, &pk_r, &sk_r, &pk_s, &enc, INFO).unwrap();
    (sender, receiver)
}

/// Messages of several lengths arrive in order, with forged ones between them refused.
fn converse<S: Encrypt, R: Decrypt>(sender: &mut S, receiver: &mut R) {
    for len in [0usize, 1, 15, 16, 17, 64, 1000] {
        let plaintext = vec![len as u8; len];
        let sealed = sender.seal(AAD, &plaintext).unwrap();
        assert_eq!(sealed.len(), len + 16);
        if len >= 15 {
            assert_ne!(&sealed[..len], &plaintext[..]);
        }

        let mut forged = sealed.clone();
        forged[len] ^= 1;
        assert!(matches!(
            receiver.open(AAD, &forged),
            Err(Error::Hpke(HpkeError::OpenError))
        ));
        assert!(matches!(
            receiver.open(b"other", &sealed),
            Err(Error::Hpke(HpkeError::OpenError))
        ));
        assert_eq!(receiver.open(AAD, &sealed).unwrap(), plaintext);
        // It opens once.
        assert!(matches!(
            receiver.open(AAD, &sealed),
            Err(Error::Hpke(HpkeError::OpenError))
        ));
    }
}

#[test]
fn conversation_base_gcm() {
    let (mut sender, mut receiver) = base_pair(Aead::Aes128Gcm);
    converse(&mut sender, &mut receiver);
}

#[test]
fn conversation_base_chacha() {
    let (mut sender, mut receiver) = base_pair(Aead::ChaCha20Poly1305);
    converse(&mut sender, &mut receiver);
}

#[test]
fn conversation_auth_gcm() {
    let (mut sender, mut receiver) = auth_pair(Aead::Aes128Gcm);
    converse(&mut sender, &mut receiver);
}

#[test]
fn conversation_auth_chacha() {
    let (mut sender, mut receiver) = auth_pair(Aead::ChaCha20Poly1305);
    converse(&mut sender, &mut receiver);
}

#[test]
fn out_of_order_is_refused() {
    let (mut sender, mut receiver) = base_pair(Aead::Aes128Gcm);
    let first = sender.seal(AAD, b"first").unwrap();
    let second = sender.seal(AAD, b"second").unwrap();
    assert!(matches!(
        receiver.open(AAD, &second),
        Err(Error::Hpke(HpkeError::OpenError))
    ));
    assert_eq!(receiver.open(AAD, &first).unwrap(), b"first");
    assert_eq!(receiver.open(AAD, &second).unwrap(), b"second");
}

#[test]
fn tag_is_at_the_end() {
    assert!(matches!(tag_start(0), Err(Error::Truncated)));
    assert!(matches!(tag_start(15), Err(Error::Truncated)));
    assert_eq!(tag_start(16).unwrap(), 0);
    assert_eq!(tag_start(23).unwrap(), 7);
}

#[test]
fn short_ciphertext_is_truncated() {
    let (_, mut receiver) = base_pair(Aead::Aes128Gcm);
    assert!(matches!(receiver.open(AAD, &[]), Err(Error::Truncated)));
    assert!(matches!(receiver.open(AAD, &[0; 15]), Err(Error::Truncated)));
    assert!(matches!(
        receiver.open(AAD, &[0; 16]),
        Err(Error::Hpke(HpkeError::OpenError))
    ));
    let (_, mut receiver) = auth_pair(Aead::ChaCha20Poly1305);
    assert!(matches!(receiver.open(AAD, &[0; 15]), Err(Error::Truncated)));
    assert!(matches!(
        receiver.open(AAD, &[0; 16]),
        Err(Error::Hpke(HpkeError::OpenError))
    ));
}

/// Both sides export the same, before and after messages, and the limit is 8160 bytes.
fn exports<S: Encrypt + Exporter, R: Decrypt + Exporter>(sender: &mut S, receiver: &mut R) {
    let before = sender.export(b"context", 48).unwrap();
    assert_eq!(before.as_slice().len(), 48);
    assert_ne!(before.as_slice(), &[0; 48]);
    sender.seal(AAD, PT).unwrap();
    let after = sender.export(b"context", 48).unwrap();
    assert_eq!(before.as_slice(), after.as_slice());
    let received = receiver.export(b"context", 48).unwrap();
    assert_eq!(before.as_slice(), received.as_slice());
    let other = receiver.export(b"other", 48).unwrap();
    assert_ne!(before.as_slice(), other.as_slice());

    assert_eq!(sender.export(INFO, 0).unwrap().as_slice(), &[]);
    assert_eq!(sender.export(INFO, 8160).unwrap().as_slice().len(), 8160);
    assert!(matches!(
        sender.export(INFO, 8161),
        Err(Error::Hpke(HpkeError::KdfOutputTooLong))
    ));
    assert_eq!(receiver.export(INFO, 8160).unwrap().as_slice().len(), 8160);
    assert!(matches!(
        receiver.export(INFO, 8161),
        Err(Error::Hpke(HpkeError::KdfOutputTooLong))
    ));
}

#[test]
fn exports_base_gcm() {
    let (mut sender, mut receiver) = base_pair(Aead::Aes128Gcm);
    exports(&mut sender, &mut receiver);
}

#[test]
fn exports_base_chacha() {
    let (mut sender, mut receiver) = base_pair(Aead::ChaCha20Poly1305);
    exports(&mut sender, &mut receiver);
}

#[test]
fn exports_auth_gcm() {
    let (mut sender, mut receiver) = auth_pair(Aead::Aes128Gcm);
    exports(&mut sender, &mut receiver);
}

#[test]
fn exports_auth_chacha() {
    let (mut sender, mut receiver) = auth_pair(Aead::ChaCha20Poly1305);
    exports(&mut sender, &mut receiver);
}

#[test]
fn unsupported_configurations_are_refused() {
    let (sk, pk) = generate_key_pair(Kem::X25519Sha256).unwrap();
    for (kdf, aead) in [
        (Kdf::HkdfSha256, Aead::Aes256Gcm),
        (Kdf::HkdfSha384, Aead::Aes128Gcm),
        (Kdf::HkdfSha512, Aead::ChaCha20Poly1305),
    ] {
        let cfg = Config::new(Kem::X25519Sha256, kdf, aead);
        assert!(!cfg.supported());
        assert!(matches!(
            HpkeS::new(cfg, &pk, INFO),
            Err(Error::InvalidKeyType)
        ));
        assert!(matches!(
            AuthHpkeS::new(cfg, &pk, &sk, INFO),
            Err(Error::InvalidKeyType)
        ));
        // The encapsulated secret is not looked at.
        assert!(matches!(
            HpkeR::new(cfg, &pk, &sk, &[], INFO),
            Err(Error::InvalidKeyType)
        ));
        assert!(matches!(
            AuthHpkeR::new(cfg, &pk, &sk, &pk, &[], INFO),
            Err(Error::InvalidKeyType)
        ));
    }
}

#[test]
fn degenerate_keys_are_refused() {
    let (sk, pk) = generate_key_pair(Kem::X25519Sha256).unwrap();
    let zero = PublicKey::from_x25519_bytes(&[0; 32]).unwrap();
    for aead in [Aead::Aes128Gcm, Aead::ChaCha20Poly1305] {
        let cfg = config(aead);
        assert!(matches!(
            HpkeS::new(cfg, &zero, INFO),
            Err(Error::Hpke(HpkeError::EncapError))
        ));
        assert!(matches!(
            AuthHpkeS::new(cfg, &zero, &sk, INFO),
            Err(Error::Hpke(HpkeError::EncapError))
        ));
        assert!(matches!(
            HpkeR::new(cfg, &pk, &sk, &[0; 32], INFO),
            Err(Error::Hpke(HpkeError::DecapError))
        ));
        assert!(matches!(
            AuthHpkeR::new(cfg, &pk, &sk, &pk, &[0; 32], INFO),
            Err(Error::Hpke(HpkeError::DecapError))
        ));
        assert!(matches!(
            AuthHpkeR::new(cfg, &pk, &sk, &zero, &pk.key_data().unwrap(), INFO),
            Err(Error::Hpke(HpkeError::DecapError))
        ));
    }
}

#[test]
fn encapsulated_secret_has_32_bytes() {
    let cfg = Config::default();
    let (sk, pk) = generate_key_pair(cfg.kem()).unwrap();
    assert_eq!(HpkeS::new(cfg, &pk, INFO).unwrap().enc().unwrap().len(), 32);
    assert!(matches!(
        HpkeR::new(cfg, &pk, &sk, &[1; 31], INFO),
        Err(Error::Hpke(HpkeError::IncorrectInputLength(32, 31)))
    ));
    assert!(matches!(
        AuthHpkeR::new(cfg, &pk, &sk, &pk, &[1; 33], INFO),
        Err(Error::Hpke(HpkeError::IncorrectInputLength(32, 33)))
    ));
}

#[test]
fn each_sender_draws_its_own_secret() {
    let cfg = Config::default();
    let (_, pk) = generate_key_pair(cfg.kem()).unwrap();
    let one = HpkeS::new(cfg, &pk, INFO).unwrap();
    let two = HpkeS::new(cfg, &pk, INFO).unwrap();
    assert_ne!(one.enc().unwrap(), two.enc().unwrap());
}

#[test]
fn info_must_agree() {
    let cfg = Config::default();
    let (sk, pk) = generate_key_pair(cfg.kem()).unwrap();
    let mut sender = HpkeS::new(cfg, &pk, INFO).unwrap();
    let enc = sender.enc().unwrap();
    let ct = sender.seal(AAD, PT).unwrap();
    let mut receiver = HpkeR::new(cfg, &pk, &sk, &enc, b"other").unwrap();
    assert!(matches!(
        receiver.open(AAD, &ct),
        Err(Error::Hpke(HpkeError::OpenError))
    ));
}

#[test]
fn auth_mode_depends_on_the_sender() {
    let cfg = Config::default();
    let (sk_r, pk_r) = generate_key_pair(cfg.kem()).unwrap();
    let (sk_s, pk_s) = generate_key_pair(cfg.kem()).unwrap();
    let (_, pk_x) = generate_key_pair(cfg.kem()).unwrap();
    let mut sender = AuthHpkeS::new(cfg, &pk_r, &sk_s, INFO).unwrap();
    let enc = sender.enc().unwrap();
    let ct = sender.seal(AAD, PT).unwrap();

    let mut receiver = AuthHpkeR::new(cfg, &pk_r, &sk_r, &pk_x, &enc, INFO).unwrap();
    assert!(receiver.open(AAD, &ct).is_err());
    let mut receiver = HpkeR::new(cfg, &pk_r, &sk_r, &enc, INFO).unwrap();
    assert!(receiver.open(AAD, &ct).is_err());
    // The receiver's own public key plays no part.
    let mut receiver = AuthHpkeR::new(cfg, &pk_x, &sk_r, &pk_s, &enc, INFO).unwrap();
    assert_eq!(receiver.open(AAD, &ct).unwrap(), PT);
}

#[test]
fn contexts_know_their_configuration() {
    for aead in [Aead::Aes128Gcm, Aead::ChaCha20Poly1305] {
        let (sender, receiver) = base_pair(aead);
        assert_eq!(sender.config().aead(), aead);
        assert_eq!(receiver.config().aead(), aead);
        assert_eq!(Encrypt::alg(&sender), aead);
        assert_eq!(Decrypt::alg(&receiver), aead);
        // By dereference.
        assert_eq!(sender.kdf(), Kdf::HkdfSha256);
        assert_eq!(receiver.kem(), Kem::X25519Sha256);
        assert!(sender.supported() && receiver.supported());

        let (sender, receiver) = auth_pair(aead);
        assert_eq!(sender.config().aead(), aead);
        assert_eq!(receiver.config().aead(), aead);
        assert_eq!(Encrypt::alg(&sender), aead);
        assert_eq!(Decrypt::alg(&receiver), aead);
        assert_eq!(sender.kem(), Kem::X25519Sha256);
        assert_eq!(receiver.kdf(), Kdf::HkdfSha256);
    }
}

#[test]
fn default_configuration() {
    let cfg = Config::default();
    assert_eq!(cfg.kem(), Kem::X25519Sha256);
    assert_eq!(cfg.kdf(), Kdf::HkdfSha256);
    assert_eq!(cfg.aead(), Aead::Aes128Gcm);
    assert!(cfg.supported());
}

/// A receiver's part of a published exchange (RFC 9180, appendix A).
struct Vector {
    aead: Aead,
    sk_r: &'static str,
    pk_r: &'static str,
    pk_s: Option<&'static str>,
    enc: &'static str,
    sealed: [&'static str; 2],
    exported: &'static str,
}

fn receive<R: Decrypt + Exporter>(receiver: &mut R, vector: &Vector) {
    for (i, sealed) in vector.sealed.iter().enumerate() {
        let aad = format!("Count-{i}");
        let opened = receiver.open(aad.as_bytes(), &hex::decode(sealed).unwrap());
        assert_eq!(opened.unwrap(), b"Beauty is truth, truth beauty");
    }
    let exported = receiver.export(b"TestContext", 32).unwrap();
    assert_eq!(hex::encode(exported.as_slice()), vector.exported);
}

fn check(vector: &Vector) {
    let cfg = config(vector.aead);
    let info = b"Ode on a Grecian Urn";
    let enc = hex::decode(vector.enc).unwrap();
    let sk_r = PrivateKey::from_x25519_bytes(&hex::decode(vector.sk_r).unwrap()).unwrap();
    let pk_r = PublicKey::from_x25519_bytes(&hex::decode(vector.pk_r).unwrap()).unwrap();
    match vector.pk_s {
        None => receive(&mut HpkeR::new(cfg, &pk_r, &sk_r, &enc, info).unwrap(), vector),
        Some(pk_s) => {
            let pk_s = HpkeR::decode_public_key(cfg.kem(), &hex::decode(pk_s).unwrap()).unwrap();
            let receiver = AuthHpkeR::new(cfg, &pk_r, &sk_r, &pk_s, &enc, info);
            receive(&mut receiver.unwrap(), vector);
        }
    }
}

#[test]
fn published_base_gcm() {
    check(&Vector {
        aead: Aead::Aes128Gcm,
        sk_r: "4612c550263fc8ad58375df3f557aac531d26850903e55a9f23f21d8534e8ac8",
        pk_r: "3948cfe0ad1ddb695d780e59077195da6c56506b027329794ab02bca80815c4d",
        pk_s: None,
        enc: "37fda3567bdbd628e88668c3c8d7e97d1d1253b6d4ea6d44c150f741f1bf4431",
        sealed: [
            "f938558b5d72f1a23810b4be2ab4f84331acc02fc97babc53a52ae8218a355a96d8770ac83d07bea87e13c512a",
            "af2d7e9ac9ae7e270f46ba1f975be53c09f8d875bdc8535458c2494e8a6eab251c03d0c22a56b8ca42c2063b84",
        ],
        exported: "e9e43065102c3836401bed8c3c3c75ae46be1639869391d62c61f1ec7af54931",
    });
}

#[test]
fn published_base_chacha() {
    check(&Vector {
        aead: Aead::ChaCha20Poly1305,
        sk_r: "8057991eef8f1f1af18f4a9491d16a1ce333f695d4db8e38da75975c4478e0fb",
        pk_r: "4310ee97d88cc1f088a5576c77ab0cf5c3ac797f3d95139c6c84b5429c59662a",
        pk_s: None,
        enc: "1afa08d3dec047a643885163f1180476fa7ddb54c6a8029ea33f95796bf2ac4a",
        sealed: [
            "1c5250d8034ec2b784ba2cfd69dbdb8af406cfe3ff938e131f0def8c8b60b4db21993c62ce81883d2dd1b51a28",
            "6b53c051e4199c518de79594e1c4ab18b96f081549d45ce015be002090bb119e85285337cc95ba5f59992dc98c",
        ],
        exported: "5acb09211139c43b3090489a9da433e8a30ee7188ba8b0a9a1ccf0c229283e53",
    });
}

#[test]
fn published_auth_gcm() {
    check(&Vector {
        aead: Aead::Aes128Gcm,
        sk_r: "fdea67cf831f1ca98d8e27b1f6abeb5b7745e9d35348b80fa407ff6958f9137e",
        pk_r: "1632d5c2f71c2b38d0a8fcc359355200caa8b1ffdf28618080466c909cb69b2e",
        pk_s: Some("8b0c70873dc5aecb7f9ee4e62406a397b350e57012be45cf53b7105ae731790b"),
        enc: "23fb952571a14a25e3d678140cd0e5eb47a0961bb18afcf85896e5453c312e76",
        sealed: [
            "5fd92cc9d46dbf8943e72a07e42f363ed5f721212cd90bcfd072bfd9f44e06b80fd17824947496e21b680c141b",
            "d3736bb256c19bfa93d79e8f80b7971262cb7c887e35c26370cfed62254369a1b52e3d505b79dd699f002bc8ed",
        ],
        exported: "5a0131813abc9a522cad678eb6bafaabc43389934adb8097d23c5ff68059eb64",
    });
}

#[test]
fn published_auth_chacha() {
    check(&Vector {
        aead: Aead::ChaCha20Poly1305,
        sk_r: "3ca22a6d1cda1bb9480949ec5329d3bf0b080ca4c45879c95eddb55c70b80b82",
        pk_r: "1a478716d63cb2e16786ee93004486dc151e988b34b475043d3e0175bdb01c44",
        pk_s: Some("f0f4f9e96c54aeed3f323de8534fffd7e0577e4ce269896716bcb95643c8712b"),
        enc: "f7674cc8cd7baa5872d1f33dbaffe3314239f6197ddf5ded1746760bfc847e0e",
        sealed: [
            "ab1a13c9d4f01a87ec3440dbd756e2677bd2ecf9df0ce7ed73869b98e00c09be111cb9fdf077347aeb88e61bdf",
            "3265c7807ffff7fdace21659a2c6ccffee52a26d270c76468ed74202a65478bfaedfff9c2b7634e24f10b71016",
        ],
        exported: "1df39dc5dd60edcbf5f9ae804e15ada66e885b28ed7929116f768369a3f950ee",
    });
}

#[test]
fn derived_keys_receive() {
    let cfg = Config::default();
    let (sk, pk) = derive_key_pair(cfg.kem(), b"some keying material").unwrap();
    let mut sender = HpkeS::new(cfg, &pk, INFO).unwrap();
    let enc = sender.enc().unwrap();
    let ct = sender.seal(AAD, PT).unwrap();
    let mut receiver = HpkeR::new(cfg, &pk, &sk, &enc, INFO).unwrap();
    assert_eq!(receiver.open(AAD, &ct).unwrap(), PT);
}
