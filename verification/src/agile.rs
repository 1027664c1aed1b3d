use vstd::prelude::*;

verus! {

use crate::algs::{KdfAlg, KexAlg};
use crate::bytes::copy_bytes;
use crate::err::{AgileHpkeError, HpkeError};
use crate::kex::{KeyExchange, Marshallable, Unmarshallable};
use crate::kex::{random_bytes, spec_x25519_pk, x25519_public_of};
use crate::kex::{p256_gen_private_key, p256_pub_of, p256_public_of, p256_valid_pk, p256_valid_sk};

/// A public key as a byte buffer tagged with the key-exchange family it
/// claims to belong to. The buffer is opaque until lifted.
pub struct AgilePublicKey {
    pub kex_alg: KexAlg,
    pub pubkey_bytes: Vec<u8>,
}

impl AgilePublicKey {
    /// Decodes the buffer into the statically-typed public key of a
    /// concrete key-exchange family; fails on a malformed buffer and never
    /// mutates the tagged value.
    pub fn try_lift<Kex: KeyExchange>(&self) -> (r: Result<Kex::PublicKey, AgileHpkeError>)
        ensures
            r is Ok <==> Kex::PublicKey::spec_valid_encoding(self.pubkey_bytes@),
            r matches Ok(v) ==> v.wf() && v.spec_marshal() == self.pubkey_bytes@,
            r matches Err(e) ==> e == AgileHpkeError::HpkeError(HpkeError::Decode),
    {
        match Kex::PublicKey::unmarshal(&self.pubkey_bytes) {
            Ok(v) => Ok(v),
            Err(e) => Err(AgileHpkeError::from_hpke(e)),
        }
    }
}

/// An encapsulated key as a byte buffer tagged with its key-exchange
/// family.
pub struct AgileEncappedKey {
    pub kex_alg: KexAlg,
    pub encapped_key_bytes: Vec<u8>,
}

impl AgileEncappedKey {
    /// Decodes the buffer into the statically-typed encapsulated key (a
    /// public key of the family); fails on a malformed buffer.
    pub fn try_lift<Kex: KeyExchange>(&self) -> (r: Result<Kex::PublicKey, AgileHpkeError>)
        ensures
            r is Ok <==> Kex::PublicKey::spec_valid_encoding(self.encapped_key_bytes@),
            r matches Ok(v) ==> v.wf() && v.spec_marshal() == self.encapped_key_bytes@,
            r matches Err(e) ==> e == AgileHpkeError::HpkeError(HpkeError::Decode),
    {
        match Kex::PublicKey::unmarshal(&self.encapped_key_bytes) {
            Ok(v) => Ok(v),
            Err(e) => Err(AgileHpkeError::from_hpke(e)),
        }
    }
}

/// A private key as a byte buffer tagged with its key-exchange family.
pub struct AgilePrivateKey {
    pub kex_alg: KexAlg,
    pub privkey_bytes: Vec<u8>,
}

impl AgilePrivateKey {
    /// Decodes the buffer into the statically-typed private key of a
    /// concrete key-exchange family; fails on a malformed buffer.
    pub fn try_lift<Kex: KeyExchange>(&self) -> (r: Result<Kex::PrivateKey, AgileHpkeError>)
        ensures
            r is Ok <==> Kex::PrivateKey::spec_valid_encoding(self.privkey_bytes@),
            r matches Ok(v) ==> v.wf() && v.spec_marshal() == self.privkey_bytes@,
            r matches Err(e) ==> e == AgileHpkeError::HpkeError(HpkeError::Decode),
    {
        match Kex::PrivateKey::unmarshal(&self.privkey_bytes) {
            Ok(v) => Ok(v),
            Err(e) => Err(AgileHpkeError::from_hpke(e)),
        }
    }
}

/// An owned (private, public) pair that must carry identical key-exchange
/// tags to be valid.
pub struct AgileKeypair(pub AgilePrivateKey, pub AgilePublicKey);

impl AgileKeypair {
    /// Whether the two halves declare the same key-exchange family.
    pub open spec fn spec_tags_match(self) -> bool {
        self.0.kex_alg == self.1.kex_alg
    }

    /// The mismatch error `validate` reports.
    pub open spec fn spec_validate_err(self) -> AgileHpkeError {
        AgileHpkeError::AlgMismatch(
            (self.0.kex_alg.spec_name(), "AgileKeypair::privkey"),
            (self.1.kex_alg.spec_name(), "AgileKeypair::pubkey"),
        )
    }

    /// Checks that both halves carry the same tag; a local, cheap check
    /// independent of lifting.
    pub fn validate(&self) -> (r: Result<(), AgileHpkeError>)
        ensures
            r is Ok <==> self.spec_tags_match(),
            r matches Err(e) ==> e == self.spec_validate_err(),
    {
        if self.0.kex_alg != self.1.kex_alg {
            Err(
                AgileHpkeError::AlgMismatch(
                    (self.0.kex_alg.name(), "AgileKeypair::privkey"),
                    (self.1.kex_alg.name(), "AgileKeypair::pubkey"),
                ),
            )
        } else {
            Ok(())
        }
    }

    /// Decodes both halves into their statically-typed forms.
    pub fn try_lift<Kex: KeyExchange>(&self) -> (r: Result<
        (Kex::PrivateKey, Kex::PublicKey),
        AgileHpkeError,
    >)
        ensures
            r is Ok <==> Kex::PrivateKey::spec_valid_encoding(self.0.privkey_bytes@)
                && Kex::PublicKey::spec_valid_encoding(self.1.pubkey_bytes@),
            r matches Ok(v) ==> v.0.wf() && v.0.spec_marshal() == self.0.privkey_bytes@ && v.1.wf()
                && v.1.spec_marshal() == self.1.pubkey_bytes@,
            r matches Err(e) ==> e == AgileHpkeError::HpkeError(HpkeError::Decode),
    {
        let sk = match self.0.try_lift::<Kex>() {
            Ok(sk) => sk,
            Err(e) => {
                return Err(e);
            },
        };
        let pk = match self.1.try_lift::<Kex>() {
            Ok(pk) => pk,
            Err(e) => {
                return Err(e);
            },
        };
        Ok((sk, pk))
    }
}

/// Generates a fresh keypair of the requested family, both halves tagged
/// with that family. Families without a compiled-in backend are refused
/// with `UnsupportedCombination` rather than reached.
pub fn agile_gen_keypair(kex_alg: KexAlg) -> (r: Result<AgileKeypair, AgileHpkeError>)
    ensures
        r is Ok <==> kex_alg == KexAlg::X25519 || kex_alg == KexAlg::DhP256,
        r matches Ok(kp) ==> kp.0.kex_alg == kex_alg && kp.1.kex_alg == kex_alg && (kex_alg
            == KexAlg::X25519 ==> kp.0.privkey_bytes@.len() == 32 && kp.1.pubkey_bytes@.len() == 32
            && kp.1.pubkey_bytes@ == spec_x25519_pk(kp.0.privkey_bytes@)) && (kex_alg
            == KexAlg::DhP256 ==> kp.0.privkey_bytes@.len() == 32 && p256_valid_sk(
            kp.0.privkey_bytes@,
        ) && kp.1.pubkey_bytes@.len() == 65 && p256_valid_pk(kp.1.pubkey_bytes@)
            && kp.1.pubkey_bytes@ == p256_pub_of(kp.0.privkey_bytes@)),
        r matches Err(e) ==> e == AgileHpkeError::UnsupportedCombination,
{
    match kex_alg {
        KexAlg::X25519 => {
            let sk_bytes = random_bytes(32);
            let pk_bytes = x25519_public_of(&sk_bytes);
            let sk = AgilePrivateKey { kex_alg, privkey_bytes: sk_bytes };
            let pk = AgilePublicKey { kex_alg, pubkey_bytes: pk_bytes };
            Ok(AgileKeypair(sk, pk))
        },
        KexAlg::DhP256 => {
            let sk_bytes = p256_gen_private_key();
            let pk_bytes = p256_public_of(&sk_bytes);
            let sk = AgilePrivateKey { kex_alg, privkey_bytes: sk_bytes };
            let pk = AgilePublicKey { kex_alg, pubkey_bytes: pk_bytes };
            Ok(AgileKeypair(sk, pk))
        },
        _ => Err(AgileHpkeError::UnsupportedCombination),
    }
}

/// A pre-shared key and its identifier, tagged with the key-exchange and
/// key-derivation families the bundle claims to be valid under.
pub struct AgilePskBundle {
    pub kex_alg: KexAlg,
    pub kdf_alg: KdfAlg,
    pub psk_bytes: Vec<u8>,
    pub psk_id: Vec<u8>,
}

/// A statically-typed pre-shared key bundle, as the key schedule consumes
/// it.
pub struct PskBundle {
    pub psk: Vec<u8>,
    pub psk_id: Vec<u8>,
}

impl AgilePskBundle {
    /// Moves the key material into its statically-typed form.
    pub fn try_lift(&self) -> (r: Result<PskBundle, AgileHpkeError>)
        ensures
            r matches Ok(b) ==> b.psk@ == self.psk_bytes@ && b.psk_id@ == self.psk_id@,
            r is Ok,
    {
        Ok(PskBundle { psk: copy_bytes(&self.psk_bytes), psk_id: copy_bytes(&self.psk_id) })
    }
}

/// The statically-typed receiver operation mode.
pub enum OpModeR<Kex: KeyExchange> {
    Base,
    Psk(PskBundle),
    Auth(Kex::PublicKey),
    AuthPsk(Kex::PublicKey, PskBundle),
}

/// The statically-typed sender operation mode.
pub enum OpModeS<Kex: KeyExchange> {
    Base,
    Psk(PskBundle),
    Auth((Kex::PrivateKey, Kex::PublicKey)),
    AuthPsk((Kex::PrivateKey, Kex::PublicKey), PskBundle),
}

/// The receiver-side tagged union over the four operation modes.
pub enum AgileOpModeRTy {
    Base,
    Psk(AgilePskBundle),
    Auth(AgilePublicKey),
    AuthPsk(AgilePublicKey, AgilePskBundle),
}

/// A receiver operation mode with the key-exchange and key-derivation
/// families the caller declares for the whole mode.
pub struct AgileOpModeR {
    pub kex_alg: KexAlg,
    pub kdf_alg: KdfAlg,
    pub op_mode_ty: AgileOpModeRTy,
}

impl AgileOpModeR {
    /// Whether every algorithm tag reachable inside the payload equals the
    /// mode's own declared tags.
    pub open spec fn spec_tags_consistent(self) -> bool {
        match self.op_mode_ty {
            AgileOpModeRTy::Base => true,
            AgileOpModeRTy::Psk(bundle) => bundle.kex_alg == self.kex_alg && bundle.kdf_alg
                == self.kdf_alg,
            AgileOpModeRTy::Auth(pk) => pk.kex_alg == self.kex_alg,
            AgileOpModeRTy::AuthPsk(pk, bundle) => bundle.kex_alg == self.kex_alg && bundle.kdf_alg
                == self.kdf_alg && pk.kex_alg == self.kex_alg,
        }
    }

    /// The exact result of `validate`: the declared tags are checked
    /// against each payload field in declaration order, stopping at the
    /// first mismatch.
    pub open spec fn spec_validate(self) -> Result<(), AgileHpkeError> {
        match self.op_mode_ty {
            AgileOpModeRTy::Base => Ok(()),
            AgileOpModeRTy::Psk(bundle) => if bundle.kex_alg != self.kex_alg {
                Err(
                    AgileHpkeError::AlgMismatch(
                        (self.kex_alg.spec_name(), "AgileOpModeR::kex_alg"),
                        (
                            bundle.kex_alg.spec_name(),
                            "AgileOpModeR::op_mode_ty::AgilePskBundle::kex_alg",
                        ),
                    ),
                )
            } else if bundle.kdf_alg != self.kdf_alg {
                Err(
                    AgileHpkeError::AlgMismatch(
                        (self.kdf_alg.spec_name(), "AgileOpModeR::kdf_alg"),
                        (
                            bundle.kdf_alg.spec_name(),
                            "AgileOpModeR::op_mode_ty::AgilePskBundle::kdf_alg",
                        ),
                    ),
                )
            } else {
                Ok(())
            },
            AgileOpModeRTy::Auth(pk) => if pk.kex_alg != self.kex_alg {
                Err(
                    AgileHpkeError::AlgMismatch(
                        (self.kex_alg.spec_name(), "AgileOpModeR::kex_alg"),
                        (
                            pk.kex_alg.spec_name(),
                            "AgileOpModeR::op_mode_ty::AgilePublicKey::kex_alg",
                        ),
                    ),
                )
            } else {
                Ok(())
            },
            AgileOpModeRTy::AuthPsk(pk, bundle) => if bundle.kex_alg != self.kex_alg {
                Err(
                    AgileHpkeError::AlgMismatch(
                        (self.kex_alg.spec_name(), "AgileOpModeR::kex_alg"),
                        (
                            bundle.kex_alg.spec_name(),
                            "AgileOpModeR::op_mode_ty::AgilePskBundle::kex_alg",
                        ),
                    ),
                )
            } else if bundle.kdf_alg != self.kdf_alg {
                Err(
                    AgileHpkeError::AlgMismatch(
                        (self.kdf_alg.spec_name(), "AgileOpModeR::kdf_alg"),
                        (
                            bundle.kdf_alg.spec_name(),
                            "AgileOpModeR::op_mode_ty::AgilePskBundle::kdf_alg",
                        ),
                    ),
                )
            } else if pk.kex_alg != self.kex_alg {
                Err(
                    AgileHpkeError::AlgMismatch(
                        (self.kex_alg.spec_name(), "AgileOpModeR::kex_alg"),
                        (
                            pk.kex_alg.spec_name(),
                            "AgileOpModeR::op_mode_ty::AgilePublicKey::kex_alg",
                        ),
                    ),
                )
            } else {
                Ok(())
            },
        }
    }

    /// Walks the variant and compares every nested tag against the mode's
    /// declared tags; fails with the first mismatch, before any lift.
    pub fn validate(&self) -> (r: Result<(), AgileHpkeError>)
        ensures
            r == self.spec_validate(),
            r is Ok <==> self.spec_tags_consistent(),
    {
        match &self.op_mode_ty {
            AgileOpModeRTy::Base => Ok(()),
            AgileOpModeRTy::Psk(bundle) => {
                if bundle.kex_alg != self.kex_alg {
                    Err(
                        AgileHpkeError::AlgMismatch(
                            (self.kex_alg.name(), "AgileOpModeR::kex_alg"),
                            (
                                bundle.kex_alg.name(),
                                "AgileOpModeR::op_mode_ty::AgilePskBundle::kex_alg",
                            ),
                        ),
                    )
                } else if bundle.kdf_alg != self.kdf_alg {
                    Err(
                        AgileHpkeError::AlgMismatch(
                            (self.kdf_alg.name(), "AgileOpModeR::kdf_alg"),
                            (
                                bundle.kdf_alg.name(),
                                "AgileOpModeR::op_mode_ty::AgilePskBundle::kdf_alg",
                            ),
                        ),
                    )
                } else {
                    Ok(())
                }
            },
            AgileOpModeRTy::Auth(pk) => {
                if pk.kex_alg != self.kex_alg {
                    Err(
                        AgileHpkeError::AlgMismatch(
                            (self.kex_alg.name(), "AgileOpModeR::kex_alg"),
                            (
                                pk.kex_alg.name(),
                                "AgileOpModeR::op_mode_ty::AgilePublicKey::kex_alg",
                            ),
                        ),
                    )
                } else {
                    Ok(())
                }
            },
            AgileOpModeRTy::AuthPsk(pk, bundle) => {
                if bundle.kex_alg != self.kex_alg {
                    Err(
                        AgileHpkeError::AlgMismatch(
                            (self.kex_alg.name(), "AgileOpModeR::kex_alg"),
                            (
                                bundle.kex_alg.name(),
                                "AgileOpModeR::op_mode_ty::AgilePskBundle::kex_alg",
                            ),
                        ),
                    )
                } else if bundle.kdf_alg != self.kdf_alg {
                    Err(
                        AgileHpkeError::AlgMismatch(
                            (self.kdf_alg.name(), "AgileOpModeR::kdf_alg"),
                            (
                                bundle.kdf_alg.name(),
                                "AgileOpModeR::op_mode_ty::AgilePskBundle::kdf_alg",
                            ),
                        ),
                    )
                } else if pk.kex_alg != self.kex_alg {
                    Err(
                        AgileHpkeError::AlgMismatch(
                            (self.kex_alg.name(), "AgileOpModeR::kex_alg"),
                            (
                                pk.kex_alg.name(),
                                "AgileOpModeR::op_mode_ty::AgilePublicKey::kex_alg",
                            ),
                        ),
                    )
                } else {
                    Ok(())
                }
            },
        }
    }

    /// Whether every payload buffer decodes under the concrete family.
    pub open spec fn spec_liftable<Kex: KeyExchange>(self) -> bool {
        match self.op_mode_ty {
            AgileOpModeRTy::Base => true,
            AgileOpModeRTy::Psk(_) => true,
            AgileOpModeRTy::Auth(pk) => Kex::PublicKey::spec_valid_encoding(pk.pubkey_bytes@),
            AgileOpModeRTy::AuthPsk(pk, _) => Kex::PublicKey::spec_valid_encoding(pk.pubkey_bytes@),
        }
    }

    /// How a lifted mode mirrors the tagged one, payload by payload.
    pub open spec fn spec_lift_rel<Kex: KeyExchange>(self, m: OpModeR<Kex>) -> bool {
        match self.op_mode_ty {
            AgileOpModeRTy::Base => m is Base,
            AgileOpModeRTy::Psk(bundle) => m matches OpModeR::Psk(b) && b.psk@ == bundle.psk_bytes@
                && b.psk_id@ == bundle.psk_id@,
            AgileOpModeRTy::Auth(pk) => m matches OpModeR::Auth(p) && p.wf() && p.spec_marshal()
                == pk.pubkey_bytes@,
            AgileOpModeRTy::AuthPsk(pk, bundle) => m matches OpModeR::AuthPsk(p, b) && p.wf()
                && p.spec_marshal() == pk.pubkey_bytes@ && b.psk@ == bundle.psk_bytes@ && b.psk_id@
                == bundle.psk_id@,
        }
    }

    /// Recursively lifts every payload value and constructs the equivalent
    /// statically-typed mode; callers must validate first.
    pub fn try_lift<Kex: KeyExchange>(&self) -> (r: Result<OpModeR<Kex>, AgileHpkeError>)
        ensures
            r is Ok <==> self.spec_liftable::<Kex>(),
            r matches Ok(m) ==> self.spec_lift_rel::<Kex>(m),
            r matches Err(e) ==> e == AgileHpkeError::HpkeError(HpkeError::Decode),
    {
        match &self.op_mode_ty {
            AgileOpModeRTy::Base => Ok(OpModeR::Base),
            AgileOpModeRTy::Psk(bundle) => match bundle.try_lift() {
                Ok(b) => Ok(OpModeR::Psk(b)),
                Err(e) => Err(e),
            },
            AgileOpModeRTy::Auth(pk) => match pk.try_lift::<Kex>() {
                Ok(p) => Ok(OpModeR::Auth(p)),
                Err(e) => Err(e),
            },
            AgileOpModeRTy::AuthPsk(pk, bundle) => match pk.try_lift::<Kex>() {
                Ok(p) => match bundle.try_lift() {
                    Ok(b) => Ok(OpModeR::AuthPsk(p, b)),
                    Err(e) => Err(e),
                },
                Err(e) => Err(e),
            },
        }
    }
}

/// The sender-side tagged union over the four operation modes.
pub enum AgileOpModeSTy {
    Base,
    Psk(AgilePskBundle),
    Auth(AgileKeypair),
    AuthPsk(AgileKeypair, AgilePskBundle),
}

/// A sender operation mode with the key-exchange and key-derivation
/// families the caller declares for the whole mode.
pub struct AgileOpModeS {
    pub kex_alg: KexAlg,
    pub kdf_alg: KdfAlg,
    pub op_mode_ty: AgileOpModeSTy,
}

impl AgileOpModeS {
    /// Whether every algorithm tag reachable inside the payload equals the
    /// mode's own declared tags, transitively through the nested keypair.
    pub open spec fn spec_tags_consistent(self) -> bool {
        match self.op_mode_ty {
            AgileOpModeSTy::Base => true,
            AgileOpModeSTy::Psk(bundle) => bundle.kex_alg == self.kex_alg && bundle.kdf_alg
                == self.kdf_alg,
            AgileOpModeSTy::Auth(kp) => kp.spec_tags_match() && kp.0.kex_alg == self.kex_alg,
            AgileOpModeSTy::AuthPsk(kp, bundle) => kp.spec_tags_match() && bundle.kex_alg
                == self.kex_alg && bundle.kdf_alg == self.kdf_alg && kp.0.kex_alg == self.kex_alg,
        }
    }

    /// The exact result of `validate`: the nested keypair is checked
    /// first, then the declared tags against each payload field in
    /// declaration order, stopping at the first mismatch.
    pub open spec fn spec_validate(self) -> Result<(), AgileHpkeError> {
        match self.op_mode_ty {
            AgileOpModeSTy::Base => Ok(()),
            AgileOpModeSTy::Psk(bundle) => if bundle.kex_alg != self.kex_alg {
                Err(
                    AgileHpkeError::AlgMismatch(
                        (self.kex_alg.spec_name(), "AgileOpModeS::kex_alg"),
                        (
                            bundle.kex_alg.spec_name(),
                            "AgileOpModeS::op_mode_ty::AgilePskBundle::kex_alg",
                        ),
                    ),
                )
            } else if bundle.kdf_alg != self.kdf_alg {
                Err(
                    AgileHpkeError::AlgMismatch(
                        (self.kdf_alg.spec_name(), "AgileOpModeS::kdf_alg"),
                        (
                            bundle.kdf_alg.spec_name(),
                            "AgileOpModeS::op_mode_ty::AgilePskBundle::kdf_alg",
                        ),
                    ),
                )
            } else {
                Ok(())
            },
            AgileOpModeSTy::Auth(kp) => if !kp.spec_tags_match() {
                Err(kp.spec_validate_err())
            } else if kp.0.kex_alg != self.kex_alg {
                Err(
                    AgileHpkeError::AlgMismatch(
                        (self.kex_alg.spec_name(), "AgileOpModeS::kex_alg"),
                        (
                            kp.0.kex_alg.spec_name(),
                            "AgileOpModeS::op_mode_ty::AgilePrivateKey::kex_alg",
                        ),
                    ),
                )
            } else {
                Ok(())
            },
            AgileOpModeSTy::AuthPsk(kp, bundle) => if !kp.spec_tags_match() {
                Err(kp.spec_validate_err())
            } else if bundle.kex_alg != self.kex_alg {
                Err(
                    AgileHpkeError::AlgMismatch(
                        (self.kex_alg.spec_name(), "AgileOpModeS::kex_alg"),
                        (
                            bundle.kex_alg.spec_name(),
                            "AgileOpModeS::op_mode_ty::AgilePskBundle::kex_alg",
                        ),
                    ),
                )
            } else if bundle.kdf_alg != self.kdf_alg {
                Err(
                    AgileHpkeError::AlgMismatch(
                        (self.kdf_alg.spec_name(), "AgileOpModeS::kdf_alg"),
                        (
                            bundle.kdf_alg.spec_name(),
                            "AgileOpModeS::op_mode_ty::AgilePskBundle::kdf_alg",
                        ),
                    ),
                )
            } else if kp.0.kex_alg != self.kex_alg {
                Err(
                    AgileHpkeError::AlgMismatch(
                        (self.kex_alg.spec_name(), "AgileOpModeS::kex_alg"),
                        (
                            kp.0.kex_alg.spec_name(),
                            "AgileOpModeS::op_mode_ty::AgilePrivateKey::kex_alg",
                        ),
                    ),
                )
            } else {
                Ok(())
            },
        }
    }

    /// Walks the variant and compares every nested tag against the mode's
    /// declared tags; fails with the first mismatch, before any lift.
    pub fn validate(&self) -> (r: Result<(), AgileHpkeError>)
        ensures
            r == self.spec_validate(),
            r is Ok <==> self.spec_tags_consistent(),
    {
        match &self.op_mode_ty {
            AgileOpModeSTy::Base => Ok(()),
            AgileOpModeSTy::Psk(bundle) => {
                if bundle.kex_alg != self.kex_alg {
                    Err(
                        AgileHpkeError::AlgMismatch(
                            (self.kex_alg.name(), "AgileOpModeS::kex_alg"),
                            (
                                bundle.kex_alg.name(),
                                "AgileOpModeS::op_mode_ty::AgilePskBundle::kex_alg",
                            ),
                        ),
                    )
                } else if bundle.kdf_alg != self.kdf_alg {
                    Err(
                        AgileHpkeError::AlgMismatch(
                            (self.kdf_alg.name(), "AgileOpModeS::kdf_alg"),
                            (
                                bundle.kdf_alg.name(),
                                "AgileOpModeS::op_mode_ty::AgilePskBundle::kdf_alg",
                            ),
                        ),
                    )
                } else {
                    Ok(())
                }
            },
            AgileOpModeSTy::Auth(kp) => {
                match kp.validate() {
                    Err(e) => Err(e),
                    Ok(()) => {
                        if kp.0.kex_alg != self.kex_alg {
                            Err(
                                AgileHpkeError::AlgMismatch(
                                    (self.kex_alg.name(), "AgileOpModeS::kex_alg"),
                                    (
                                        kp.0.kex_alg.name(),
                                        "AgileOpModeS::op_mode_ty::AgilePrivateKey::kex_alg",
                                    ),
                                ),
                            )
                        } else {
                            Ok(())
                        }
                    },
                }
            },
            AgileOpModeSTy::AuthPsk(kp, bundle) => {
                match kp.validate() {
                    Err(e) => Err(e),
                    Ok(()) => {
                        if bundle.kex_alg != self.kex_alg {
                            Err(
                                AgileHpkeError::AlgMismatch(
                                    (self.kex_alg.name(), "AgileOpModeS::kex_alg"),
                                    (
                                        bundle.kex_alg.name(),
                                        "AgileOpModeS::op_mode_ty::AgilePskBundle::kex_alg",
                                    ),
                                ),
                            )
                        } else if bundle.kdf_alg != self.kdf_alg {
                            Err(
                                AgileHpkeError::AlgMismatch(
                                    (self.kdf_alg.name(), "AgileOpModeS::kdf_alg"),
                                    (
                                        bundle.kdf_alg.name(),
                                        "AgileOpModeS::op_mode_ty::AgilePskBundle::kdf_alg",
                                    ),
                                ),
                            )
                        } else if kp.0.kex_alg != self.kex_alg {
                            Err(
                                AgileHpkeError::AlgMismatch(
                                    (self.kex_alg.name(), "AgileOpModeS::kex_alg"),
                                    (
                                        kp.0.kex_alg.name(),
                                        "AgileOpModeS::op_mode_ty::AgilePrivateKey::kex_alg",
                                    ),
                                ),
                            )
                        } else {
                            Ok(())
                        }
                    },
                }
            },
        }
    }

    /// Whether every payload buffer decodes under the concrete family.
    pub open spec fn spec_liftable<Kex: KeyExchange>(self) -> bool {
        match self.op_mode_ty {
            AgileOpModeSTy::Base => true,
            AgileOpModeSTy::Psk(_) => true,
            AgileOpModeSTy::Auth(kp) => Kex::PrivateKey::spec_valid_encoding(kp.0.privkey_bytes@)
                && Kex::PublicKey::spec_valid_encoding(kp.1.pubkey_bytes@),
            AgileOpModeSTy::AuthPsk(kp, _) => Kex::PrivateKey::spec_valid_encoding(
                kp.0.privkey_bytes@,
            ) && Kex::PublicKey::spec_valid_encoding(kp.1.pubkey_bytes@),
        }
    }

    /// How a lifted mode mirrors the tagged one, payload by payload.
    pub open spec fn spec_lift_rel<Kex: KeyExchange>(self, m: OpModeS<Kex>) -> bool {
        match self.op_mode_ty {
            AgileOpModeSTy::Base => m is Base,
            AgileOpModeSTy::Psk(bundle) => m matches OpModeS::Psk(b) && b.psk@ == bundle.psk_bytes@
                && b.psk_id@ == bundle.psk_id@,
            AgileOpModeSTy::Auth(kp) => m matches OpModeS::Auth(p) && p.0.wf() && p.0.spec_marshal()
                == kp.0.privkey_bytes@ && p.1.wf() && p.1.spec_marshal() == kp.1.pubkey_bytes@,
            AgileOpModeSTy::AuthPsk(kp, bundle) => m matches OpModeS::AuthPsk(p, b) && p.0.wf()
                && p.0.spec_marshal() == kp.0.privkey_bytes@ && p.1.wf() && p.1.spec_marshal()
                == kp.1.pubkey_bytes@ && b.psk@ == bundle.psk_bytes@ && b.psk_id@
                == bundle.psk_id@,
        }
    }

    /// Recursively lifts every payload value and constructs the equivalent
    /// statically-typed mode; callers must validate first.
    pub fn try_lift<Kex: KeyExchange>(&self) -> (r: Result<OpModeS<Kex>, AgileHpkeError>)
        ensures
            r is Ok <==> self.spec_liftable::<Kex>(),
            r matches Ok(m) ==> self.spec_lift_rel::<Kex>(m),
            r matches Err(e) ==> e == AgileHpkeError::HpkeError(HpkeError::Decode),
    {
        match &self.op_mode_ty {
            AgileOpModeSTy::Base => Ok(OpModeS::Base),
            AgileOpModeSTy::Psk(bundle) => match bundle.try_lift() {
                Ok(b) => Ok(OpModeS::Psk(b)),
                Err(e) => Err(e),
            },
            AgileOpModeSTy::Auth(kp) => match kp.try_lift::<Kex>() {
                Ok(p) => Ok(OpModeS::Auth(p)),
                Err(e) => Err(e),
            },
            AgileOpModeSTy::AuthPsk(kp, bundle) => match kp.try_lift::<Kex>() {
                Ok(p) => match bundle.try_lift() {
                    Ok(b) => Ok(OpModeS::AuthPsk(p, b)),
                    Err(e) => Err(e),
                },
                Err(e) => Err(e),
            },
        }
    }
}

/// A mode whose declared family differs from a nested tag is rejected by
/// validation, with `AlgMismatch`, before any lift can occur: validation
/// succeeds exactly on consistent tags, and lifting is reached only after
/// it.
pub proof fn lemma_mismatch_rejected_before_lift_s(m: AgileOpModeS)
    requires
        !m.spec_tags_consistent(),
    ensures
        m.spec_validate() is Err,
        m.spec_validate() matches Err(e) ==> e is AlgMismatch,
{
}

/// The receiver-side statement of the same law.
pub proof fn lemma_mismatch_rejected_before_lift_r(m: AgileOpModeR)
    requires
        !m.spec_tags_consistent(),
    ensures
        m.spec_validate() is Err,
        m.spec_validate() matches Err(e) ==> e is AlgMismatch,
{
}

} // verus!
