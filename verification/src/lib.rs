//! Groth16 proofs over BLS12-377 with a randomizer that is drawn once for a
//! proving key and shared by every proof of a session.
//!
//! Field and group elements are plain data: the limbs that the curve
//! arithmetic works on. The arithmetic itself is done by `ark-ec` and
//! `ark-ff` behind a small set of private functions whose contracts are
//! taken on trust; everything else is verified.
//!
//! A session runs as follows. A key setup, which is not part of this crate,
//! gives a `ProvingKey` and a `VerifyingKey` for a circuit.
//! `Groth16::process_vk` prepares the verifying key.
//! `Groth16::create_randomizer` draws the randomizer of the session.
//! `Groth16::prove` makes one proof for each synthesized circuit with its
//! assignment, `Groth16::verify_with_processed_vk` tests a proof against its
//! public inputs, and `all_distinct` tells whether a batch of proofs holds
//! the same proof twice.

pub mod curve;
pub mod data_structures;
pub mod distinct;
pub mod field;
pub mod pairing;
pub mod prover;
pub mod r1cs;
pub mod scalar;
pub mod verification;

pub use data_structures::{
    Groth16Error, PreparedVerifyingKey, Proof, ProvingKey, Randomizer, VerifyingKey,
};
pub use distinct::all_distinct;
pub use prover::Groth16;
pub use verification::{prepare_inputs, prepare_verifying_key};
