//! Verifier circuits for input proofs: which verification is built, and what it is handed.
use crate::decimal::{append_decimal, decimal};
use crate::fri::{
    FriRecursionBackend, FriRecursionBackendD5, FriRecursionBackendForExt, TableProver,
};
use crate::ops::{ChallengerPermConfig, NonPrimitiveOpId};
use vstd::prelude::*;

verus! {

/// Why a verifier circuit could not be built or fed.
#[derive(Debug)]
pub enum VerificationError {
    /// The input proof does not have the shape that is expected of it.
    InvalidProofShape(String),
    /// An error raised by the verifier circuit itself.
    Other(String),
}

impl VerificationError {
    /// Whether this reports the shape of the input with the given message.
    pub open spec fn is_invalid_shape(self, message: Seq<char>) -> bool {
        self matches VerificationError::InvalidProofShape(m) && m@ == message
    }
}

/// The types that an input proof is made of.
pub trait ProofTypes: Sized {
    /// Proof of a single instance.
    type UniProof;

    /// Constraint system of a single instance.
    type Air;

    /// Public value.
    type Value;

    /// Commitment to preprocessed columns.
    type Commitment;

    /// Proof of a batch of instances.
    type BatchProof;

    /// Data shared by prover and verifier of a batch.
    type CommonData;
}

/// A batch proof and the extension degree of the circuit it is a proof of.
pub struct BatchStarkProof<P> {
    /// Extension degree.
    pub ext_degree: usize,
    /// The proof.
    pub proof: P,
}

/// A proof that is to be verified inside a circuit.
pub enum RecursionInput<T: ProofTypes> {
    /// Proof of a single instance.
    UniStark {
        /// The proof.
        proof: T::UniProof,
        /// Its constraint system.
        air: T::Air,
        /// Its public inputs.
        public_inputs: Vec<T::Value>,
        /// Commitment to its preprocessed columns, if it has any.
        preprocessed_commit: Option<T::Commitment>,
    },
    /// Proof of a batch.
    BatchStark {
        /// The proof.
        proof: BatchStarkProof<T::BatchProof>,
        /// Data shared with the prover.
        common_data: T::CommonData,
        /// Public inputs of each table.
        table_public_inputs: Vec<Vec<T::Value>>,
    },
}

/// A configuration that uses FRI with a Merkle-tree commitment. Implemented by users of the back
/// ends.
pub trait FriRecursionConfig: ProofTypes {
    /// Parameters of the polynomial commitment's verifier.
    type VerifierParams;

    /// FRI opening proof, by value.
    type RawOpeningProof;

    /// Circuit under construction.
    type Circuit;

    /// Circuit with its inputs.
    type Runner;

    /// Verifier transcript of an input proof, where the openings are verified.
    type Transcript;

    /// Number of field elements in a Merkle digest.
    const DIGEST_ELEMS: usize;

    /// What preparing a circuit may do: anything, unless the configuration says more.
    open spec fn prepare_outcome(
        &self,
        before: Self::Circuit,
        after: Self::Circuit,
        result: Result<(), VerificationError>,
    ) -> bool {
        true
    }

    /// What setting the private data may do: anything, unless the configuration says more.
    open spec fn private_data_outcome(
        &self,
        before: Self::Runner,
        op_ids: Seq<NonPrimitiveOpId>,
        opening_proof: Self::RawOpeningProof,
        transcript: Self::Transcript,
        after: Self::Runner,
        result: Result<(), &'static str>,
    ) -> bool {
        true
    }

    /// The FRI opening proof of an input proof.
    fn fri_opening_proof(prev: &RecursionInput<Self>) -> &Self::RawOpeningProof;

    /// Prepare the circuit for verification, before the verifier is built.
    fn prepare_circuit_for_verification(&self, circuit: &mut Self::Circuit) -> (res: Result<
        (),
        VerificationError,
    >)
        ensures
            self.prepare_outcome(*old(circuit), *final(circuit), res),
    ;

    /// The parameters that the configuration holds. What they are is known of configurations that
    /// say so.
    open spec fn held_params(&self) -> Self::VerifierParams {
        arbitrary()
    }

    /// Parameters of the polynomial commitment's verifier. The configuration holds them and returns
    /// a reference.
    fn pcs_verifier_params(&self) -> (res: &Self::VerifierParams)
        ensures
            *res == self.held_params(),
    ;

    /// Set the Merkle paths of the FRI queries as private data.
    ///
    /// `transcript` is the verifier transcript of the proof, where the openings are verified: the
    /// queried indices come out of the transcript and not out of the proof.
    fn set_fri_private_data(
        &self,
        runner: &mut Self::Runner,
        op_ids: &Vec<NonPrimitiveOpId>,
        opening_proof: &Self::RawOpeningProof,
        transcript: Self::Transcript,
    ) -> (res: Result<(), &'static str>)
        ensures
            self.private_data_outcome(
                *old(runner),
                op_ids@,
                *opening_proof,
                transcript,
                *final(runner),
                res,
            ),
    ;
}

/// What the verifier of a single instance is handed: it allocates the inputs and builds the
/// verification.
pub struct UniVerifierCall<'a, SC: FriRecursionConfig, C> {
    /// The proof.
    pub proof: &'a SC::UniProof,
    /// Its constraint system.
    pub air: &'a SC::Air,
    /// Commitment to its preprocessed columns.
    pub preprocessed_commit: &'a Option<SC::Commitment>,
    /// How many public inputs to allocate.
    pub public_input_count: usize,
    /// Parameters of the polynomial commitment's verifier.
    pub params: &'a SC::VerifierParams,
    /// Challenger permutation.
    pub challenger_perm_config: C,
}

/// What the verifier of a batch is handed.
pub struct BatchVerifierCall<'a, SC: FriRecursionConfig, C> {
    /// Extension degree that the verifier is built for.
    pub degree: usize,
    /// The proof.
    pub proof: &'a BatchStarkProof<SC::BatchProof>,
    /// Data shared with the prover.
    pub common_data: &'a SC::CommonData,
    /// Parameters of the polynomial commitment's verifier.
    pub params: &'a SC::VerifierParams,
    /// Challenger permutation.
    pub challenger_perm_config: C,
    /// Provers of the plug-in tables, in the order of the tables.
    pub non_primitive_provers: Vec<TableProver>,
}

/// The verification that is to be built into the circuit, with all that it is handed.
pub enum VerifierCircuitCall<'a, SC: FriRecursionConfig, C> {
    /// Verify a single instance.
    UniStark(UniVerifierCall<'a, SC, C>),
    /// Verify a batch.
    BatchStark(BatchVerifierCall<'a, SC, C>),
}

/// Whether there is a batch verifier for circuits of an extension degree.
pub open spec fn supported_degree(degree: usize) -> bool {
    degree == 1 || degree == 2 || degree == 4 || degree == 5
}

/// Whether `call` verifies the single instance `prev`: it is handed the instance's parts, the number
/// of its public inputs, the configuration's parameters and the challenger.
pub open spec fn is_uni_call<SC: FriRecursionConfig, C>(
    challenger: C,
    prev: RecursionInput<SC>,
    config: SC,
    call: UniVerifierCall<SC, C>,
) -> bool {
    &&& prev matches RecursionInput::UniStark { proof, air, public_inputs, preprocessed_commit }
    &&& *call.proof == proof
    &&& *call.air == air
    &&& *call.preprocessed_commit == preprocessed_commit
    &&& call.public_input_count == public_inputs@.len()
    &&& *call.params == config.held_params()
    &&& call.challenger_perm_config == challenger
}

/// Whether `call` verifies the batch `prev`: it is handed the batch's parts, the configuration's
/// parameters, the challenger and the provers.
pub open spec fn is_batch_call<SC: FriRecursionConfig, C>(
    challenger: C,
    prev: RecursionInput<SC>,
    config: SC,
    provers: Seq<TableProver>,
    call: BatchVerifierCall<SC, C>,
) -> bool {
    &&& prev matches RecursionInput::BatchStark { proof, common_data, table_public_inputs }
    &&& call.degree == proof.ext_degree
    &&& *call.proof == proof
    &&& *call.common_data == common_data
    &&& *call.params == config.held_params()
    &&& call.challenger_perm_config == challenger
    &&& call.non_primitive_provers@ == provers
}

/// Whether `prev` is a batch of an extension degree that has no verifier.
pub open spec fn is_unsupported_batch<SC: FriRecursionConfig>(prev: RecursionInput<SC>) -> bool {
    prev matches RecursionInput::BatchStark { proof, .. } && !supported_degree(proof.ext_degree)
}

/// Whether `prev` is a batch of an extension degree that has no verifier, which `e` reports.
pub open spec fn is_unsupported<SC: FriRecursionConfig>(
    prev: RecursionInput<SC>,
    e: VerificationError,
) -> bool {
    &&& is_unsupported_batch(prev)
    &&& prev matches RecursionInput::BatchStark { proof, common_data, table_public_inputs }
    &&& e.is_invalid_shape(
        "unsupported batch proof ext_degree "@ + decimal(proof.ext_degree as nat),
    )
}

/// What a back end decides for an input: the verification of the input's kind, or an error, if the
/// input is a batch of an unsupported degree.
pub open spec fn is_verifier_call<SC: FriRecursionConfig, C>(
    challenger: C,
    prev: RecursionInput<SC>,
    config: SC,
    provers: Seq<TableProver>,
    result: Result<VerifierCircuitCall<SC, C>, VerificationError>,
) -> bool {
    match result {
        Ok(VerifierCircuitCall::UniStark(call)) => is_uni_call(challenger, prev, config, call),
        Ok(VerifierCircuitCall::BatchStark(call)) => supported_degree(call.degree)
            && is_batch_call(challenger, prev, config, provers, call),
        Err(e) => is_unsupported(prev, e),
    }
}

/// The verification that `backend` decides on for `prev`.
pub fn verifier_call<
    'a,
    SC: FriRecursionConfig + 'a,
    C: ChallengerPermConfig + Copy,
    const WIDTH: usize,
    const RATE: usize,
>(
    backend: &FriRecursionBackend<WIDTH, RATE, C>,
    prev: &'a RecursionInput<SC>,
    config: &'a SC,
    non_primitive_provers: Vec<TableProver>,
) -> (res: Result<VerifierCircuitCall<'a, SC, C>, VerificationError>)
    ensures
        is_verifier_call(
            backend.challenger_perm_config,
            *prev,
            *config,
            non_primitive_provers@,
            res,
        ),
{
    match prev {
        RecursionInput::UniStark { proof, air, public_inputs, preprocessed_commit } => Ok(
            VerifierCircuitCall::UniStark(
                UniVerifierCall {
                    proof,
                    air,
                    preprocessed_commit,
                    public_input_count: public_inputs.len(),
                    params: config.pcs_verifier_params(),
                    challenger_perm_config: backend.challenger_perm_config,
                },
            ),
        ),
        RecursionInput::BatchStark { proof, common_data, table_public_inputs: _ } => {
            match proof.ext_degree {
                1 | 2 | 4 | 5 => Ok(
                    VerifierCircuitCall::BatchStark(
                        BatchVerifierCall {
                            degree: proof.ext_degree,
                            proof,
                            common_data,
                            params: config.pcs_verifier_params(),
                            challenger_perm_config: backend.challenger_perm_config,
                            non_primitive_provers,
                        },
                    ),
                ),
                d => {
                    let mut message: String = "unsupported batch proof ext_degree ".to_owned();
                    append_decimal(&mut message, d);
                    Err(VerificationError::InvalidProofShape(message))
                },
            }
        },
    }
}

/// What a verifier returns: the builder of its inputs, and the operations that need private data.
pub type Verified<I> = Result<(I, Vec<NonPrimitiveOpId>), VerificationError>;

/// What building the verification of `prev` gives: for a single instance, what `verify_uni` makes of
/// its call; for a batch of a supported degree, what `verify_batch` makes of its call; and an error
/// for any other batch. Either verifier is handed the circuit `circuit`, and its error is passed on.
pub open spec fn is_built<'a, SC: FriRecursionConfig + 'a, C, K, U, B, FU, FB>(
    challenger: C,
    prev: RecursionInput<SC>,
    config: SC,
    circuit: K,
    provers: Seq<TableProver>,
    verify_uni: FU,
    verify_batch: FB,
    result: Result<FriVerifierResult<U, B>, VerificationError>,
) -> bool where
    FU: FnOnce(K, UniVerifierCall<'a, SC, C>) -> Verified<U>,
    FB: FnOnce(K, BatchVerifierCall<'a, SC, C>) -> Verified<B>,
 {
    match prev {
        RecursionInput::UniStark { .. } => exists|
            call: UniVerifierCall<'a, SC, C>,
            verified: Verified<U>,
        |
            {
                &&& is_uni_call(challenger, prev, config, call)
                &&& #[trigger] call_ensures(verify_uni, (circuit, call), verified)
                &&& FriVerifierResult::<U, B>::holds_uni(verified, result)
            },
        RecursionInput::BatchStark { proof, .. } => if supported_degree(proof.ext_degree) {
            exists|call: BatchVerifierCall<'a, SC, C>, verified: Verified<B>|
                {
                    &&& is_batch_call(challenger, prev, config, provers, call)
                    &&& #[trigger] call_ensures(verify_batch, (circuit, call), verified)
                    &&& FriVerifierResult::<U, B>::holds_batch(verified, result)
                }
        } else {
            result matches Err(e) && is_unsupported(prev, e)
        },
    }
}

/// Build the verification of `prev` into `circuit`, which is the circuit under construction or a
/// handle on it: `verify_uni` allocates the inputs of a single instance and verifies it, and
/// `verify_batch` verifies a batch.
///
/// A batch of an unsupported degree is refused without touching the circuit: behind a mutable
/// reference it stays as it was.
pub fn build_verifier_circuit_impl<
    'a,
    SC: FriRecursionConfig + 'a,
    C: ChallengerPermConfig + Copy,
    K,
    U,
    B,
    FU: FnOnce(K, UniVerifierCall<'a, SC, C>) -> Verified<U>,
    FB: FnOnce(K, BatchVerifierCall<'a, SC, C>) -> Verified<B>,
    const WIDTH: usize,
    const RATE: usize,
>(
    backend: &FriRecursionBackend<WIDTH, RATE, C>,
    prev: &'a RecursionInput<SC>,
    config: &'a SC,
    circuit: K,
    non_primitive_provers: Vec<TableProver>,
    verify_uni: FU,
    verify_batch: FB,
) -> (res: Result<FriVerifierResult<U, B>, VerificationError>)
    requires
        forall|call: UniVerifierCall<'a, SC, C>| #[trigger]
            call_requires(verify_uni, (circuit, call)),
        forall|call: BatchVerifierCall<'a, SC, C>| #[trigger]
            call_requires(verify_batch, (circuit, call)),
    ensures
        is_built(
            backend.challenger_perm_config,
            *prev,
            *config,
            circuit,
            non_primitive_provers@,
            verify_uni,
            verify_batch,
            res,
        ),
        is_unsupported_batch(*prev) ==> has_resolved(circuit),
{
    match verifier_call(backend, prev, config, non_primitive_provers) {
        Ok(VerifierCircuitCall::UniStark(call)) => {
            let ghost handed = call;
            let verified = verify_uni(circuit, call);
            assert(call_ensures(verify_uni, (circuit, handed), verified));
            FriVerifierResult::from_uni(verified)
        },
        Ok(VerifierCircuitCall::BatchStark(call)) => {
            let ghost handed = call;
            let verified = verify_batch(circuit, call);
            assert(call_ensures(verify_batch, (circuit, handed), verified));
            FriVerifierResult::from_batch(verified)
        },
        Err(e) => Err(e),
    }
}

/// What setting the private data does: without a transcript it fails and leaves the runner as it
/// is; with one, the configuration is handed the input's opening proof and the transcript.
pub open spec fn is_private_data_set<SC: FriRecursionConfig, X>(
    config: SC,
    before: SC::Runner,
    op_ids: Seq<NonPrimitiveOpId>,
    prev: RecursionInput<SC>,
    transcript: Result<SC::Transcript, X>,
    after: SC::Runner,
    result: Result<(), &'static str>,
) -> bool {
    match transcript {
        Err(_) => {
            &&& after == before
            &&& result matches Err(message)
            &&& message@ == "Failed to replay the input proof's verifier transcript"@
        },
        Ok(t) => exists|opening_proof: &SC::RawOpeningProof|
            {
                &&& #[trigger] call_ensures(SC::fri_opening_proof, (&prev,), opening_proof)
                &&& config.private_data_outcome(
                    before,
                    op_ids,
                    *opening_proof,
                    t,
                    after,
                    result,
                )
            },
    }
}

/// What setting the private data does with a transcript that `replay` gives for the configuration,
/// the input and the provers.
pub open spec fn is_replayed_and_set<SC: FriRecursionConfig, X, F>(
    config: SC,
    before: SC::Runner,
    op_ids: Seq<NonPrimitiveOpId>,
    prev: RecursionInput<SC>,
    provers: Seq<TableProver>,
    replay: F,
    after: SC::Runner,
    result: Result<(), &'static str>,
) -> bool where
    F: FnOnce(&SC, &RecursionInput<SC>, &Vec<TableProver>) -> Result<SC::Transcript, X>,
 {
    exists|used: Vec<TableProver>, transcript: Result<SC::Transcript, X>|
        {
            &&& used@ == provers
            &&& #[trigger] call_ensures(replay, (&config, &prev, &used), transcript)
            &&& is_private_data_set(config, before, op_ids, prev, transcript, after, result)
        }
}

/// Set the private data of an input proof, given its replayed verifier transcript.
pub fn set_replayed_private_data<SC: FriRecursionConfig, X>(
    config: &SC,
    runner: &mut SC::Runner,
    op_ids: &Vec<NonPrimitiveOpId>,
    prev: &RecursionInput<SC>,
    transcript: Result<SC::Transcript, X>,
) -> (res: Result<(), &'static str>)
    ensures
        is_private_data_set(
            *config,
            *old(runner),
            op_ids@,
            *prev,
            transcript,
            *final(runner),
            res,
        ),
{
    match transcript {
        Ok(t) => {
            let opening_proof = SC::fri_opening_proof(prev);
            config.set_fri_private_data(runner, op_ids, opening_proof, t)
        },
        Err(_) => Err("Failed to replay the input proof's verifier transcript"),
    }
}

impl<
    const WIDTH: usize,
    const RATE: usize,
    C: ChallengerPermConfig + Copy,
> FriRecursionBackendForExt<2, WIDTH, RATE, C> {
    /// Provers of the plug-in tables of an input proof: those of this back end for a batch of
    /// degree 2, and none for any other input.
    pub open spec fn input_provers<T: ProofTypes>(self, prev: RecursionInput<T>) -> Seq<
        TableProver,
    > {
        match prev {
            RecursionInput::BatchStark { proof, .. } => if proof.ext_degree == 2 {
                self.0.provers(2)
            } else {
                Seq::empty()
            },
            RecursionInput::UniStark { .. } => Seq::empty(),
        }
    }

    /// Provers of the plug-in tables of an input proof. The verifier circuit is built with them,
    /// and the transcript is replayed with them.
    pub fn provers_of_input<T: ProofTypes>(&self, prev: &RecursionInput<T>) -> (res: Vec<
        TableProver,
    >)
        ensures
            res@ == self.input_provers(*prev),
    {
        match prev {
            RecursionInput::BatchStark { proof, .. } => self.non_primitive_provers(
                proof.ext_degree,
            ),
            RecursionInput::UniStark { .. } => Vec::new(),
        }
    }

    /// Prepare the circuit for verification.
    pub fn prepare_circuit<SC: FriRecursionConfig>(
        &self,
        config: &SC,
        circuit: &mut SC::Circuit,
    ) -> (res: Result<(), VerificationError>)
        ensures
            config.prepare_outcome(*old(circuit), *final(circuit), res),
    {
        config.prepare_circuit_for_verification(circuit)
    }

    /// The verification that is decided on for an input proof.
    pub fn verifier_call_of_input<'a, SC: FriRecursionConfig>(
        &self,
        prev: &'a RecursionInput<SC>,
        config: &'a SC,
    ) -> (res: Result<VerifierCircuitCall<'a, SC, C>, VerificationError>)
        ensures
            is_verifier_call(
                self.0.challenger_perm_config,
                *prev,
                *config,
                self.input_provers(*prev),
                res,
            ),
    {
        let provers = self.provers_of_input(prev);
        verifier_call(&self.0, prev, config, provers)
    }

    /// Build the verification of an input proof into the circuit, with the verifiers given. A batch
    /// of an unsupported degree is refused and the circuit left as it was.
    pub fn build_verifier_circuit<
        'a,
        SC: FriRecursionConfig + 'a,
        K,
        U,
        B,
        FU: FnOnce(K, UniVerifierCall<'a, SC, C>) -> Verified<U>,
        FB: FnOnce(K, BatchVerifierCall<'a, SC, C>) -> Verified<B>,
    >(
        &self,
        prev: &'a RecursionInput<SC>,
        config: &'a SC,
        circuit: K,
        verify_uni: FU,
        verify_batch: FB,
    ) -> (res: Result<FriVerifierResult<U, B>, VerificationError>)
        requires
            forall|call: UniVerifierCall<'a, SC, C>| #[trigger]
                call_requires(verify_uni, (circuit, call)),
            forall|call: BatchVerifierCall<'a, SC, C>| #[trigger]
                call_requires(verify_batch, (circuit, call)),
        ensures
            is_built(
                self.0.challenger_perm_config,
                *prev,
                *config,
                circuit,
                self.input_provers(*prev),
                verify_uni,
                verify_batch,
                res,
            ),
            is_unsupported_batch(*prev) ==> has_resolved(circuit),
    {
        let provers = self.provers_of_input(prev);
        build_verifier_circuit_impl(
            &self.0,
            prev,
            config,
            circuit,
            provers,
            verify_uni,
            verify_batch,
        )
    }

    /// Set the private data of an input proof: its verifier transcript is replayed with the provers
    /// that the verification was built with.
    pub fn set_private_data<
        SC: FriRecursionConfig,
        X,
        F: FnOnce(&SC, &RecursionInput<SC>, &Vec<TableProver>) -> Result<SC::Transcript, X>,
    >(
        &self,
        config: &SC,
        runner: &mut SC::Runner,
        op_ids: &Vec<NonPrimitiveOpId>,
        prev: &RecursionInput<SC>,
        replay: F,
    ) -> (res: Result<(), &'static str>)
        requires
            forall|provers: Vec<TableProver>| #[trigger]
                call_requires(replay, (config, prev, &provers)),
        ensures
            is_replayed_and_set(
                *config,
                *old(runner),
                op_ids@,
                *prev,
                self.input_provers(*prev),
                replay,
                *final(runner),
                res,
            ),
    {
        let provers = self.provers_of_input(prev);
        let transcript = replay(config, prev, &provers);
        assert(call_ensures(replay, (config, prev, &provers), transcript));
        set_replayed_private_data(config, runner, op_ids, prev, transcript)
    }
}

impl<
    const WIDTH: usize,
    const RATE: usize,
    C: ChallengerPermConfig + Copy,
> FriRecursionBackendForExt<4, WIDTH, RATE, C> {
    /// Provers of the plug-in tables of an input proof: those of this back end for a batch of
    /// degree 4, and none for any other input.
    pub open spec fn input_provers<T: ProofTypes>(self, prev: RecursionInput<T>) -> Seq<
        TableProver,
    > {
        match prev {
            RecursionInput::BatchStark { proof, .. } => if proof.ext_degree == 4 {
                self.0.provers(4)
            } else {
                Seq::empty()
            },
            RecursionInput::UniStark { .. } => Seq::empty(),
        }
    }

    /// Provers of the plug-in tables of an input proof. The verifier circuit is built with them,
    /// and the transcript is replayed with them.
    pub fn provers_of_input<T: ProofTypes>(&self, prev: &RecursionInput<T>) -> (res: Vec<
        TableProver,
    >)
        ensures
            res@ == self.input_provers(*prev),
    {
        match prev {
            RecursionInput::BatchStark { proof, .. } => self.non_primitive_provers(
                proof.ext_degree,
            ),
            RecursionInput::UniStark { .. } => Vec::new(),
        }
    }

    /// Prepare the circuit for verification.
    pub fn prepare_circuit<SC: FriRecursionConfig>(
        &self,
        config: &SC,
        circuit: &mut SC::Circuit,
    ) -> (res: Result<(), VerificationError>)
        ensures
            config.prepare_outcome(*old(circuit), *final(circuit), res),
    {
        config.prepare_circuit_for_verification(circuit)
    }

    /// The verification that is decided on for an input proof.
    pub fn verifier_call_of_input<'a, SC: FriRecursionConfig>(
        &self,
        prev: &'a RecursionInput<SC>,
        config: &'a SC,
    ) -> (res: Result<VerifierCircuitCall<'a, SC, C>, VerificationError>)
        ensures
            is_verifier_call(
                self.0.challenger_perm_config,
                *prev,
                *config,
                self.input_provers(*prev),
                res,
            ),
    {
        let provers = self.provers_of_input(prev);
        verifier_call(&self.0, prev, config, provers)
    }

    /// Build the verification of an input proof into the circuit, with the verifiers given. A batch
    /// of an unsupported degree is refused and the circuit left as it was.
    pub fn build_verifier_circuit<
        'a,
        SC: FriRecursionConfig + 'a,
        K,
        U,
        B,
        FU: FnOnce(K, UniVerifierCall<'a, SC, C>) -> Verified<U>,
        FB: FnOnce(K, BatchVerifierCall<'a, SC, C>) -> Verified<B>,
    >(
        &self,
        prev: &'a RecursionInput<SC>,
        config: &'a SC,
        circuit: K,
        verify_uni: FU,
        verify_batch: FB,
    ) -> (res: Result<FriVerifierResult<U, B>, VerificationError>)
        requires
            forall|call: UniVerifierCall<'a, SC, C>| #[trigger]
                call_requires(verify_uni, (circuit, call)),
            forall|call: BatchVerifierCall<'a, SC, C>| #[trigger]
                call_requires(verify_batch, (circuit, call)),
        ensures
            is_built(
                self.0.challenger_perm_config,
                *prev,
                *config,
                circuit,
                self.input_provers(*prev),
                verify_uni,
                verify_batch,
                res,
            ),
            is_unsupported_batch(*prev) ==> has_resolved(circuit),
    {
        let provers = self.provers_of_input(prev);
        build_verifier_circuit_impl(
            &self.0,
            prev,
            config,
            circuit,
            provers,
            verify_uni,
            verify_batch,
        )
    }

    /// Set the private data of an input proof: its verifier transcript is replayed with the provers
    /// that the verification was built with.
    pub fn set_private_data<
        SC: FriRecursionConfig,
        X,
        F: FnOnce(&SC, &RecursionInput<SC>, &Vec<TableProver>) -> Result<SC::Transcript, X>,
    >(
        &self,
        config: &SC,
        runner: &mut SC::Runner,
        op_ids: &Vec<NonPrimitiveOpId>,
        prev: &RecursionInput<SC>,
        replay: F,
    ) -> (res: Result<(), &'static str>)
        requires
            forall|provers: Vec<TableProver>| #[trigger]
                call_requires(replay, (config, prev, &provers)),
        ensures
            is_replayed_and_set(
                *config,
                *old(runner),
                op_ids@,
                *prev,
                self.input_provers(*prev),
                replay,
                *final(runner),
                res,
            ),
    {
        let provers = self.provers_of_input(prev);
        let transcript = replay(config, prev, &provers);
        assert(call_ensures(replay, (config, prev, &provers), transcript));
        set_replayed_private_data(config, runner, op_ids, prev, transcript)
    }
}

impl<const WIDTH: usize, const RATE: usize, C: ChallengerPermConfig + Copy> FriRecursionBackendD5<
    WIDTH,
    RATE,
    C,
> {
    /// Provers of the plug-in tables of an input proof: those of this back end for a batch of
    /// degree 5, and none for any other input.
    pub open spec fn input_provers<T: ProofTypes>(self, prev: RecursionInput<T>) -> Seq<
        TableProver,
    > {
        match prev {
            RecursionInput::BatchStark { proof, .. } => if proof.ext_degree == 5 {
                self.0.quintic_provers()
            } else {
                Seq::empty()
            },
            RecursionInput::UniStark { .. } => Seq::empty(),
        }
    }

    /// Provers of the plug-in tables of an input proof. The verifier circuit is built with them,
    /// and the transcript is replayed with them.
    pub fn provers_of_input<T: ProofTypes>(&self, prev: &RecursionInput<T>) -> (res: Vec<
        TableProver,
    >)
        ensures
            res@ == self.input_provers(*prev),
    {
        match prev {
            RecursionInput::BatchStark { proof, .. } => self.non_primitive_provers(
                proof.ext_degree,
            ),
            RecursionInput::UniStark { .. } => Vec::new(),
        }
    }

    /// Prepare the circuit for verification.
    pub fn prepare_circuit<SC: FriRecursionConfig>(
        &self,
        config: &SC,
        circuit: &mut SC::Circuit,
    ) -> (res: Result<(), VerificationError>)
        ensures
            config.prepare_outcome(*old(circuit), *final(circuit), res),
    {
        config.prepare_circuit_for_verification(circuit)
    }

    /// The verification that is decided on for an input proof.
    pub fn verifier_call_of_input<'a, SC: FriRecursionConfig>(
        &self,
        prev: &'a RecursionInput<SC>,
        config: &'a SC,
    ) -> (res: Result<VerifierCircuitCall<'a, SC, C>, VerificationError>)
        ensures
            is_verifier_call(
                self.0.challenger_perm_config,
                *prev,
                *config,
                self.input_provers(*prev),
                res,
            ),
    {
        let provers = self.provers_of_input(prev);
        verifier_call(&self.0, prev, config, provers)
    }

    /// Build the verification of an input proof into the circuit, with the verifiers given. A batch
    /// of an unsupported degree is refused and the circuit left as it was.
    pub fn build_verifier_circuit<
        'a,
        SC: FriRecursionConfig + 'a,
        K,
        U,
        B,
        FU: FnOnce(K, UniVerifierCall<'a, SC, C>) -> Verified<U>,
        FB: FnOnce(K, BatchVerifierCall<'a, SC, C>) -> Verified<B>,
    >(
        &self,
        prev: &'a RecursionInput<SC>,
        config: &'a SC,
        circuit: K,
        verify_uni: FU,
        verify_batch: FB,
    ) -> (res: Result<FriVerifierResult<U, B>, VerificationError>)
        requires
            forall|call: UniVerifierCall<'a, SC, C>| #[trigger]
                call_requires(verify_uni, (circuit, call)),
            forall|call: BatchVerifierCall<'a, SC, C>| #[trigger]
                call_requires(verify_batch, (circuit, call)),
        ensures
            is_built(
                self.0.challenger_perm_config,
                *prev,
                *config,
                circuit,
                self.input_provers(*prev),
                verify_uni,
                verify_batch,
                res,
            ),
            is_unsupported_batch(*prev) ==> has_resolved(circuit),
    {
        let provers = self.provers_of_input(prev);
        build_verifier_circuit_impl(
            &self.0,
            prev,
            config,
            circuit,
            provers,
            verify_uni,
            verify_batch,
        )
    }

    /// Set the private data of an input proof: its verifier transcript is replayed with the provers
    /// that the verification was built with.
    pub fn set_private_data<
        SC: FriRecursionConfig,
        X,
        F: FnOnce(&SC, &RecursionInput<SC>, &Vec<TableProver>) -> Result<SC::Transcript, X>,
    >(
        &self,
        config: &SC,
        runner: &mut SC::Runner,
        op_ids: &Vec<NonPrimitiveOpId>,
        prev: &RecursionInput<SC>,
        replay: F,
    ) -> (res: Result<(), &'static str>)
        requires
            forall|provers: Vec<TableProver>| #[trigger]
                call_requires(replay, (config, prev, &provers)),
        ensures
            is_replayed_and_set(
                *config,
                *old(runner),
                op_ids@,
                *prev,
                self.input_provers(*prev),
                replay,
                *final(runner),
                res,
            ),
    {
        let provers = self.provers_of_input(prev);
        let transcript = replay(config, prev, &provers);
        assert(call_ensures(replay, (config, prev, &provers), transcript));
        set_replayed_private_data(config, runner, op_ids, prev, transcript)
    }
}

/// Result of building a verifier: the builder of its inputs, and the operations that need private
/// data. `U` builds the inputs of a single instance, `B` those of a batch.
pub enum FriVerifierResult<U, B> {
    /// For a single instance.
    UniStark(U, Vec<NonPrimitiveOpId>),
    /// For a batch.
    BatchStark(B, Vec<NonPrimitiveOpId>),
}

/// The public inputs that are to be packed, and the builder that packs them.
pub enum PublicPacking<'a, T: ProofTypes, U, B> {
    /// Of a single instance.
    UniStark {
        /// Who packs.
        builder: &'a U,
        /// The public inputs.
        public_inputs: &'a Vec<T::Value>,
        /// The proof.
        proof: &'a T::UniProof,
        /// Commitment to the preprocessed columns.
        preprocessed_commit: &'a Option<T::Commitment>,
    },
    /// Of a batch.
    BatchStark {
        /// Who packs.
        builder: &'a B,
        /// Public inputs of each table.
        table_public_inputs: &'a Vec<Vec<T::Value>>,
        /// The proof.
        proof: &'a T::BatchProof,
        /// Data shared with the prover.
        common_data: &'a T::CommonData,
    },
}

/// The private inputs that are to be packed, and the builder that packs them.
pub enum PrivatePacking<'a, T: ProofTypes, U, B> {
    /// Of a single instance.
    UniStark {
        /// Who packs.
        builder: &'a U,
        /// The proof.
        proof: &'a T::UniProof,
    },
    /// Of a batch.
    BatchStark {
        /// Who packs.
        builder: &'a B,
        /// The proof.
        proof: &'a T::BatchProof,
    },
}

/// Message of a result that is used with an input of the other kind.
pub open spec fn mismatch_message() -> Seq<char> {
    "RecursionInput variant does not match verifier result"@
}

fn mismatch() -> (res: VerificationError)
    ensures
        res.is_invalid_shape(mismatch_message()),
{
    VerificationError::InvalidProofShape(
        "RecursionInput variant does not match verifier result".to_owned(),
    )
}

impl<U, B> FriVerifierResult<U, B> {
    /// Whether this is the result for an input of the kind of `prev`.
    pub open spec fn matches_input<T: ProofTypes>(self, prev: RecursionInput<T>) -> bool {
        self is UniStark == prev is UniStark
    }

    /// The operations that need private data.
    pub open spec fn ops(self) -> Seq<NonPrimitiveOpId> {
        match self {
            FriVerifierResult::UniStark(_, ids) => ids@,
            FriVerifierResult::BatchStark(_, ids) => ids@,
        }
    }

    /// Whether `result` holds what the verifier of a single instance returned.
    pub open spec fn holds_uni(
        verified: Verified<U>,
        result: Result<FriVerifierResult<U, B>, VerificationError>,
    ) -> bool {
        match verified {
            Ok(v) => result == Ok::<_, VerificationError>(
                FriVerifierResult::<U, B>::UniStark(v.0, v.1),
            ),
            Err(e) => result == Err::<FriVerifierResult<U, B>, _>(e),
        }
    }

    /// Whether `result` holds what the verifier of a batch returned.
    pub open spec fn holds_batch(
        verified: Verified<B>,
        result: Result<FriVerifierResult<U, B>, VerificationError>,
    ) -> bool {
        match verified {
            Ok(v) => result == Ok::<_, VerificationError>(
                FriVerifierResult::<U, B>::BatchStark(v.0, v.1),
            ),
            Err(e) => result == Err::<FriVerifierResult<U, B>, _>(e),
        }
    }

    /// The result for a single instance, once its verifier is built.
    pub fn from_uni(built: Verified<U>) -> (res: Result<Self, VerificationError>)
        ensures
            Self::holds_uni(built, res),
    {
        match built {
            Ok((inputs, op_ids)) => Ok(FriVerifierResult::UniStark(inputs, op_ids)),
            Err(e) => Err(e),
        }
    }

    /// The result for a batch, once its verifier is built.
    pub fn from_batch(built: Verified<B>) -> (res: Result<Self, VerificationError>)
        ensures
            Self::holds_batch(built, res),
    {
        match built {
            Ok((inputs, op_ids)) => Ok(FriVerifierResult::BatchStark(inputs, op_ids)),
            Err(e) => Err(e),
        }
    }

    /// What is packed into the public inputs of the verifier circuit for `prev`.
    pub fn pack_public_inputs<'a, T: ProofTypes>(&'a self, prev: &'a RecursionInput<T>) -> (res:
        Result<PublicPacking<'a, T, U, B>, VerificationError>)
        ensures
            res is Ok <==> self.matches_input(*prev),
            match (*self, *prev) {
                (
                    FriVerifierResult::UniStark(b, _),
                    RecursionInput::UniStark {
                        proof: p,
                        air: _,
                        public_inputs: inputs,
                        preprocessed_commit: commit,
                    },
                ) => {
                    &&& res matches Ok(
                        PublicPacking::UniStark {
                            builder,
                            public_inputs,
                            proof,
                            preprocessed_commit,
                        },
                    )
                    &&& *builder == b
                    &&& *public_inputs == inputs
                    &&& *proof == p
                    &&& *preprocessed_commit == commit
                },
                (
                    FriVerifierResult::BatchStark(b, _),
                    RecursionInput::BatchStark {
                        proof: p,
                        common_data: data,
                        table_public_inputs: inputs,
                    },
                ) => {
                    &&& res matches Ok(
                        PublicPacking::BatchStark {
                            builder,
                            table_public_inputs,
                            proof,
                            common_data,
                        },
                    )
                    &&& *builder == b
                    &&& *table_public_inputs == inputs
                    &&& *proof == p.proof
                    &&& *common_data == data
                },
                _ => res matches Err(e) && e.is_invalid_shape(mismatch_message()),
            },
    {
        match (self, prev) {
            (
                FriVerifierResult::UniStark(builder, _),
                RecursionInput::UniStark { proof, air: _, public_inputs, preprocessed_commit },
            ) => Ok(
                PublicPacking::UniStark { builder, public_inputs, proof, preprocessed_commit },
            ),
            (
                FriVerifierResult::BatchStark(builder, _),
                RecursionInput::BatchStark { proof, common_data, table_public_inputs },
            ) => Ok(
                PublicPacking::BatchStark {
                    builder,
                    table_public_inputs,
                    proof: &proof.proof,
                    common_data,
                },
            ),
            _ => Err(mismatch()),
        }
    }

    /// What is packed into the private inputs of the verifier circuit for `prev`.
    pub fn pack_private_inputs<'a, T: ProofTypes>(&'a self, prev: &'a RecursionInput<T>) -> (res:
        Result<PrivatePacking<'a, T, U, B>, VerificationError>)
        ensures
            res is Ok <==> self.matches_input(*prev),
            match (*self, *prev) {
                (
                    FriVerifierResult::UniStark(b, _),
                    RecursionInput::UniStark { proof: p, .. },
                ) => {
                    &&& res matches Ok(PrivatePacking::UniStark { builder, proof })
                    &&& *builder == b
                    &&& *proof == p
                },
                (
                    FriVerifierResult::BatchStark(b, _),
                    RecursionInput::BatchStark { proof: p, .. },
                ) => {
                    &&& res matches Ok(PrivatePacking::BatchStark { builder, proof })
                    &&& *builder == b
                    &&& *proof == p.proof
                },
                _ => res matches Err(e) && e.is_invalid_shape(mismatch_message()),
            },
    {
        match (self, prev) {
            (
                FriVerifierResult::UniStark(builder, _),
                RecursionInput::UniStark { proof, .. },
            ) => Ok(PrivatePacking::UniStark { builder, proof }),
            (
                FriVerifierResult::BatchStark(builder, _),
                RecursionInput::BatchStark { proof, .. },
            ) => Ok(PrivatePacking::BatchStark { builder, proof: &proof.proof }),
            _ => Err(mismatch()),
        }
    }

    /// The operations that need private data.
    pub fn op_ids(&self) -> (res: &[NonPrimitiveOpId])
        ensures
            res@ == self.ops(),
    {
        match self {
            FriVerifierResult::UniStark(_, ids) => ids.as_slice(),
            FriVerifierResult::BatchStark(_, ids) => ids.as_slice(),
        }
    }
}

/// A result of building the verification of an input is of the input's kind, so that the input can
/// be packed for it, and holds the inputs and operations that the verifier of that kind returned;
/// only batches of a supported degree get that far.
pub proof fn law_result_matches_its_input<'a, SC: FriRecursionConfig + 'a, C, K, U, B, FU, FB>(
    challenger: C,
    prev: RecursionInput<SC>,
    config: SC,
    circuit: K,
    provers: Seq<TableProver>,
    verify_uni: FU,
    verify_batch: FB,
    result: FriVerifierResult<U, B>,
) where
    FU: FnOnce(K, UniVerifierCall<'a, SC, C>) -> Verified<U>,
    FB: FnOnce(K, BatchVerifierCall<'a, SC, C>) -> Verified<B>,

    requires
        is_built(
            challenger,
            prev,
            config,
            circuit,
            provers,
            verify_uni,
            verify_batch,
            Ok(result),
        ),
    ensures
        result.matches_input(prev),
        match result {
            FriVerifierResult::UniStark(inputs, ids) => exists|call: UniVerifierCall<'a, SC, C>|
                {
                    &&& is_uni_call(challenger, prev, config, call)
                    &&& #[trigger] call_ensures(verify_uni, (circuit, call), Ok((inputs, ids)))
                    &&& result.ops() == ids@
                },
            FriVerifierResult::BatchStark(inputs, ids) => exists|
                call: BatchVerifierCall<'a, SC, C>,
            |
                {
                    &&& is_batch_call(challenger, prev, config, provers, call)
                    &&& supported_degree(call.degree)
                    &&& #[trigger] call_ensures(verify_batch, (circuit, call), Ok((inputs, ids)))
                    &&& result.ops() == ids@
                },
        },
{
    match prev {
        RecursionInput::UniStark { .. } => {
            let (call, verified) = choose|
                call: UniVerifierCall<'a, SC, C>,
                verified: Verified<U>,
            |
                {
                    &&& is_uni_call(challenger, prev, config, call)
                    &&& #[trigger] call_ensures(verify_uni, (circuit, call), verified)
                    &&& FriVerifierResult::<U, B>::holds_uni(verified, Ok(result))
                };
            assert(verified == Ok::<(U, Vec<NonPrimitiveOpId>), VerificationError>(
                (result->UniStark_0, result->UniStark_1),
            ));
        },
        RecursionInput::BatchStark { .. } => {
            let (call, verified) = choose|
                call: BatchVerifierCall<'a, SC, C>,
                verified: Verified<B>,
            |
                {
                    &&& is_batch_call(challenger, prev, config, provers, call)
                    &&& #[trigger] call_ensures(verify_batch, (circuit, call), verified)
                    &&& FriVerifierResult::<U, B>::holds_batch(verified, Ok(result))
                };
            assert(verified == Ok::<(B, Vec<NonPrimitiveOpId>), VerificationError>(
                (result->BatchStark_0, result->BatchStark_1),
            ));
        },
    }
}

/// The verification of a single instance depends on the public inputs only through their number, and
/// not on the provers of plug-in tables: for two instances that agree otherwise it is the same call,
/// and building it has the same results.
pub proof fn law_single_instance_ignores_input_values<
    'a,
    SC: FriRecursionConfig + 'a,
    C,
    K,
    U,
    B,
    FU,
    FB,
>(
    challenger: C,
    prev: RecursionInput<SC>,
    other: RecursionInput<SC>,
    config: SC,
    circuit: K,
    provers: Seq<TableProver>,
    other_provers: Seq<TableProver>,
    verify_uni: FU,
    verify_batch: FB,
    call: Result<VerifierCircuitCall<'a, SC, C>, VerificationError>,
    result: Result<FriVerifierResult<U, B>, VerificationError>,
) where
    FU: FnOnce(K, UniVerifierCall<'a, SC, C>) -> Verified<U>,
    FB: FnOnce(K, BatchVerifierCall<'a, SC, C>) -> Verified<B>,

    requires
        prev is UniStark,
        other is UniStark,
        prev->UniStark_proof == other->UniStark_proof,
        prev->UniStark_air == other->UniStark_air,
        prev->UniStark_preprocessed_commit == other->UniStark_preprocessed_commit,
        prev->UniStark_public_inputs@.len() == other->UniStark_public_inputs@.len(),
    ensures
        is_verifier_call(challenger, prev, config, provers, call) <==> is_verifier_call(
            challenger,
            other,
            config,
            other_provers,
            call,
        ),
        is_built(challenger, prev, config, circuit, provers, verify_uni, verify_batch, result)
            <==> is_built(
            challenger,
            other,
            config,
            circuit,
            other_provers,
            verify_uni,
            verify_batch,
            result,
        ),
        forall|a: UniVerifierCall<'a, SC, C>, b: UniVerifierCall<'a, SC, C>|
            #![trigger is_uni_call(challenger, prev, config, a), is_uni_call(
                challenger,
                other,
                config,
                b,
            )]
            is_uni_call(challenger, prev, config, a) && is_uni_call(challenger, other, config, b)
                ==> a == b,
{
    assert forall|a: UniVerifierCall<'a, SC, C>|
        is_uni_call(challenger, prev, config, a) <==> is_uni_call(challenger, other, config, a) by {
    }
}

/// If the verifier of single instances gives one result per circuit and call, two instances that
/// agree but for the values of their public inputs have equal results on equal circuits, whatever
/// the provers of plug-in tables.
pub proof fn law_equal_instances_give_equal_results<
    'a,
    SC: FriRecursionConfig + 'a,
    C,
    K,
    U,
    B,
    FU,
    FB,
>(
    challenger: C,
    prev: RecursionInput<SC>,
    other: RecursionInput<SC>,
    config: SC,
    circuit: K,
    provers: Seq<TableProver>,
    other_provers: Seq<TableProver>,
    verify_uni: FU,
    verify_batch: FB,
    result: Result<FriVerifierResult<U, B>, VerificationError>,
    other_result: Result<FriVerifierResult<U, B>, VerificationError>,
) where
    FU: FnOnce(K, UniVerifierCall<'a, SC, C>) -> Verified<U>,
    FB: FnOnce(K, BatchVerifierCall<'a, SC, C>) -> Verified<B>,

    requires
        prev is UniStark,
        other is UniStark,
        prev->UniStark_proof == other->UniStark_proof,
        prev->UniStark_air == other->UniStark_air,
        prev->UniStark_preprocessed_commit == other->UniStark_preprocessed_commit,
        prev->UniStark_public_inputs@.len() == other->UniStark_public_inputs@.len(),
        is_built(challenger, prev, config, circuit, provers, verify_uni, verify_batch, result),
        is_built(
            challenger,
            other,
            config,
            circuit,
            other_provers,
            verify_uni,
            verify_batch,
            other_result,
        ),
        forall|call: UniVerifierCall<'a, SC, C>, a: Verified<U>, b: Verified<U>| #[trigger]
            call_ensures(verify_uni, (circuit, call), a) && #[trigger] call_ensures(
                verify_uni,
                (circuit, call),
                b,
            ) ==> a == b,
    ensures
        result == other_result,
{
    let (call, verified) = choose|call: UniVerifierCall<'a, SC, C>, verified: Verified<U>|
        {
            &&& is_uni_call(challenger, prev, config, call)
            &&& #[trigger] call_ensures(verify_uni, (circuit, call), verified)
            &&& FriVerifierResult::<U, B>::holds_uni(verified, result)
        };
    let (other_call, other_verified) = choose|
        call: UniVerifierCall<'a, SC, C>,
        verified: Verified<U>,
    |
        {
            &&& is_uni_call(challenger, other, config, call)
            &&& #[trigger] call_ensures(verify_uni, (circuit, call), verified)
            &&& FriVerifierResult::<U, B>::holds_uni(verified, other_result)
        };
    assert(call == other_call);
}

} // verus!
