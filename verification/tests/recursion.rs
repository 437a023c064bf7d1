//! Verifier circuits for input proofs.
use p3_recursion_tables::fri::{FriRecursionBackend, TableProver};
use p3_recursion_tables::ops::{NonPrimitiveOpId, PermutationField, Poseidon2Config};
use p3_recursion_tables::recursion::{
    set_replayed_private_data, verifier_call, BatchStarkProof, BatchVerifierCall,
    FriRecursionConfig, FriVerifierResult, PrivatePacking, ProofTypes, PublicPacking,
    RecursionInput, UniVerifierCall, VerificationError, VerifierCircuitCall,
};

/// A configuration whose proofs are names and numbers.
struct Config {
    params: u32,
}

impl ProofTypes for Config {
    type UniProof = &'static str;
    type Air = &'static str;
    type Value = u64;
    type Commitment = u64;
    type BatchProof = &'static str;
    type CommonData = &'static str;
}

impl FriRecursionConfig for Config {
    type VerifierParams = u32;
    type RawOpeningProof = &'static str;
    type Circuit = Vec<String>;
    type Runner = Vec<String>;
    type Transcript = u64;

    const DIGEST_ELEMS: usize = 8;

    fn fri_opening_proof(prev: &RecursionInput<Self>) -> &&'static str {
        match prev {
            RecursionInput::UniStark { proof, .. } => proof,
            RecursionInput::BatchStark { proof, .. } => &proof.proof,
        }
    }

    fn prepare_circuit_for_verification(
        &self,
        circuit: &mut Vec<String>,
    ) -> Result<(), VerificationError> {
        circuit.push(format!("prepared with {}", self.params));
        Ok(())
    }

    fn pcs_verifier_params(&self) -> &u32 {
        &self.params
    }

    fn set_fri_private_data(
        &self,
        runner: &mut Vec<String>,
        op_ids: &Vec<NonPrimitiveOpId>,
        opening_proof: &&'static str,
        transcript: u64,
    ) -> Result<(), &'static str> {
        if op_ids.is_empty() {
            return Err("no operations");
        }
        runner.push(format!("{opening_proof} at {transcript} for {}", op_ids.len()));
        Ok(())
    }
}

fn challenger(degree: usize) -> Poseidon2Config {
    Poseidon2Config { field: PermutationField::KoalaBear, degree, width: 16, challenger: false }
}

fn backend(degree: usize) -> FriRecursionBackend<16, 8, Poseidon2Config> {
    FriRecursionBackend::new(challenger(degree))
}

fn single() -> RecursionInput<Config> {
    RecursionInput::UniStark {
        proof: "uni proof",
        air: "air",
        public_inputs: vec![4, 5, 6],
        preprocessed_commit: Some(9),
    }
}

fn batch(ext_degree: usize) -> RecursionInput<Config> {
    RecursionInput::BatchStark {
        proof: BatchStarkProof { ext_degree, proof: "batch proof" },
        common_data: "common",
        table_public_inputs: vec![vec![1], vec![2, 3]],
    }
}

#[test]
fn a_single_instance_is_verified_with_its_parts() {
    let config = Config { params: 77 };
    let prev = single();
    let tagged = backend(4).for_extension_degree::<4>();
    assert!(tagged.provers_of_input(&prev).is_empty());
    match tagged.verifier_call_of_input(&prev, &config) {
        Ok(VerifierCircuitCall::UniStark(UniVerifierCall {
            proof,
            air,
            preprocessed_commit,
            public_input_count,
            params,
            challenger_perm_config,
        })) => {
            assert_eq!(*proof, "uni proof");
            assert_eq!(*air, "air");
            assert_eq!(*preprocessed_commit, Some(9));
            assert_eq!(public_input_count, 3);
            assert_eq!(*params, 77);
            assert_eq!(challenger_perm_config, challenger(4));
        }
        _ => panic!("expected a single instance"),
    }
}

#[test]
fn a_batch_is_verified_with_its_parts() {
    let config = Config { params: 78 };
    let prev = batch(2);
    let tagged = backend(2).for_extension_degree::<2>();
    match tagged.verifier_call_of_input(&prev, &config) {
        Ok(VerifierCircuitCall::BatchStark(BatchVerifierCall {
            degree,
            proof,
            common_data,
            params,
            challenger_perm_config,
            non_primitive_provers,
        })) => {
            assert_eq!(degree, 2);
            assert_eq!(proof.proof, "batch proof");
            assert_eq!(*common_data, "common");
            assert_eq!(*params, 78);
            assert_eq!(challenger_perm_config, challenger(2));
            assert_eq!(non_primitive_provers, tagged.non_primitive_provers(2));
            assert_eq!(non_primitive_provers, tagged.provers_of_input(&prev));
            assert_eq!(non_primitive_provers.len(), 3);
        }
        _ => panic!("expected a batch"),
    }
}

#[test]
fn batches_of_degree_one_two_four_and_five_are_supported() {
    let config = Config { params: 1 };
    for ext_degree in 0..9usize {
        let prev = batch(ext_degree);
        let provers: Vec<TableProver> = vec![];
        let result = verifier_call(&backend(4), &prev, &config, provers);
        match result {
            Ok(VerifierCircuitCall::BatchStark(BatchVerifierCall { degree, .. })) => {
                assert!([1, 2, 4, 5].contains(&ext_degree));
                assert_eq!(degree, ext_degree);
            }
            Err(VerificationError::InvalidProofShape(message)) => {
                assert!(![1, 2, 4, 5].contains(&ext_degree));
                assert_eq!(message, format!("unsupported batch proof ext_degree {ext_degree}"));
            }
            _ => panic!("unexpected result"),
        }
    }
    let prev = batch(1234);
    match backend(4).for_extension_degree::<4>().verifier_call_of_input(&prev, &config) {
        Err(VerificationError::InvalidProofShape(message)) => {
            assert_eq!(message, "unsupported batch proof ext_degree 1234");
        }
        _ => panic!("expected an error"),
    }
}

#[test]
fn batches_of_another_degree_have_no_provers() {
    assert!(backend(4).for_extension_degree::<4>().provers_of_input(&batch(2)).is_empty());
    assert!(backend(2).for_extension_degree::<2>().provers_of_input(&batch(4)).is_empty());
    let quintic = FriRecursionBackend::<16, 8, Poseidon2Config>::new_d5(challenger(1));
    assert!(quintic.provers_of_input(&batch(4)).is_empty());
    assert!(quintic.provers_of_input(&single()).is_empty());
    assert_eq!(quintic.provers_of_input(&batch(5)), quintic.non_primitive_provers(5));
    let config = Config { params: 1 };
    let prev = batch(5);
    match quintic.verifier_call_of_input(&prev, &config) {
        Ok(VerifierCircuitCall::BatchStark(call)) => {
            assert_eq!(call.degree, 5);
            assert_eq!(call.non_primitive_provers.len(), 2);
        }
        _ => panic!("expected a batch"),
    }
}

#[test]
fn circuits_are_prepared_by_the_configuration() {
    let config = Config { params: 5 };
    let mut circuit: Vec<String> = vec![];
    assert!(backend(4).for_extension_degree::<4>().prepare_circuit(&config, &mut circuit).is_ok());
    assert!(backend(2).for_extension_degree::<2>().prepare_circuit(&config, &mut circuit).is_ok());
    let quintic = FriRecursionBackend::<16, 8, Poseidon2Config>::new_d5(challenger(1));
    assert!(quintic.prepare_circuit(&config, &mut circuit).is_ok());
    assert_eq!(circuit, vec!["prepared with 5"; 3]);
}

#[test]
fn private_data_needs_the_transcript() {
    let config = Config { params: 5 };
    let ids = vec![NonPrimitiveOpId(3), NonPrimitiveOpId(4)];
    let mut runner: Vec<String> = vec![];
    let tagged = backend(4).for_extension_degree::<4>();
    let fails = |_: &Config, _: &RecursionInput<Config>, _: &Vec<TableProver>| Err::<u64, ()>(());
    assert_eq!(
        tagged.set_private_data(&config, &mut runner, &ids, &single(), fails),
        Err("Failed to replay the input proof's verifier transcript")
    );
    assert!(runner.is_empty());
    assert_eq!(tagged.set_private_data(&config, &mut runner, &ids, &single(), replay), Ok(()));
    assert_eq!(runner, vec!["uni proof at 500 for 2"]);
    // The transcript of a batch is replayed with the provers of its verification.
    assert_eq!(tagged.set_private_data(&config, &mut runner, &ids, &batch(4), replay), Ok(()));
    assert_eq!(runner[1], "batch proof at 503 for 2");
    let tagged = backend(2).for_extension_degree::<2>();
    assert_eq!(
        tagged.set_private_data(&config, &mut runner, &vec![], &single(), replay),
        Err("no operations")
    );
    let quintic = FriRecursionBackend::<16, 8, Poseidon2Config>::new_d5(challenger(1));
    assert_eq!(quintic.set_private_data(&config, &mut runner, &ids, &batch(5), replay), Ok(()));
    assert_eq!(runner[2], "batch proof at 502 for 2");
    assert_eq!(quintic.set_private_data(&config, &mut runner, &ids, &batch(4), replay), Ok(()));
    assert_eq!(runner[3], "batch proof at 500 for 2");
    let replayed: Result<u64, ()> = Ok(12);
    assert_eq!(
        set_replayed_private_data(&config, &mut runner, &ids, &single(), replayed),
        Ok(())
    );
    assert_eq!(runner[4], "uni proof at 12 for 2");
}

/// A transcript that tells the configuration and the number of provers.
fn replay(
    config: &Config,
    _prev: &RecursionInput<Config>,
    provers: &Vec<TableProver>,
) -> Result<u64, ()> {
    Ok(config.params as u64 * 100 + provers.len() as u64)
}

type Build = Result<FriVerifierResult<String, String>, VerificationError>;

/// Verifiers that note what they verify in the circuit.
fn build(degree: usize, prev: &RecursionInput<Config>, circuit: &mut Vec<String>) -> Build {
    let config = Config { params: 9 };
    let uni = |circuit: &mut Vec<String>, call: UniVerifierCall<'_, Config, Poseidon2Config>| {
        circuit.push(format!("{} with {}", call.proof, call.public_input_count));
        Ok(("uni inputs".to_string(), vec![NonPrimitiveOpId(5)]))
    };
    let of_batch =
        |circuit: &mut Vec<String>, call: BatchVerifierCall<'_, Config, Poseidon2Config>| {
            if call.degree == 1 {
                return Err(VerificationError::Other("no verifier".to_string()));
            }
            circuit.push(format!("{} with {:?}", call.proof.proof, call.non_primitive_provers.len()));
            Ok(("batch inputs".to_string(), vec![NonPrimitiveOpId(6), NonPrimitiveOpId(7)]))
        };
    match degree {
        2 => backend(2)
            .for_extension_degree::<2>()
            .build_verifier_circuit(prev, &config, circuit, uni, of_batch),
        4 => backend(4)
            .for_extension_degree::<4>()
            .build_verifier_circuit(prev, &config, circuit, uni, of_batch),
        _ => FriRecursionBackend::<16, 8, Poseidon2Config>::new_d5(challenger(1))
            .build_verifier_circuit(prev, &config, circuit, uni, of_batch),
    }
}

#[test]
fn a_built_verification_is_of_the_inputs_kind() {
    for degree in [2, 4, 5] {
        let mut circuit: Vec<String> = vec![];
        let prev = single();
        let result = build(degree, &prev, &mut circuit).unwrap();
        assert_eq!(circuit, vec!["uni proof with 3"]);
        assert_eq!(result.op_ids(), [NonPrimitiveOpId(5)]);
        assert!(matches!(&result, FriVerifierResult::UniStark(i, _) if i == "uni inputs"));
        assert!(result.pack_public_inputs(&prev).is_ok());
        assert!(result.pack_private_inputs(&prev).is_ok());

        let prev = batch(degree);
        let result = build(degree, &prev, &mut circuit).unwrap();
        let provers = if degree == 5 { 2 } else { 3 };
        assert_eq!(circuit[1], format!("batch proof with {provers}"));
        assert_eq!(result.op_ids(), [NonPrimitiveOpId(6), NonPrimitiveOpId(7)]);
        assert!(matches!(&result, FriVerifierResult::BatchStark(i, _) if i == "batch inputs"));
        assert!(result.pack_public_inputs(&prev).is_ok());
        assert!(result.pack_private_inputs(&prev).is_ok());
    }
}

#[test]
fn a_failed_verification_is_passed_on() {
    let mut circuit: Vec<String> = vec![];
    match build(4, &batch(1), &mut circuit) {
        Err(VerificationError::Other(message)) => assert_eq!(message, "no verifier"),
        _ => panic!("expected the verifier's error"),
    }
    match build(4, &batch(3), &mut circuit) {
        Err(VerificationError::InvalidProofShape(message)) => {
            assert_eq!(message, "unsupported batch proof ext_degree 3");
        }
        _ => panic!("expected an unsupported degree"),
    }
    assert!(circuit.is_empty());
}

#[test]
fn only_the_number_of_public_inputs_counts() {
    let other: RecursionInput<Config> = RecursionInput::UniStark {
        proof: "uni proof",
        air: "air",
        public_inputs: vec![7, 7, 7],
        preprocessed_commit: Some(9),
    };
    let mut a: Vec<String> = vec![];
    let mut b: Vec<String> = vec![];
    let first = build(4, &single(), &mut a).unwrap();
    let second = build(4, &other, &mut b).unwrap();
    assert_eq!(a, b);
    assert_eq!(first.op_ids(), second.op_ids());
}

#[test]
fn results_pack_inputs_of_their_own_kind() {
    let ids = vec![NonPrimitiveOpId(1), NonPrimitiveOpId(2)];
    let uni: FriVerifierResult<&str, &str> =
        FriVerifierResult::from_uni(Ok(("uni builder", ids.clone()))).unwrap();
    let of_batch: FriVerifierResult<&str, &str> =
        FriVerifierResult::from_batch(Ok(("batch builder", vec![NonPrimitiveOpId(7)]))).unwrap();
    assert_eq!(uni.op_ids(), ids.as_slice());
    assert_eq!(of_batch.op_ids(), [NonPrimitiveOpId(7)]);

    let prev = single();
    match uni.pack_public_inputs(&prev) {
        Ok(PublicPacking::UniStark { builder, public_inputs, proof, preprocessed_commit }) => {
            assert_eq!(*builder, "uni builder");
            assert_eq!(*public_inputs, vec![4, 5, 6]);
            assert_eq!(*proof, "uni proof");
            assert_eq!(*preprocessed_commit, Some(9));
        }
        _ => panic!("expected the packing of a single instance"),
    }
    match uni.pack_private_inputs(&prev) {
        Ok(PrivatePacking::UniStark { builder, proof }) => {
            assert_eq!((*builder, *proof), ("uni builder", "uni proof"));
        }
        _ => panic!("expected the packing of a single instance"),
    }
    let prev = batch(4);
    match of_batch.pack_public_inputs(&prev) {
        Ok(PublicPacking::BatchStark { builder, table_public_inputs, proof, common_data }) => {
            assert_eq!(*builder, "batch builder");
            assert_eq!(*table_public_inputs, vec![vec![1], vec![2, 3]]);
            assert_eq!(*proof, "batch proof");
            assert_eq!(*common_data, "common");
        }
        _ => panic!("expected the packing of a batch"),
    }
    match of_batch.pack_private_inputs(&prev) {
        Ok(PrivatePacking::BatchStark { builder, proof }) => {
            assert_eq!((*builder, *proof), ("batch builder", "batch proof"));
        }
        _ => panic!("expected the packing of a batch"),
    }
}

#[test]
fn results_refuse_inputs_of_the_other_kind() {
    let uni: FriVerifierResult<u8, u8> = FriVerifierResult::UniStark(1, vec![]);
    let of_batch: FriVerifierResult<u8, u8> = FriVerifierResult::BatchStark(1, vec![]);
    let expected = "RecursionInput variant does not match verifier result";
    let message = |e: VerificationError| match e {
        VerificationError::InvalidProofShape(m) => m,
        VerificationError::Other(m) => panic!("{m}"),
    };
    assert_eq!(message(uni.pack_public_inputs(&batch(4)).err().unwrap()), expected);
    assert_eq!(message(uni.pack_private_inputs(&batch(4)).err().unwrap()), expected);
    assert_eq!(message(of_batch.pack_public_inputs(&single()).err().unwrap()), expected);
    assert_eq!(message(of_batch.pack_private_inputs(&single()).err().unwrap()), expected);
}

#[test]
fn errors_of_the_verification_are_passed_on() {
    let failed: Result<(u8, Vec<NonPrimitiveOpId>), VerificationError> =
        Err(VerificationError::Other("bad circuit".to_string()));
    let result: Result<FriVerifierResult<u8, u8>, _> = FriVerifierResult::from_uni(failed);
    assert!(matches!(result, Err(VerificationError::Other(m)) if m == "bad circuit"));
    let failed: Result<(u8, Vec<NonPrimitiveOpId>), VerificationError> =
        Err(VerificationError::Other("bad batch".to_string()));
    let result: Result<FriVerifierResult<u8, u8>, _> = FriVerifierResult::from_batch(failed);
    assert!(matches!(result, Err(VerificationError::Other(m)) if m == "bad batch"));
}

#[test]
fn digest_size_is_the_configurations() {
    assert_eq!(Config::DIGEST_ELEMS, 8);
}
