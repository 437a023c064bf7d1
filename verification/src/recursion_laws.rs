//! What the verification of an input proof, its packing and its private data amount to.
use crate::decimal::{append_decimal, decimal, digit};
use crate::fri::{
    FriRecursionBackend, FriRecursionBackendD5, FriRecursionBackendForExt, TableProver,
};
use crate::ops::{ChallengerPermConfig, NonPrimitiveOpId};
use crate::recursion::{
    build_verifier_circuit_impl, is_built, is_private_data_set, is_replayed_and_set,
    set_replayed_private_data, verifier_call, BatchVerifierCall, FriRecursionConfig,
    FriVerifierResult, PrivatePacking, ProofTypes, PublicPacking, RecursionInput, UniVerifierCall,
    VerificationError, VerifierCircuitCall, Verified,
};
use vstd::prelude::*;

verus! {

/// The number that a text of decimal digits stands for.
pub open spec fn number_in(text: Seq<char>) -> int
    decreases text.len(),
{
    if text.len() == 0 {
        0
    } else {
        10 * number_in(text.drop_last()) + (text.last() as int - '0' as int)
    }
}

/// Whether a text is the number `n` in decimal: digits that stand for it, without a leading zero.
pub open spec fn is_decimal(text: Seq<char>, n: nat) -> bool {
    &&& text.len() > 0
    &&& forall|i: int| 0 <= i < text.len() ==> '0' <= #[trigger] text[i] && text[i] <= '9'
    &&& number_in(text) == n
    &&& text.len() > 1 ==> text[0] != '0'
}

/// The decimal notation of a number is a text that stands for it, without a leading zero.
pub proof fn law_decimal_notation(n: nat)
    ensures
        is_decimal(decimal(n), n),
        n > 0 ==> decimal(n)[0] != '0',
    decreases n,
{
    assert forall|d: nat| d < 10 implies #[trigger] digit(d) as int == '0' as int + d by {}
    if n < 10 {
        let text = seq![digit(n)];
        assert(text.drop_last() =~= Seq::empty());
        assert(number_in(text.drop_last()) == 0);
        assert(text.last() == digit(n));
        assert(number_in(text) == n);
    } else {
        let q = n / 10;
        let r = n % 10;
        law_decimal_notation(q);
        let text = decimal(n);
        assert(text == decimal(q).push(digit(r)));
        assert(text.drop_last() =~= decimal(q));
        assert(text.last() == digit(r));
        assert forall|i: int| 0 <= i < text.len() implies '0' <= #[trigger] text[i] && text[i]
            <= '9' by {
            if i < text.len() - 1 {
                assert(text[i] == decimal(q)[i]);
            }
        }
        assert(text[0] == decimal(q)[0]);
    }
}

/// Whether `call` hands the verifier of a single instance the parts of `prev`, the number of its
/// public inputs, the parameters that the configuration holds, and the challenger.
pub open spec fn hands_over_instance<SC: FriRecursionConfig, C>(
    challenger: C,
    prev: RecursionInput<SC>,
    config: SC,
    call: UniVerifierCall<SC, C>,
) -> bool {
    &&& prev is UniStark
    &&& *call.proof == prev->UniStark_proof
    &&& *call.air == prev->UniStark_air
    &&& *call.preprocessed_commit == prev->UniStark_preprocessed_commit
    &&& call.public_input_count == prev->UniStark_public_inputs@.len()
    &&& *call.params == config.held_params()
    &&& call.challenger_perm_config == challenger
}

/// Whether `call` hands the verifier of a batch the parts of `prev`, the parameters that the
/// configuration holds, the challenger and the provers, for the degree of the batch.
pub open spec fn hands_over_batch<SC: FriRecursionConfig, C>(
    challenger: C,
    prev: RecursionInput<SC>,
    config: SC,
    provers: Seq<TableProver>,
    call: BatchVerifierCall<SC, C>,
) -> bool {
    &&& prev is BatchStark
    &&& call.degree == prev->BatchStark_proof.ext_degree
    &&& *call.proof == prev->BatchStark_proof
    &&& *call.common_data == prev->BatchStark_common_data
    &&& *call.params == config.held_params()
    &&& call.challenger_perm_config == challenger
    &&& call.non_primitive_provers@ == provers
}

/// Whether `e` says that batches of the degree of `prev` are not supported.
pub open spec fn degree_refused<SC: FriRecursionConfig>(
    prev: RecursionInput<SC>,
    e: VerificationError,
) -> bool {
    &&& prev is BatchStark
    &&& e matches VerificationError::InvalidProofShape(message)
    &&& exists|text: Seq<char>| #[trigger]
        is_decimal(text, prev->BatchStark_proof.ext_degree as nat) && message@
            == "unsupported batch proof ext_degree "@ + text
}

/// Whether `prev` is a batch of a degree other than 1, 2, 4 and 5, for which the circuit is left as it
/// was.
pub open spec fn refuses_degree<SC: FriRecursionConfig>(prev: RecursionInput<SC>) -> bool {
    &&& prev is BatchStark
    &&& prev->BatchStark_proof.ext_degree != 1
    &&& prev->BatchStark_proof.ext_degree != 2
    &&& prev->BatchStark_proof.ext_degree != 4
    &&& prev->BatchStark_proof.ext_degree != 5
}

/// Whether the verification of an input comes to `result`: that of a single instance, and of a batch of
/// degree 1, 2, 4 or 5, to what the verifier of its kind returns on being handed its parts; and any
/// other batch to an error.
pub open spec fn verifies<'a, SC: FriRecursionConfig + 'a, C, K, U, B, FU, FB>(
    challenger: C,
    prev: RecursionInput<SC>,
    config: SC,
    circuit: K,
    provers: Seq<TableProver>,
    verify_uni: FU,
    verify_batch: FB,
    result: Result<FriVerifierResult<U, B>, VerificationError>,
) -> bool where
    FU: FnOnce(K, UniVerifierCall<'a, SC, C>) -> Verified<U>,
    FB: FnOnce(K, BatchVerifierCall<'a, SC, C>) -> Verified<B>,
 {
    match prev {
        RecursionInput::UniStark { .. } => exists|
            call: UniVerifierCall<'a, SC, C>,
            verified: Verified<U>,
        |
            {
                &&& hands_over_instance(challenger, prev, config, call)
                &&& #[trigger] call_ensures(verify_uni, (circuit, call), verified)
                &&& match verified {
                    Ok(v) => result matches Ok(FriVerifierResult::UniStark(inputs, ids)) && inputs
                        == v.0 && ids == v.1,
                    Err(error) => result matches Err(e) && e == error,
                }
            },
        RecursionInput::BatchStark { proof, .. } => {
            let d = proof.ext_degree;
            if d == 1 || d == 2 || d == 4 || d == 5 {
                exists|call: BatchVerifierCall<'a, SC, C>, verified: Verified<B>|
                    {
                        &&& hands_over_batch(challenger, prev, config, provers, call)
                        &&& #[trigger] call_ensures(verify_batch, (circuit, call), verified)
                        &&& match verified {
                            Ok(v) => result matches Ok(FriVerifierResult::BatchStark(inputs, ids))
                                && inputs == v.0 && ids == v.1,
                            Err(error) => result matches Err(e) && e == error,
                        }
                    }
            } else {
                result matches Err(e) && degree_refused(prev, e)
            }
        },
    }
}

proof fn lemma_verifies<'a, SC: FriRecursionConfig + 'a, C, K, U, B, FU, FB>(
    challenger: C,
    prev: RecursionInput<SC>,
    config: SC,
    circuit: K,
    provers: Seq<TableProver>,
    verify_uni: FU,
    verify_batch: FB,
    result: Result<FriVerifierResult<U, B>, VerificationError>,
) where
    FU: FnOnce(K, UniVerifierCall<'a, SC, C>) -> Verified<U>,
    FB: FnOnce(K, BatchVerifierCall<'a, SC, C>) -> Verified<B>,

    requires
        is_built(challenger, prev, config, circuit, provers, verify_uni, verify_batch, result),
    ensures
        verifies(challenger, prev, config, circuit, provers, verify_uni, verify_batch, result),
{
    match prev {
        RecursionInput::UniStark { .. } => {
            let (call, verified) = choose|
                call: UniVerifierCall<'a, SC, C>,
                verified: Verified<U>,
            |
                {
                    &&& crate::recursion::is_uni_call(challenger, prev, config, call)
                    &&& #[trigger] call_ensures(verify_uni, (circuit, call), verified)
                    &&& FriVerifierResult::<U, B>::holds_uni(verified, result)
                };
            assert(hands_over_instance(challenger, prev, config, call));
            assert(call_ensures(verify_uni, (circuit, call), verified));
        },
        RecursionInput::BatchStark { proof, .. } => {
            law_decimal_notation(proof.ext_degree as nat);
            if crate::recursion::supported_degree(proof.ext_degree) {
                let (call, verified) = choose|
                    call: BatchVerifierCall<'a, SC, C>,
                    verified: Verified<B>,
                |
                    {
                        &&& crate::recursion::is_batch_call(
                            challenger,
                            prev,
                            config,
                            provers,
                            call,
                        )
                        &&& #[trigger] call_ensures(verify_batch, (circuit, call), verified)
                        &&& FriVerifierResult::<U, B>::holds_batch(verified, result)
                    };
                assert(hands_over_batch(challenger, prev, config, provers, call));
                assert(call_ensures(verify_batch, (circuit, call), verified));
            }
        },
    }
}

/// What [`build_verifier_circuit_impl`] comes to, and that the circuit of a refused batch is left as
/// it was.
pub proof fn law_verification<
    'a,
    SC: FriRecursionConfig + 'a,
    C: ChallengerPermConfig + Copy,
    K,
    U,
    B,
    FU: FnOnce(K, UniVerifierCall<'a, SC, C>) -> Verified<U>,
    FB: FnOnce(K, BatchVerifierCall<'a, SC, C>) -> Verified<B>,
    const WIDTH: usize,
    const RATE: usize,
>(
    backend: FriRecursionBackend<WIDTH, RATE, C>,
    prev: &'a RecursionInput<SC>,
    config: &'a SC,
    circuit: K,
    provers: Vec<TableProver>,
    verify_uni: FU,
    verify_batch: FB,
    result: Result<FriVerifierResult<U, B>, VerificationError>,
)
    requires
        call_ensures(
            build_verifier_circuit_impl::<SC, C, K, U, B, FU, FB, WIDTH, RATE>,
            (&backend, prev, config, circuit, provers, verify_uni, verify_batch),
            result,
        ),
    ensures
        verifies(
            backend.challenger_perm_config,
            *prev,
            *config,
            circuit,
            provers@,
            verify_uni,
            verify_batch,
            result,
        ),
        refuses_degree(*prev) ==> has_resolved(circuit),
{
    lemma_verifies(
        backend.challenger_perm_config,
        *prev,
        *config,
        circuit,
        provers@,
        verify_uni,
        verify_batch,
        result,
    );
}

/// What [`verifier_call`] decides.
pub proof fn law_decision<
    'a,
    SC: FriRecursionConfig + 'a,
    C: ChallengerPermConfig + Copy,
    const WIDTH: usize,
    const RATE: usize,
>(
    backend: FriRecursionBackend<WIDTH, RATE, C>,
    prev: &'a RecursionInput<SC>,
    config: &'a SC,
    provers: Vec<TableProver>,
    result: Result<VerifierCircuitCall<'a, SC, C>, VerificationError>,
)
    requires
        call_ensures(
            verifier_call::<SC, C, WIDTH, RATE>,
            (&backend, prev, config, provers),
            result,
        ),
    ensures
        match *prev {
            RecursionInput::UniStark { .. } => {
                &&& result matches Ok(VerifierCircuitCall::UniStark(call))
                &&& hands_over_instance(backend.challenger_perm_config, *prev, *config, call)
            },
            RecursionInput::BatchStark { proof, .. } => {
                let d = proof.ext_degree;
                if d == 1 || d == 2 || d == 4 || d == 5 {
                    &&& result matches Ok(VerifierCircuitCall::BatchStark(call))
                    &&& hands_over_batch(
                        backend.challenger_perm_config,
                        *prev,
                        *config,
                        provers@,
                        call,
                    )
                } else {
                    result matches Err(e) && degree_refused(*prev, e)
                }
            },
        },
{
    if let RecursionInput::BatchStark { proof, .. } = *prev {
        law_decimal_notation(proof.ext_degree as nat);
    }
}

/// What the private data are set to with a replayed transcript: without one, nothing, and an error;
/// with one, what the configuration makes of the input's opening proof and the transcript.
pub open spec fn sets_private_data<SC: FriRecursionConfig, X>(
    config: SC,
    before: SC::Runner,
    op_ids: Seq<NonPrimitiveOpId>,
    prev: RecursionInput<SC>,
    transcript: Result<SC::Transcript, X>,
    after: SC::Runner,
    result: Result<(), &'static str>,
) -> bool {
    match transcript {
        Err(_) => {
            &&& after == before
            &&& result matches Err(message)
            &&& message@ == "Failed to replay the input proof's verifier transcript"@
        },
        Ok(replayed) => exists|opening_proof: &SC::RawOpeningProof| #[trigger]
            call_ensures(SC::fri_opening_proof, (&prev,), opening_proof)
                && config.private_data_outcome(
                before,
                op_ids,
                *opening_proof,
                replayed,
                after,
                result,
            ),
    }
}

/// Setting the private data of an input replays its transcript with the provers given.
pub proof fn law_private_data<SC: FriRecursionConfig, X, F>(
    config: SC,
    before: SC::Runner,
    op_ids: Seq<NonPrimitiveOpId>,
    prev: RecursionInput<SC>,
    provers: Seq<TableProver>,
    replay: F,
    after: SC::Runner,
    result: Result<(), &'static str>,
) where F: FnOnce(&SC, &RecursionInput<SC>, &Vec<TableProver>) -> Result<SC::Transcript, X>
    requires
        is_replayed_and_set::<SC, X, F>(
            config,
            before,
            op_ids,
            prev,
            provers,
            replay,
            after,
            result,
        ),
    ensures
        exists|used: Vec<TableProver>, transcript: Result<SC::Transcript, X>|
            {
                &&& used@ == provers
                &&& #[trigger] call_ensures(replay, (&config, &prev, &used), transcript)
                &&& sets_private_data(config, before, op_ids, prev, transcript, after, result)
            },
{
    let (used, transcript) = choose|
        used: Vec<TableProver>,
        transcript: Result<SC::Transcript, X>,
    |
        {
            &&& used@ == provers
            &&& #[trigger] call_ensures(replay, (&config, &prev, &used), transcript)
            &&& is_private_data_set(config, before, op_ids, prev, transcript, after, result)
        };
    assert(call_ensures(replay, (&config, &prev, &used), transcript));
}

/// For a batch the back end over degree 2 verifies, and replays, with exactly the provers that it
/// hands out for the degree of the batch, whatever tables are registered; for a single instance with
/// none.
pub proof fn law_provers_of_inputs_of_degree_two<
    'a,
    SC: FriRecursionConfig + 'a,
    C: ChallengerPermConfig + Copy,
    K,
    U,
    B,
    FU: FnOnce(K, UniVerifierCall<'a, SC, C>) -> Verified<U>,
    FB: FnOnce(K, BatchVerifierCall<'a, SC, C>) -> Verified<B>,
    const WIDTH: usize,
    const RATE: usize,
>(
    backend: FriRecursionBackendForExt<2, WIDTH, RATE, C>,
    prev: &'a RecursionInput<SC>,
    config: &'a SC,
    ext_degree: usize,
    handed_out: Vec<TableProver>,
    of_input: Vec<TableProver>,
    decided: Result<VerifierCircuitCall<'a, SC, C>, VerificationError>,
    circuit: K,
    verify_uni: FU,
    verify_batch: FB,
    result: Result<FriVerifierResult<U, B>, VerificationError>,
)
    requires
        *prev matches RecursionInput::BatchStark { proof, .. } ==> proof.ext_degree == ext_degree,
        call_ensures(
            FriRecursionBackendForExt::<2, WIDTH, RATE, C>::non_primitive_provers,
            (&backend, ext_degree),
            handed_out,
        ),
        call_ensures(
            FriRecursionBackendForExt::<2, WIDTH, RATE, C>::provers_of_input::<SC>,
            (&backend, prev),
            of_input,
        ),
        call_ensures(
            FriRecursionBackendForExt::<2, WIDTH, RATE, C>::verifier_call_of_input::<SC>,
            (&backend, prev, config),
            decided,
        ),
        call_ensures(
            FriRecursionBackendForExt::<2, WIDTH, RATE, C>::build_verifier_circuit::<SC, K, U, B, FU, FB>,
            (&backend, prev, config, circuit, verify_uni, verify_batch),
            result,
        ),
    ensures
        *prev is BatchStark ==> of_input@ == handed_out@ && backend.input_provers(*prev)
            == handed_out@,
        *prev is UniStark ==> of_input@.len() == 0 && backend.input_provers(*prev).len() == 0,
        decided matches Ok(VerifierCircuitCall::BatchStark(call)) ==> hands_over_batch(
            backend.0.challenger_perm_config,
            *prev,
            *config,
            handed_out@,
            call,
        ),
        decided matches Ok(VerifierCircuitCall::UniStark(call)) ==> hands_over_instance(
            backend.0.challenger_perm_config,
            *prev,
            *config,
            call,
        ),
        decided matches Err(e) ==> degree_refused(*prev, e),
        verifies(
            backend.0.challenger_perm_config,
            *prev,
            *config,
            circuit,
            handed_out@,
            verify_uni,
            verify_batch,
            result,
        ),
        refuses_degree(*prev) ==> has_resolved(circuit),
{
    if let RecursionInput::BatchStark { proof, .. } = *prev {
        law_decimal_notation(proof.ext_degree as nat);
    }
    lemma_verifies(
        backend.0.challenger_perm_config,
        *prev,
        *config,
        circuit,
        backend.input_provers(*prev),
        verify_uni,
        verify_batch,
        result,
    );
    assert(of_input@ =~= backend.input_provers(*prev));
}

/// For a batch the back end over degree 4 verifies, and replays, with exactly the provers that it
/// hands out for the degree of the batch, whatever tables are registered; for a single instance with
/// none.
pub proof fn law_provers_of_inputs_of_degree_four<
    'a,
    SC: FriRecursionConfig + 'a,
    C: ChallengerPermConfig + Copy,
    K,
    U,
    B,
    FU: FnOnce(K, UniVerifierCall<'a, SC, C>) -> Verified<U>,
    FB: FnOnce(K, BatchVerifierCall<'a, SC, C>) -> Verified<B>,
    const WIDTH: usize,
    const RATE: usize,
>(
    backend: FriRecursionBackendForExt<4, WIDTH, RATE, C>,
    prev: &'a RecursionInput<SC>,
    config: &'a SC,
    ext_degree: usize,
    handed_out: Vec<TableProver>,
    of_input: Vec<TableProver>,
    decided: Result<VerifierCircuitCall<'a, SC, C>, VerificationError>,
    circuit: K,
    verify_uni: FU,
    verify_batch: FB,
    result: Result<FriVerifierResult<U, B>, VerificationError>,
)
    requires
        *prev matches RecursionInput::BatchStark { proof, .. } ==> proof.ext_degree == ext_degree,
        call_ensures(
            FriRecursionBackendForExt::<4, WIDTH, RATE, C>::non_primitive_provers,
            (&backend, ext_degree),
            handed_out,
        ),
        call_ensures(
            FriRecursionBackendForExt::<4, WIDTH, RATE, C>::provers_of_input::<SC>,
            (&backend, prev),
            of_input,
        ),
        call_ensures(
            FriRecursionBackendForExt::<4, WIDTH, RATE, C>::verifier_call_of_input::<SC>,
            (&backend, prev, config),
            decided,
        ),
        call_ensures(
            FriRecursionBackendForExt::<4, WIDTH, RATE, C>::build_verifier_circuit::<SC, K, U, B, FU, FB>,
            (&backend, prev, config, circuit, verify_uni, verify_batch),
            result,
        ),
    ensures
        *prev is BatchStark ==> of_input@ == handed_out@ && backend.input_provers(*prev)
            == handed_out@,
        *prev is UniStark ==> of_input@.len() == 0 && backend.input_provers(*prev).len() == 0,
        decided matches Ok(VerifierCircuitCall::BatchStark(call)) ==> hands_over_batch(
            backend.0.challenger_perm_config,
            *prev,
            *config,
            handed_out@,
            call,
        ),
        decided matches Ok(VerifierCircuitCall::UniStark(call)) ==> hands_over_instance(
            backend.0.challenger_perm_config,
            *prev,
            *config,
            call,
        ),
        decided matches Err(e) ==> degree_refused(*prev, e),
        verifies(
            backend.0.challenger_perm_config,
            *prev,
            *config,
            circuit,
            handed_out@,
            verify_uni,
            verify_batch,
            result,
        ),
        refuses_degree(*prev) ==> has_resolved(circuit),
{
    if let RecursionInput::BatchStark { proof, .. } = *prev {
        law_decimal_notation(proof.ext_degree as nat);
    }
    lemma_verifies(
        backend.0.challenger_perm_config,
        *prev,
        *config,
        circuit,
        backend.input_provers(*prev),
        verify_uni,
        verify_batch,
        result,
    );
    assert(of_input@ =~= backend.input_provers(*prev));
}

/// For a batch the back end over degree 5 verifies, and replays, with exactly the provers that it
/// hands out for the degree of the batch, whatever tables are registered; for a single instance with
/// none.
pub proof fn law_provers_of_inputs_of_degree_five<
    'a,
    SC: FriRecursionConfig + 'a,
    C: ChallengerPermConfig + Copy,
    K,
    U,
    B,
    FU: FnOnce(K, UniVerifierCall<'a, SC, C>) -> Verified<U>,
    FB: FnOnce(K, BatchVerifierCall<'a, SC, C>) -> Verified<B>,
    const WIDTH: usize,
    const RATE: usize,
>(
    backend: FriRecursionBackendD5<WIDTH, RATE, C>,
    prev: &'a RecursionInput<SC>,
    config: &'a SC,
    ext_degree: usize,
    handed_out: Vec<TableProver>,
    of_input: Vec<TableProver>,
    decided: Result<VerifierCircuitCall<'a, SC, C>, VerificationError>,
    circuit: K,
    verify_uni: FU,
    verify_batch: FB,
    result: Result<FriVerifierResult<U, B>, VerificationError>,
)
    requires
        *prev matches RecursionInput::BatchStark { proof, .. } ==> proof.ext_degree == ext_degree,
        call_ensures(
            FriRecursionBackendD5::<WIDTH, RATE, C>::non_primitive_provers,
            (&backend, ext_degree),
            handed_out,
        ),
        call_ensures(
            FriRecursionBackendD5::<WIDTH, RATE, C>::provers_of_input::<SC>,
            (&backend, prev),
            of_input,
        ),
        call_ensures(
            FriRecursionBackendD5::<WIDTH, RATE, C>::verifier_call_of_input::<SC>,
            (&backend, prev, config),
            decided,
        ),
        call_ensures(
            FriRecursionBackendD5::<WIDTH, RATE, C>::build_verifier_circuit::<SC, K, U, B, FU, FB>,
            (&backend, prev, config, circuit, verify_uni, verify_batch),
            result,
        ),
    ensures
        *prev is BatchStark ==> of_input@ == handed_out@ && backend.input_provers(*prev)
            == handed_out@,
        *prev is UniStark ==> of_input@.len() == 0 && backend.input_provers(*prev).len() == 0,
        decided matches Ok(VerifierCircuitCall::BatchStark(call)) ==> hands_over_batch(
            backend.0.challenger_perm_config,
            *prev,
            *config,
            handed_out@,
            call,
        ),
        decided matches Ok(VerifierCircuitCall::UniStark(call)) ==> hands_over_instance(
            backend.0.challenger_perm_config,
            *prev,
            *config,
            call,
        ),
        decided matches Err(e) ==> degree_refused(*prev, e),
        verifies(
            backend.0.challenger_perm_config,
            *prev,
            *config,
            circuit,
            handed_out@,
            verify_uni,
            verify_batch,
            result,
        ),
        refuses_degree(*prev) ==> has_resolved(circuit),
{
    if let RecursionInput::BatchStark { proof, .. } = *prev {
        law_decimal_notation(proof.ext_degree as nat);
    }
    lemma_verifies(
        backend.0.challenger_perm_config,
        *prev,
        *config,
        circuit,
        backend.input_provers(*prev),
        verify_uni,
        verify_batch,
        result,
    );
    assert(of_input@ =~= backend.input_provers(*prev));
}

/// What a result packs of an input of its own kind, and that it refuses one of the other kind; which
/// operations it holds; and how it is made from what a verifier returned.
pub proof fn law_packing_of_inputs<'a, T: ProofTypes + 'a, U, B>(
    result: &'a FriVerifierResult<U, B>,
    prev: &'a RecursionInput<T>,
    public: Result<PublicPacking<'a, T, U, B>, VerificationError>,
    private: Result<PrivatePacking<'a, T, U, B>, VerificationError>,
    ids: &'a [NonPrimitiveOpId],
)
    requires
        call_ensures(
            FriVerifierResult::<U, B>::pack_public_inputs::<T>,
            (result, prev),
            public,
        ),
        call_ensures(
            FriVerifierResult::<U, B>::pack_private_inputs::<T>,
            (result, prev),
            private,
        ),
        call_ensures(FriVerifierResult::<U, B>::op_ids, (result,), ids),
    ensures
        *result is UniStark && *prev is UniStark ==> {
            &&& public matches Ok(
                PublicPacking::UniStark { builder, public_inputs, proof, preprocessed_commit },
            )
            &&& *builder == result->UniStark_0
            &&& *public_inputs == prev->UniStark_public_inputs
            &&& *proof == prev->UniStark_proof
            &&& *preprocessed_commit == prev->UniStark_preprocessed_commit
        },
        *result is UniStark && *prev is UniStark ==> {
            &&& private matches Ok(PrivatePacking::UniStark { builder, proof })
            &&& *builder == result->UniStark_0
            &&& *proof == prev->UniStark_proof
        },
        *result is BatchStark && *prev is BatchStark ==> {
            &&& public matches Ok(
                PublicPacking::BatchStark { builder, table_public_inputs, proof, common_data },
            )
            &&& *builder == result->BatchStark_0
            &&& *table_public_inputs == prev->BatchStark_table_public_inputs
            &&& *proof == prev->BatchStark_proof.proof
            &&& *common_data == prev->BatchStark_common_data
        },
        *result is BatchStark && *prev is BatchStark ==> {
            &&& private matches Ok(PrivatePacking::BatchStark { builder, proof })
            &&& *builder == result->BatchStark_0
            &&& *proof == prev->BatchStark_proof.proof
        },
        *result is UniStark != *prev is UniStark ==> {
            &&& public matches Err(VerificationError::InvalidProofShape(message))
            &&& message@ == "RecursionInput variant does not match verifier result"@
        },
        *result is UniStark != *prev is UniStark ==> {
            &&& private matches Err(VerificationError::InvalidProofShape(message))
            &&& message@ == "RecursionInput variant does not match verifier result"@
        },
        *result is UniStark ==> ids@ == result->UniStark_1@,
        *result is BatchStark ==> ids@ == result->BatchStark_1@,
{
}

/// A result is made from what the verifier of its kind returned, and its error is passed on.
pub proof fn law_results_of_verifiers<U, B>(
    uni: Verified<U>,
    of_uni: Result<FriVerifierResult<U, B>, VerificationError>,
    batch: Verified<B>,
    of_batch: Result<FriVerifierResult<U, B>, VerificationError>,
)
    requires
        call_ensures(FriVerifierResult::<U, B>::from_uni, (uni,), of_uni),
        call_ensures(FriVerifierResult::<U, B>::from_batch, (batch,), of_batch),
    ensures
        match uni {
            Ok(v) => of_uni matches Ok(FriVerifierResult::UniStark(inputs, ids)) && inputs == v.0
                && ids == v.1,
            Err(error) => of_uni matches Err(e) && e == error,
        },
        match batch {
            Ok(v) => of_batch matches Ok(FriVerifierResult::BatchStark(inputs, ids)) && inputs
                == v.0 && ids == v.1,
            Err(error) => of_batch matches Err(e) && e == error,
        },
{
}

/// The back end over degree 2 sets the private data of an input with a transcript that is replayed
/// with the provers that it hands out for the degree of a batch, and with none for a single instance.
pub proof fn law_private_data_of_degree_two<
    SC: FriRecursionConfig,
    C: ChallengerPermConfig + Copy,
    X,
    F: FnOnce(&SC, &RecursionInput<SC>, &Vec<TableProver>) -> Result<SC::Transcript, X>,
    const WIDTH: usize,
    const RATE: usize,
>(
    backend: FriRecursionBackendForExt<2, WIDTH, RATE, C>,
    config: SC,
    runner: &mut SC::Runner,
    op_ids: Vec<NonPrimitiveOpId>,
    prev: RecursionInput<SC>,
    replay: F,
    ext_degree: usize,
    handed_out: Vec<TableProver>,
    result: Result<(), &'static str>,
)
    requires
        prev matches RecursionInput::BatchStark { proof, .. } ==> proof.ext_degree == ext_degree,
        call_ensures(
            FriRecursionBackendForExt::<2, WIDTH, RATE, C>::non_primitive_provers,
            (&backend, ext_degree),
            handed_out,
        ),
        call_ensures(
            FriRecursionBackendForExt::<2, WIDTH, RATE, C>::set_private_data::<SC, X, F>,
            (&backend, &config, runner, &op_ids, &prev, replay),
            result,
        ),
    ensures
        exists|used: Vec<TableProver>, transcript: Result<SC::Transcript, X>|
            {
                &&& prev is BatchStark ==> used@ == handed_out@
                &&& prev is UniStark ==> used@.len() == 0
                &&& #[trigger] call_ensures(replay, (&config, &prev, &used), transcript)
                &&& sets_private_data(
                    config,
                    *old(runner),
                    op_ids@,
                    prev,
                    transcript,
                    *final(runner),
                    result,
                )
            },
{
    law_private_data::<SC, X, F>(
        config,
        *runner,
        op_ids@,
        prev,
        backend.input_provers(prev),
        replay,
        *final(runner),
        result,
    );
}

/// The back end over degree 4 sets the private data of an input with a transcript that is replayed
/// with the provers that it hands out for the degree of a batch, and with none for a single instance.
pub proof fn law_private_data_of_degree_four<
    SC: FriRecursionConfig,
    C: ChallengerPermConfig + Copy,
    X,
    F: FnOnce(&SC, &RecursionInput<SC>, &Vec<TableProver>) -> Result<SC::Transcript, X>,
    const WIDTH: usize,
    const RATE: usize,
>(
    backend: FriRecursionBackendForExt<4, WIDTH, RATE, C>,
    config: SC,
    runner: &mut SC::Runner,
    op_ids: Vec<NonPrimitiveOpId>,
    prev: RecursionInput<SC>,
    replay: F,
    ext_degree: usize,
    handed_out: Vec<TableProver>,
    result: Result<(), &'static str>,
)
    requires
        prev matches RecursionInput::BatchStark { proof, .. } ==> proof.ext_degree == ext_degree,
        call_ensures(
            FriRecursionBackendForExt::<4, WIDTH, RATE, C>::non_primitive_provers,
            (&backend, ext_degree),
            handed_out,
        ),
        call_ensures(
            FriRecursionBackendForExt::<4, WIDTH, RATE, C>::set_private_data::<SC, X, F>,
            (&backend, &config, runner, &op_ids, &prev, replay),
            result,
        ),
    ensures
        exists|used: Vec<TableProver>, transcript: Result<SC::Transcript, X>|
            {
                &&& prev is BatchStark ==> used@ == handed_out@
                &&& prev is UniStark ==> used@.len() == 0
                &&& #[trigger] call_ensures(replay, (&config, &prev, &used), transcript)
                &&& sets_private_data(
                    config,
                    *old(runner),
                    op_ids@,
                    prev,
                    transcript,
                    *final(runner),
                    result,
                )
            },
{
    law_private_data::<SC, X, F>(
        config,
        *runner,
        op_ids@,
        prev,
        backend.input_provers(prev),
        replay,
        *final(runner),
        result,
    );
}

/// The back end over degree 5 sets the private data of an input with a transcript that is replayed
/// with the provers that it hands out for the degree of a batch, and with none for a single instance.
pub proof fn law_private_data_of_degree_five<
    SC: FriRecursionConfig,
    C: ChallengerPermConfig + Copy,
    X,
    F: FnOnce(&SC, &RecursionInput<SC>, &Vec<TableProver>) -> Result<SC::Transcript, X>,
    const WIDTH: usize,
    const RATE: usize,
>(
    backend: FriRecursionBackendD5<WIDTH, RATE, C>,
    config: SC,
    runner: &mut SC::Runner,
    op_ids: Vec<NonPrimitiveOpId>,
    prev: RecursionInput<SC>,
    replay: F,
    ext_degree: usize,
    handed_out: Vec<TableProver>,
    result: Result<(), &'static str>,
)
    requires
        prev matches RecursionInput::BatchStark { proof, .. } ==> proof.ext_degree == ext_degree,
        call_ensures(
            FriRecursionBackendD5::<WIDTH, RATE, C>::non_primitive_provers,
            (&backend, ext_degree),
            handed_out,
        ),
        call_ensures(
            FriRecursionBackendD5::<WIDTH, RATE, C>::set_private_data::<SC, X, F>,
            (&backend, &config, runner, &op_ids, &prev, replay),
            result,
        ),
    ensures
        exists|used: Vec<TableProver>, transcript: Result<SC::Transcript, X>|
            {
                &&& prev is BatchStark ==> used@ == handed_out@
                &&& prev is UniStark ==> used@.len() == 0
                &&& #[trigger] call_ensures(replay, (&config, &prev, &used), transcript)
                &&& sets_private_data(
                    config,
                    *old(runner),
                    op_ids@,
                    prev,
                    transcript,
                    *final(runner),
                    result,
                )
            },
{
    law_private_data::<SC, X, F>(
        config,
        *runner,
        op_ids@,
        prev,
        backend.input_provers(prev),
        replay,
        *final(runner),
        result,
    );
}

/// [`set_replayed_private_data`] does with a transcript what it says.
pub proof fn law_replayed_private_data<SC: FriRecursionConfig, X>(
    config: SC,
    runner: &mut SC::Runner,
    op_ids: Vec<NonPrimitiveOpId>,
    prev: RecursionInput<SC>,
    transcript: Result<SC::Transcript, X>,
    result: Result<(), &'static str>,
)
    requires
        call_ensures(
            set_replayed_private_data::<SC, X>,
            (&config, runner, &op_ids, &prev, transcript),
            result,
        ),
    ensures
        sets_private_data(config, *old(runner), op_ids@, prev, transcript, *final(runner), result),
{
}

/// Appending a number adds its decimal notation to the text.
pub proof fn law_appended_numbers(text: &mut String, n: usize, res: ())
    requires
        call_ensures(append_decimal, (text, n), res),
    ensures
        exists|digits: Seq<char>| #[trigger]
            is_decimal(digits, n as nat) && final(text)@ == old(text)@ + digits,
{
    law_decimal_notation(n as nat);
}

/// The back end over degree 2 leaves the preparation of a circuit to the configuration.
pub proof fn law_prepared_circuits_of_degree_two<
    SC: FriRecursionConfig,
    C: ChallengerPermConfig + Copy,
    const WIDTH: usize,
    const RATE: usize,
>(
    backend: FriRecursionBackendForExt<2, WIDTH, RATE, C>,
    config: SC,
    circuit: &mut SC::Circuit,
    res: Result<(), VerificationError>,
)
    requires
        call_ensures(
            FriRecursionBackendForExt::<2, WIDTH, RATE, C>::prepare_circuit::<SC>,
            (&backend, &config, circuit),
            res,
        ),
    ensures
        config.prepare_outcome(*old(circuit), *final(circuit), res),
{
}

/// The back end over degree 4 leaves the preparation of a circuit to the configuration.
pub proof fn law_prepared_circuits_of_degree_four<
    SC: FriRecursionConfig,
    C: ChallengerPermConfig + Copy,
    const WIDTH: usize,
    const RATE: usize,
>(
    backend: FriRecursionBackendForExt<4, WIDTH, RATE, C>,
    config: SC,
    circuit: &mut SC::Circuit,
    res: Result<(), VerificationError>,
)
    requires
        call_ensures(
            FriRecursionBackendForExt::<4, WIDTH, RATE, C>::prepare_circuit::<SC>,
            (&backend, &config, circuit),
            res,
        ),
    ensures
        config.prepare_outcome(*old(circuit), *final(circuit), res),
{
}

/// The back end over degree 5 leaves the preparation of a circuit to the configuration.
pub proof fn law_prepared_circuits_of_degree_five<
    SC: FriRecursionConfig,
    C: ChallengerPermConfig + Copy,
    const WIDTH: usize,
    const RATE: usize,
>(
    backend: FriRecursionBackendD5<WIDTH, RATE, C>,
    config: SC,
    circuit: &mut SC::Circuit,
    res: Result<(), VerificationError>,
)
    requires
        call_ensures(
            FriRecursionBackendD5::<WIDTH, RATE, C>::prepare_circuit::<SC>,
            (&backend, &config, circuit),
            res,
        ),
    ensures
        config.prepare_outcome(*old(circuit), *final(circuit), res),
{
}

} // verus!
