//! Errors of table preparation and of verifier-circuit construction.
use crate::ops::NpoTypeId;
use vstd::prelude::*;

verus! {

/// A packing that the tables cannot follow.
#[derive(Debug)]
pub enum ProofMetadataError {
    /// Under strict heights a table needs more rows than its configured height allows.
    ProfileOverflow {
        /// The table.
        table: String,
        /// The padded height that the table's rows need.
        needed: usize,
        /// The padded height that the packing allows.
        allowed: usize,
    },
    /// A per-table height is not a power of two.
    MinHeightNotPowerOfTwo {
        /// The table.
        table: String,
        /// The height.
        height: usize,
    },
    /// A per-table height lies below the global floor.
    MinHeightBelowFloor {
        /// The table.
        table: String,
        /// The height.
        height: usize,
        /// The global floor.
        floor: usize,
    },
}

/// Why tables could not be prepared.
#[derive(Debug)]
pub enum CircuitError {
    /// A preprocessed primitive value lies outside the base field.
    InvalidPreprocessedValues,
    /// Under strict heights a table outgrew its configured height.
    ProfileOverflow {
        /// The table.
        table: String,
        /// The padded height that the table's rows need.
        needed: usize,
        /// The padded height that the packing allows.
        allowed: usize,
    },
    /// A plug-in operation has no table of the expected kind.
    NonPrimitiveOpLayoutMismatch {
        /// The operation.
        op: NpoTypeId,
        /// What was expected for it.
        expected: String,
        /// How many were found.
        got: usize,
    },
    /// The packing is misconfigured.
    InvalidPacking(ProofMetadataError),
    /// An error raised by the circuit or by a plug-in.
    Other(String),
}

impl CircuitError {
    /// Whether this is the overflow of `table`, with the heights given.
    pub open spec fn is_overflow(self, table: Seq<char>, needed: nat, allowed: nat) -> bool {
        self matches CircuitError::ProfileOverflow { table: t, needed: n, allowed: a } && t@
            == table && n == needed && a == allowed
    }

    /// Whether this reports `op` as required and not built.
    pub open spec fn is_missing_table(self, op: Seq<char>) -> bool {
        self matches CircuitError::NonPrimitiveOpLayoutMismatch { op: o, expected, got } && o@ == op
            && expected@ == "an AIR builder for the required table"@ && got == 0
    }
}

impl From<ProofMetadataError> for CircuitError {
    fn from(e: ProofMetadataError) -> (res: CircuitError) {
        match e {
            ProofMetadataError::ProfileOverflow { table, needed, allowed } => {
                CircuitError::ProfileOverflow { table, needed, allowed }
            },
            e => CircuitError::InvalidPacking(e),
        }
    }
}

impl vstd::std_specs::convert::FromSpecImpl<ProofMetadataError> for CircuitError {
    open spec fn obeys_from_spec() -> bool {
        true
    }

    open spec fn from_spec(e: ProofMetadataError) -> CircuitError {
        match e {
            ProofMetadataError::ProfileOverflow { table, needed, allowed } => {
                CircuitError::ProfileOverflow { table, needed, allowed }
            },
            e => CircuitError::InvalidPacking(e),
        }
    }
}

} // verus!
