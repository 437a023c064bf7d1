//! Operation identities: primitive tables, plug-in operations and permutation configurations.
use vstd::prelude::*;

verus! {

/// The primitive tables, in the order in which they are prepared.
#[derive(Clone, Copy, Debug, PartialEq, Eq, Structural)]
pub enum PrimitiveOpType {
    /// Constants, with their values committed.
    Const,
    /// Public inputs.
    Public,
    /// All arithmetic operations.
    Alu,
}

/// How many primitive tables there are.
pub const PRIMITIVE_TABLES: usize = 3;

impl PrimitiveOpType {
    /// The table's position.
    pub open spec fn position(self) -> int {
        match self {
            PrimitiveOpType::Const => 0,
            PrimitiveOpType::Public => 1,
            PrimitiveOpType::Alu => 2,
        }
    }

    /// The table's position among the primitive columns.
    pub fn index(self) -> (i: usize)
        ensures
            i == self.position(),
    {
        match self {
            PrimitiveOpType::Const => 0,
            PrimitiveOpType::Public => 1,
            PrimitiveOpType::Alu => 2,
        }
    }
}

/// Name of a plug-in operation, which is also the name of its table.
#[derive(Debug)]
pub struct NpoTypeId {
    /// The name, such as `recompose/coeff`.
    pub name: String,
}

impl View for NpoTypeId {
    type V = Seq<char>;

    open spec fn view(&self) -> Seq<char> {
        self.name@
    }
}

impl Clone for NpoTypeId {
    fn clone(&self) -> (res: Self)
        ensures
            res == *self,
    {
        NpoTypeId { name: self.name.clone() }
    }
}

impl NpoTypeId {
    /// The operation called `name`.
    pub fn new(name: &str) -> (res: Self)
        ensures
            res@ == name@,
    {
        NpoTypeId { name: name.to_owned() }
    }

    /// Whether two names are the same.
    pub fn same(&self, other: &NpoTypeId) -> (res: bool)
        ensures
            res == (self@ == other@),
    {
        self.name == other.name
    }
}

/// Handle of one plug-in operation inside a circuit.
#[derive(Clone, Copy, Debug, PartialEq, Eq, Structural)]
pub struct NonPrimitiveOpId(pub u32);

/// The constraint layout that a permutation table is built with.
#[derive(Clone, Copy, Debug, PartialEq, Eq, Structural)]
pub enum ConstraintProfile {
    /// The layout used unless another one is asked for.
    Standard,
    /// Another layout, by its number.
    Other(u32),
}

impl Default for ConstraintProfile {
    fn default() -> (res: Self)
        ensures
            res == ConstraintProfile::Standard,
    {
        ConstraintProfile::Standard
    }
}

/// Base field of a permutation.
#[derive(Clone, Copy, Debug, PartialEq, Eq, Structural)]
pub enum PermutationField {
    /// `2^31 - 2^27 + 1`.
    BabyBear,
    /// `2^31 - 2^24 + 1`.
    KoalaBear,
    /// `2^64 - 2^32 + 1`.
    Goldilocks,
}

/// A Poseidon1 permutation table: its shape, and whether it is the challenger's own table.
#[derive(Clone, Copy, Debug, PartialEq, Eq, Structural)]
pub struct Poseidon1Config {
    /// Base field.
    pub field: PermutationField,
    /// Extension degree that the table's rows are packed in.
    pub degree: usize,
    /// Permutation width, in base field elements.
    pub width: usize,
    /// Whether the table holds the challenger's duplex rows only.
    pub challenger: bool,
}

impl Poseidon1Config {
    /// The challenger's own table of the same shape.
    pub open spec fn challenger_table(self) -> Poseidon1Config {
        Poseidon1Config { challenger: true, ..self }
    }

    /// Extension degree.
    pub fn d(&self) -> (res: usize)
        ensures
            res == self.degree,
    {
        self.degree
    }

    /// The challenger's own table of the same shape.
    pub fn for_challenger(&self) -> (res: Poseidon1Config)
        ensures
            res == self.challenger_table(),
    {
        Poseidon1Config {
            field: self.field,
            degree: self.degree,
            width: self.width,
            challenger: true,
        }
    }
}

/// A Poseidon2 permutation table: its shape, and whether it is the challenger's own table.
#[derive(Clone, Copy, Debug, PartialEq, Eq, Structural)]
pub struct Poseidon2Config {
    /// Base field.
    pub field: PermutationField,
    /// Extension degree that the table's rows are packed in.
    pub degree: usize,
    /// Permutation width, in base field elements.
    pub width: usize,
    /// Whether the table holds the challenger's duplex rows only.
    pub challenger: bool,
}

impl Poseidon2Config {
    /// The challenger's own table of the same shape.
    pub open spec fn challenger_table(self) -> Poseidon2Config {
        Poseidon2Config { challenger: true, ..self }
    }

    /// Extension degree.
    pub fn d(&self) -> (res: usize)
        ensures
            res == self.degree,
    {
        self.degree
    }

    /// The challenger's own table of the same shape.
    pub fn for_challenger(&self) -> (res: Poseidon2Config)
        ensures
            res == self.challenger_table(),
    {
        Poseidon2Config {
            field: self.field,
            degree: self.degree,
            width: self.width,
            challenger: true,
        }
    }
}

/// A permutation that the Fiat-Shamir challenger can run on.
pub trait ChallengerPermConfig: Sized {
    /// The configuration as Poseidon1, if it is one.
    spec fn poseidon1(self) -> Option<Poseidon1Config>;

    /// The configuration as Poseidon2, if it is one.
    spec fn poseidon2(self) -> Option<Poseidon2Config>;

    /// Extension degree of the permutation.
    spec fn degree(self) -> usize;

    /// The configuration as Poseidon1, if it is one.
    fn as_poseidon1(&self) -> (res: Option<&Poseidon1Config>)
        ensures
            res is Some == self.poseidon1() is Some,
            res matches Some(c) ==> self.poseidon1() == Some(*c),
    ;

    /// The configuration as Poseidon2, if it is one.
    fn as_poseidon2(&self) -> (res: Option<&Poseidon2Config>)
        ensures
            res is Some == self.poseidon2() is Some,
            res matches Some(c) ==> self.poseidon2() == Some(*c),
    ;

    /// Extension degree of the permutation.
    fn extension_degree(&self) -> (res: usize)
        ensures
            res == self.degree(),
    ;
}

impl ChallengerPermConfig for Poseidon1Config {
    open spec fn poseidon1(self) -> Option<Poseidon1Config> {
        Some(self)
    }

    open spec fn poseidon2(self) -> Option<Poseidon2Config> {
        None
    }

    open spec fn degree(self) -> usize {
        self.degree
    }

    fn as_poseidon1(&self) -> (res: Option<&Poseidon1Config>) {
        Some(self)
    }

    fn as_poseidon2(&self) -> (res: Option<&Poseidon2Config>) {
        None
    }

    fn extension_degree(&self) -> (res: usize) {
        self.degree
    }
}

impl ChallengerPermConfig for Poseidon2Config {
    open spec fn poseidon1(self) -> Option<Poseidon1Config> {
        None
    }

    open spec fn poseidon2(self) -> Option<Poseidon2Config> {
        Some(self)
    }

    open spec fn degree(self) -> usize {
        self.degree
    }

    fn as_poseidon1(&self) -> (res: Option<&Poseidon1Config>) {
        None
    }

    fn as_poseidon2(&self) -> (res: Option<&Poseidon2Config>) {
        Some(self)
    }

    fn extension_degree(&self) -> (res: usize) {
        self.degree
    }
}

} // verus!
