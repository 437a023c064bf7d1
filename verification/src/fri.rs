//! FRI recursion back end: which permutation and recompose tables a proof carries, in order.
use crate::ops::{
    ChallengerPermConfig, ConstraintProfile, Poseidon1Config, Poseidon2Config,
};
use vstd::prelude::*;

verus! {

/// FRI-based recursion back end, holding the challenger permutation config.
///
/// `WIDTH` and `RATE` are the permutation circuit parameters (typically 16 and 8), and `C` is
/// the challenger permutation config.
pub struct FriRecursionBackend<const WIDTH: usize, const RATE: usize, C: ChallengerPermConfig> {
    /// Permutation used for the Fiat-Shamir challenger.
    pub challenger_perm_config: C,
    /// Further Poseidon2 tables that may appear in the proofs that are verified.
    pub extra_poseidon2_table_configs: Vec<Poseidon2Config>,
    /// Number of recompose operations packed per row. The same for prover and verifier.
    pub recompose_lanes: usize,
    /// Whether MMCS and compression rows share the challenger permutation's shape.
    pub shares_challenger_perm_table: bool,
}

/// The tables of the challenger's Poseidon2 shape: its own table, then the shared one.
///
/// In the base field the shared table binds the sponge capacity too and is the only one.
pub open spec fn poseidon2_shapes(config: Poseidon2Config, shared: bool) -> Seq<Poseidon2Config> {
    if config.degree < 2 {
        seq![config]
    } else if shared {
        seq![config.challenger_table(), config]
    } else {
        seq![config.challenger_table()]
    }
}

/// The tables of the challenger's Poseidon1 shape: its own table, then the shared one.
pub open spec fn poseidon1_shapes(config: Poseidon1Config, shared: bool) -> Seq<Poseidon1Config> {
    if config.degree < 2 {
        seq![config]
    } else if shared {
        seq![config.challenger_table(), config]
    } else {
        seq![config.challenger_table()]
    }
}

/// The members of `configs` of the given degree, `skip` left out, each at its first occurrence.
pub open spec fn distinct_of_degree(
    configs: Seq<Poseidon2Config>,
    degree: usize,
    skip: Option<Poseidon2Config>,
) -> Seq<Poseidon2Config>
    decreases configs.len(),
{
    if configs.len() == 0 {
        Seq::empty()
    } else {
        let before = distinct_of_degree(configs.drop_last(), degree, skip);
        let config = configs.last();
        if config.degree == degree && skip != Some(config) && !before.contains(config) {
            before.push(config)
        } else {
            before
        }
    }
}

/// Whether `configs` holds `config`.
fn holds_config(configs: &Vec<Poseidon2Config>, config: Poseidon2Config) -> (res: bool)
    ensures
        res == configs@.contains(config),
{
    let mut i: usize = 0;
    while i < configs.len()
        invariant
            i <= configs.len(),
            forall|j: int| 0 <= j < i ==> configs[j] != config,
        decreases configs.len() - i,
    {
        if configs[i] == config {
            assert(configs@[i as int] == config);
            return true;
        }
        i += 1;
    }
    false
}

impl<const WIDTH: usize, const RATE: usize, C: ChallengerPermConfig> FriRecursionBackend<
    WIDTH,
    RATE,
    C,
> {
    /// A row holds at least one recompose operation.
    pub open spec fn well_formed(self) -> bool {
        self.recompose_lanes >= 1
    }

    /// The extra Poseidon2 tables of a degree: those registered, without repetition and without
    /// the challenger's config.
    pub open spec fn extra_poseidon2(self, degree: usize) -> Seq<Poseidon2Config> {
        distinct_of_degree(
            self.extra_poseidon2_table_configs@,
            degree,
            self.challenger_perm_config.poseidon2(),
        )
    }

    /// The Poseidon2 tables of a degree, in the order in which they are registered.
    pub open spec fn poseidon2_air_configs(self, degree: usize) -> Seq<Poseidon2Config> {
        match self.challenger_perm_config.poseidon2() {
            Some(c) => poseidon2_shapes(c, self.shares_challenger_perm_table)
                + self.extra_poseidon2(degree),
            None => self.extra_poseidon2(degree),
        }
    }

    /// A back end with one recompose operation per row, no extra tables, and MMCS and
    /// compression rows on the challenger's shape.
    pub fn new(challenger_perm_config: C) -> (res: Self)
        ensures
            res.challenger_perm_config == challenger_perm_config,
            res.extra_poseidon2_table_configs@ == Seq::<Poseidon2Config>::empty(),
            res.recompose_lanes == 1,
            res.shares_challenger_perm_table,
            res.well_formed(),
    {
        FriRecursionBackend {
            challenger_perm_config,
            extra_poseidon2_table_configs: Vec::new(),
            recompose_lanes: 1,
            shares_challenger_perm_table: true,
        }
    }

    /// Declare that MMCS and compression rows do not use the challenger's permutation shape, so
    /// that the shared table of that shape is not expected in the proof.
    pub fn without_shared_challenger_perm_table(self) -> (res: Self)
        ensures
            !res.shares_challenger_perm_table,
            res.challenger_perm_config == self.challenger_perm_config,
            res.extra_poseidon2_table_configs == self.extra_poseidon2_table_configs,
            res.recompose_lanes == self.recompose_lanes,
            self.well_formed() ==> res.well_formed(),
    {
        let mut res = self;
        res.shares_challenger_perm_table = false;
        res
    }

    /// Poseidon2 tables of the challenger's shape: the challenger's own table first, then the
    /// table its MMCS and compression rows share.
    ///
    /// A base-field challenger has no table of its own, so only the shared one is returned.
    pub fn poseidon2_challenger_shape_configs(&self, config: Poseidon2Config) -> (res: Vec<
        Poseidon2Config,
    >)
        ensures
            res@ == poseidon2_shapes(config, self.shares_challenger_perm_table),
    {
        let mut configs: Vec<Poseidon2Config> = Vec::new();
        if config.d() < 2 {
            configs.push(config);
            return configs;
        }
        configs.push(config.for_challenger());
        if self.shares_challenger_perm_table {
            configs.push(config);
        }
        configs
    }

    /// Poseidon1 counterpart of [`Self::poseidon2_challenger_shape_configs`].
    pub fn poseidon1_challenger_shape_configs(&self, config: Poseidon1Config) -> (res: Vec<
        Poseidon1Config,
    >)
        ensures
            res@ == poseidon1_shapes(config, self.shares_challenger_perm_table),
    {
        let mut configs: Vec<Poseidon1Config> = Vec::new();
        if config.d() < 2 {
            configs.push(config);
            return configs;
        }
        configs.push(config.for_challenger());
        if self.shares_challenger_perm_table {
            configs.push(config);
        }
        configs
    }

    /// Register a further Poseidon2 table that can appear in the proofs that are verified, such
    /// as a wide MMCS table.
    pub fn with_extra_poseidon2_table(self, config: Poseidon2Config) -> (res: Self)
        ensures
            res.extra_poseidon2_table_configs@ == self.extra_poseidon2_table_configs@.push(config),
            res.challenger_perm_config == self.challenger_perm_config,
            res.recompose_lanes == self.recompose_lanes,
            res.shares_challenger_perm_table == self.shares_challenger_perm_table,
            self.well_formed() ==> res.well_formed(),
    {
        let mut res = self;
        res.extra_poseidon2_table_configs.push(config);
        res
    }

    /// Extra Poseidon2 tables whose degree is `table_degree`, without repetition and without the
    /// challenger's config.
    pub fn extra_poseidon2_table_configs_for_degree(&self, table_degree: usize) -> (res: Vec<
        Poseidon2Config,
    >)
        ensures
            res@ == self.extra_poseidon2(table_degree),
    {
        let challenger: Option<Poseidon2Config> = match self.challenger_perm_config.as_poseidon2() {
            Some(c) => Some(*c),
            None => None,
        };
        let extra = &self.extra_poseidon2_table_configs;
        let mut configs: Vec<Poseidon2Config> = Vec::new();
        let mut i: usize = 0;
        while i < extra.len()
            invariant
                i <= extra.len(),
                configs@ == distinct_of_degree(extra@.take(i as int), table_degree, challenger),
            decreases extra.len() - i,
        {
            let config = extra[i];
            let is_challenger = match challenger {
                Some(c) => c == config,
                None => false,
            };
            assert(extra@.take(i + 1).drop_last() =~= extra@.take(i as int));
            if config.d() == table_degree && !is_challenger && !holds_config(&configs, config) {
                configs.push(config);
            }
            i += 1;
        }
        assert(extra@.take(i as int) =~= extra@);
        configs
    }

    /// The Poseidon2 tables of `table_degree`: the challenger's tables, if it is Poseidon2,
    /// followed by the extra ones.
    pub fn poseidon2_air_configs_for_degree(&self, table_degree: usize) -> (res: Vec<
        Poseidon2Config,
    >)
        ensures
            res@ == self.poseidon2_air_configs(table_degree),
    {
        let mut configs: Vec<Poseidon2Config> = match self.challenger_perm_config.as_poseidon2() {
            Some(c) => self.poseidon2_challenger_shape_configs(*c),
            None => Vec::new(),
        };
        let mut extra = self.extra_poseidon2_table_configs_for_degree(table_degree);
        configs.append(&mut extra);
        configs
    }

    /// Set the number of recompose operations packed per row; at least 1.
    pub fn with_recompose_lanes(self, lanes: usize) -> (res: Self)
        ensures
            res.recompose_lanes == (if lanes < 1 {
                1
            } else {
                lanes
            }),
            res.challenger_perm_config == self.challenger_perm_config,
            res.extra_poseidon2_table_configs == self.extra_poseidon2_table_configs,
            res.shares_challenger_perm_table == self.shares_challenger_perm_table,
            res.well_formed(),
    {
        let mut res = self;
        res.recompose_lanes = if lanes < 1 {
            1
        } else {
            lanes
        };
        res
    }

    /// Tag this back end for a fixed extension degree `D` (typically 2 or 4).
    pub fn for_extension_degree<const D: usize>(self) -> (res: FriRecursionBackendForExt<
        D,
        WIDTH,
        RATE,
        C,
    >)
        ensures
            res.0 == self,
    {
        FriRecursionBackendForExt(self)
    }

    /// A back end for the quintic extension. The quintic challenger works in the base field, so
    /// its permutation has degree 1.
    pub fn new_d5(challenger_perm_config: C) -> (res: FriRecursionBackendD5<WIDTH, RATE, C>)
        requires
            challenger_perm_config.degree() == 1,
        ensures
            res.0.challenger_perm_config == challenger_perm_config,
            res.0.extra_poseidon2_table_configs@ == Seq::<Poseidon2Config>::empty(),
            res.0.recompose_lanes == 1,
            res.0.shares_challenger_perm_table,
            res.well_formed(),
    {
        FriRecursionBackendD5(Self::new(challenger_perm_config))
    }
}

/// FRI recursion back end tagged with extension degree `D` (2 or 4).
pub struct FriRecursionBackendForExt<
    const D: usize,
    const WIDTH: usize,
    const RATE: usize,
    C: ChallengerPermConfig,
>(
    /// The untagged back end.
    pub FriRecursionBackend<WIDTH, RATE, C>,
);

/// FRI recursion back end for the quintic extension.
pub struct FriRecursionBackendD5<const WIDTH: usize, const RATE: usize, C: ChallengerPermConfig>(
    /// The untagged back end.
    pub FriRecursionBackend<WIDTH, RATE, C>,
);

impl<
    const WIDTH: usize,
    const RATE: usize,
    C: ChallengerPermConfig + Clone,
> Clone for FriRecursionBackend<WIDTH, RATE, C> {
    fn clone(&self) -> (res: Self)
        ensures
            cloned(self.challenger_perm_config, res.challenger_perm_config),
            res.extra_poseidon2_table_configs@ == self.extra_poseidon2_table_configs@,
            res.recompose_lanes == self.recompose_lanes,
            res.shares_challenger_perm_table == self.shares_challenger_perm_table,
    {
        let extra_poseidon2_table_configs = self.extra_poseidon2_table_configs.clone();
        assert(extra_poseidon2_table_configs@ =~= self.extra_poseidon2_table_configs@);
        FriRecursionBackend {
            challenger_perm_config: self.challenger_perm_config.clone(),
            extra_poseidon2_table_configs,
            recompose_lanes: self.recompose_lanes,
            shares_challenger_perm_table: self.shares_challenger_perm_table,
        }
    }
}

impl<
    const D: usize,
    const WIDTH: usize,
    const RATE: usize,
    C: ChallengerPermConfig + Clone,
> Clone for FriRecursionBackendForExt<D, WIDTH, RATE, C> {
    fn clone(&self) -> (res: Self)
        ensures
            cloned(self.0, res.0),
    {
        FriRecursionBackendForExt(self.0.clone())
    }
}

impl<
    const WIDTH: usize,
    const RATE: usize,
    C: ChallengerPermConfig + Clone,
> Clone for FriRecursionBackendD5<WIDTH, RATE, C> {
    fn clone(&self) -> (res: Self)
        ensures
            cloned(self.0, res.0),
    {
        FriRecursionBackendD5(self.0.clone())
    }
}

impl<const WIDTH: usize, const RATE: usize, C: ChallengerPermConfig> FriRecursionBackendD5<
    WIDTH,
    RATE,
    C,
> {
    /// The challenger's permutation works in the base field.
    pub open spec fn well_formed(self) -> bool {
        self.0.well_formed() && self.0.challenger_perm_config.degree() == 1
    }

    /// Register a further base-field Poseidon2 table that can appear in proofs verified by
    /// quintic circuits.
    pub fn with_extra_poseidon2_table(self, config: Poseidon2Config) -> (res: Self)
        ensures
            res.0.extra_poseidon2_table_configs@ == self.0.extra_poseidon2_table_configs@.push(
                config,
            ),
            res.0.challenger_perm_config == self.0.challenger_perm_config,
            res.0.recompose_lanes == self.0.recompose_lanes,
            res.0.shares_challenger_perm_table == self.0.shares_challenger_perm_table,
            self.well_formed() ==> res.well_formed(),
    {
        FriRecursionBackendD5(self.0.with_extra_poseidon2_table(config))
    }

    /// See [`FriRecursionBackend::without_shared_challenger_perm_table`].
    pub fn without_shared_challenger_perm_table(self) -> (res: Self)
        ensures
            !res.0.shares_challenger_perm_table,
            res.0.challenger_perm_config == self.0.challenger_perm_config,
            res.0.extra_poseidon2_table_configs == self.0.extra_poseidon2_table_configs,
            res.0.recompose_lanes == self.0.recompose_lanes,
            self.well_formed() ==> res.well_formed(),
    {
        FriRecursionBackendD5(self.0.without_shared_challenger_perm_table())
    }
}

/// Prover of one plug-in table, or of the tables that one configuration stands for.
#[derive(Clone, Copy, Debug, PartialEq, Eq, Structural)]
pub enum TableProver {
    /// Poseidon1 table over the extension of degree `degree`.
    Poseidon1 {
        /// Extension degree.
        degree: usize,
        /// The table.
        config: Poseidon1Config,
        /// Constraint layout.
        profile: ConstraintProfile,
    },
    /// Poseidon2 table over the extension of degree `degree`.
    Poseidon2 {
        /// Extension degree.
        degree: usize,
        /// The table.
        config: Poseidon2Config,
        /// Constraint layout.
        profile: ConstraintProfile,
    },
    /// The Poseidon1 tables of a configuration in quintic circuits.
    Poseidon1Quintic {
        /// The configuration.
        config: Poseidon1Config,
    },
    /// The Poseidon2 tables of a configuration in quintic circuits.
    Poseidon2Quintic {
        /// The configuration.
        config: Poseidon2Config,
    },
    /// Recompose table.
    Recompose(RecomposeTable),
}

/// The table that packs extension limbs from coefficients.
#[derive(Clone, Copy, Debug, PartialEq, Eq, Structural)]
pub struct RecomposeTable {
    /// Extension degree.
    pub degree: usize,
    /// Operations per row.
    pub lanes: usize,
    /// Whether each coefficient is published on the bus alongside the packed limb.
    pub publishes_coefficients: bool,
}

/// Preprocessing plug-in of a back end.
#[derive(Clone, Copy, Debug, PartialEq, Eq, Structural)]
pub enum Preprocessor {
    /// Poseidon1 operations.
    Poseidon1,
    /// Poseidon2 operations.
    Poseidon2,
    /// Recompose operations.
    Recompose {
        /// Whether each coefficient is published on the bus alongside the packed limb.
        publishes_coefficients: bool,
    },
}

/// Builders of the permutation tables.
#[derive(Debug)]
pub enum PermutationAirBuilders {
    /// One table per Poseidon1 configuration, over the extension of degree `degree`.
    Poseidon1 {
        /// Extension degree.
        degree: usize,
        /// The tables, in order.
        configs: Vec<Poseidon1Config>,
    },
    /// One table per Poseidon2 configuration, over the extension of degree `degree`.
    Poseidon2 {
        /// Extension degree.
        degree: usize,
        /// The tables, in order.
        configs: Vec<Poseidon2Config>,
    },
    /// The Poseidon1 tables of quintic circuits.
    Poseidon1Quintic,
    /// The Poseidon2 tables of quintic circuits.
    Poseidon2Quintic,
}

impl PermutationAirBuilders {
    /// Whether these build the given Poseidon1 tables.
    pub open spec fn builds_poseidon1(self, of_degree: usize, of: Seq<Poseidon1Config>) -> bool {
        self matches PermutationAirBuilders::Poseidon1 { degree, configs } && degree == of_degree
            && configs@ == of
    }

    /// Whether these build the given Poseidon2 tables.
    pub open spec fn builds_poseidon2(self, of_degree: usize, of: Seq<Poseidon2Config>) -> bool {
        self matches PermutationAirBuilders::Poseidon2 { degree, configs } && degree == of_degree
            && configs@ == of
    }
}

/// Builders of all plug-in tables: those of the permutation first, then those of extra tables that
/// are not among them, then the recompose table.
#[derive(Debug)]
pub struct TableAirBuilders {
    /// Permutation tables.
    pub permutation: PermutationAirBuilders,
    /// Extra Poseidon2 tables beside a Poseidon1 permutation, one per configuration, over the
    /// extension of the recompose table.
    pub extra: Vec<Poseidon2Config>,
    /// Recompose table.
    pub recompose: RecomposeTable,
}

/// Provers of Poseidon1 tables, in order.
pub open spec fn poseidon1_provers(degree: usize, configs: Seq<Poseidon1Config>) -> Seq<
    TableProver,
> {
    configs.map_values(
        |config: Poseidon1Config|
            TableProver::Poseidon1 { degree, config, profile: ConstraintProfile::Standard },
    )
}

/// Provers of Poseidon2 tables, in order.
pub open spec fn poseidon2_provers(degree: usize, configs: Seq<Poseidon2Config>) -> Seq<
    TableProver,
> {
    configs.map_values(
        |config: Poseidon2Config|
            TableProver::Poseidon2 { degree, config, profile: ConstraintProfile::Standard },
    )
}

impl<const WIDTH: usize, const RATE: usize, C: ChallengerPermConfig> FriRecursionBackend<
    WIDTH,
    RATE,
    C,
> {
    /// The recompose table over the extension of degree `degree`. Every limb goes through the
    /// table that publishes coefficients; the plain one never has a row and is not expected.
    pub open spec fn recompose_table(self, degree: usize) -> RecomposeTable {
        RecomposeTable { degree, lanes: self.recompose_lanes, publishes_coefficients: true }
    }

    /// Provers of the challenger's tables over the extension of degree `degree`.
    pub open spec fn challenger_provers(self, degree: usize) -> Seq<TableProver> {
        match (self.challenger_perm_config.poseidon1(), self.challenger_perm_config.poseidon2()) {
            (Some(c), _) => poseidon1_provers(
                degree,
                poseidon1_shapes(c, self.shares_challenger_perm_table),
            ),
            (_, Some(c)) => poseidon2_provers(
                degree,
                poseidon2_shapes(c, self.shares_challenger_perm_table),
            ),
            _ => Seq::empty(),
        }
    }

    /// Provers of all plug-in tables over the extension of degree `degree`, in order.
    pub open spec fn provers(self, degree: usize) -> Seq<TableProver> {
        self.challenger_provers(degree) + poseidon2_provers(degree, self.extra_poseidon2(degree))
            + seq![TableProver::Recompose(self.recompose_table(degree))]
    }

    /// Provers of all plug-in tables of quintic circuits, in order.
    pub open spec fn quintic_provers(self) -> Seq<TableProver> {
        let challenger = match (
            self.challenger_perm_config.poseidon1(),
            self.challenger_perm_config.poseidon2(),
        ) {
            (Some(config), _) => seq![TableProver::Poseidon1Quintic { config }],
            (_, Some(config)) => seq![TableProver::Poseidon2Quintic { config }],
            _ => Seq::empty(),
        };
        challenger + self.extra_poseidon2(1).map_values(
            |config: Poseidon2Config| TableProver::Poseidon2Quintic { config },
        ) + seq![TableProver::Recompose(self.recompose_table(5))]
    }

    /// The preprocessing plug-ins: that of the challenger's permutation, then recompose.
    pub open spec fn preprocessors(self) -> Seq<Preprocessor> {
        seq![
            if self.challenger_perm_config.poseidon1() is Some {
                Preprocessor::Poseidon1
            } else {
                Preprocessor::Poseidon2
            },
            Preprocessor::Recompose { publishes_coefficients: true },
        ]
    }

    /// The extra Poseidon2 tables of a degree that the permutation's builders leave to builders of
    /// their own: all of them beside a Poseidon1 permutation, and none otherwise.
    pub open spec fn separate_extra(self, degree: usize) -> Seq<Poseidon2Config> {
        if self.challenger_perm_config.poseidon1() is Some {
            self.extra_poseidon2(degree)
        } else {
            Seq::empty()
        }
    }

    /// Whether `builders` are those over the extension of degree `degree`.
    pub open spec fn are_air_builders(self, degree: usize, builders: TableAirBuilders) -> bool {
        &&& match self.challenger_perm_config.poseidon1() {
            Some(c) => builders.permutation.builds_poseidon1(
                degree,
                poseidon1_shapes(c, self.shares_challenger_perm_table),
            ),
            None => builders.permutation.builds_poseidon2(
                degree,
                self.poseidon2_air_configs(degree),
            ),
        }
        &&& builders.extra@ == self.separate_extra(degree)
        &&& builders.recompose == self.recompose_table(degree)
    }

    /// Whether `builders` are those of quintic circuits.
    pub open spec fn are_quintic_air_builders(self, builders: TableAirBuilders) -> bool {
        &&& if self.challenger_perm_config.poseidon1() is Some {
            builders.permutation is Poseidon1Quintic
        } else if self.extra_poseidon2(1).len() == 0 {
            builders.permutation is Poseidon2Quintic
        } else {
            builders.permutation.builds_poseidon2(5, self.poseidon2_air_configs(1))
        }
        &&& builders.extra@ == self.separate_extra(1)
        &&& builders.recompose == self.recompose_table(5)
    }

    fn recompose_for_degree(&self, degree: usize) -> (res: RecomposeTable)
        ensures
            res == self.recompose_table(degree),
    {
        RecomposeTable { degree, lanes: self.recompose_lanes, publishes_coefficients: true }
    }

    fn provers_for_degree(&self, degree: usize) -> (res: Vec<TableProver>)
        ensures
            res@ == self.provers(degree),
    {
        let mut provers: Vec<TableProver> = Vec::new();
        match (
            self.challenger_perm_config.as_poseidon1(),
            self.challenger_perm_config.as_poseidon2(),
        ) {
            (Some(c), _) => {
                let configs = self.poseidon1_challenger_shape_configs(*c);
                push_poseidon1_provers(&mut provers, degree, &configs);
            },
            (_, Some(c)) => {
                let configs = self.poseidon2_challenger_shape_configs(*c);
                push_poseidon2_provers(&mut provers, degree, &configs);
            },
            _ => {},
        }
        assert(provers@ =~= self.challenger_provers(degree));
        let extra = self.extra_poseidon2_table_configs_for_degree(degree);
        push_poseidon2_provers(&mut provers, degree, &extra);
        provers.push(TableProver::Recompose(self.recompose_for_degree(degree)));
        assert(provers@ =~= self.provers(degree));
        provers
    }

    fn permutation_preprocessors(&self) -> (res: Vec<Preprocessor>)
        ensures
            res@ == self.preprocessors(),
    {
        let permutation = if self.challenger_perm_config.as_poseidon1().is_some() {
            Preprocessor::Poseidon1
        } else {
            Preprocessor::Poseidon2
        };
        let mut res: Vec<Preprocessor> = Vec::new();
        res.push(permutation);
        res.push(Preprocessor::Recompose { publishes_coefficients: true });
        assert(res@ =~= self.preprocessors());
        res
    }

    fn separate_extra_for_degree(&self, degree: usize) -> (res: Vec<Poseidon2Config>)
        ensures
            res@ == self.separate_extra(degree),
    {
        if self.challenger_perm_config.as_poseidon1().is_some() {
            self.extra_poseidon2_table_configs_for_degree(degree)
        } else {
            Vec::new()
        }
    }

    fn air_builders_for_degree(&self, degree: usize) -> (res: TableAirBuilders)
        ensures
            self.are_air_builders(degree, res),
    {
        let permutation = match self.challenger_perm_config.as_poseidon1() {
            Some(c) => PermutationAirBuilders::Poseidon1 {
                degree,
                configs: self.poseidon1_challenger_shape_configs(*c),
            },
            None => PermutationAirBuilders::Poseidon2 {
                degree,
                configs: self.poseidon2_air_configs_for_degree(degree),
            },
        };
        TableAirBuilders {
            permutation,
            extra: self.separate_extra_for_degree(degree),
            recompose: self.recompose_for_degree(degree),
        }
    }
}

fn push_poseidon1_provers(
    provers: &mut Vec<TableProver>,
    degree: usize,
    configs: &Vec<Poseidon1Config>,
)
    ensures
        final(provers)@ == old(provers)@ + poseidon1_provers(degree, configs@),
{
    let ghost start = provers@;
    let mut i: usize = 0;
    while i < configs.len()
        invariant
            i <= configs.len(),
            start == old(provers)@,
            provers@ == start + poseidon1_provers(degree, configs@.take(i as int)),
        decreases configs.len() - i,
    {
        provers.push(
            TableProver::Poseidon1 {
                degree,
                config: configs[i],
                profile: ConstraintProfile::Standard,
            },
        );
        i += 1;
        assert(provers@ =~= start + poseidon1_provers(degree, configs@.take(i as int)));
    }
    assert(configs@.take(i as int) =~= configs@);
}

fn push_poseidon2_provers(
    provers: &mut Vec<TableProver>,
    degree: usize,
    configs: &Vec<Poseidon2Config>,
)
    ensures
        final(provers)@ == old(provers)@ + poseidon2_provers(degree, configs@),
{
    let ghost start = provers@;
    let mut i: usize = 0;
    while i < configs.len()
        invariant
            i <= configs.len(),
            start == old(provers)@,
            provers@ == start + poseidon2_provers(degree, configs@.take(i as int)),
        decreases configs.len() - i,
    {
        provers.push(
            TableProver::Poseidon2 {
                degree,
                config: configs[i],
                profile: ConstraintProfile::Standard,
            },
        );
        i += 1;
        assert(provers@ =~= start + poseidon2_provers(degree, configs@.take(i as int)));
    }
    assert(configs@.take(i as int) =~= configs@);
}

impl<const WIDTH: usize, const RATE: usize, C: ChallengerPermConfig> FriRecursionBackendForExt<
    2,
    WIDTH,
    RATE,
    C,
> {
    /// The preprocessing plug-ins.
    pub fn non_primitive_preprocessors(&self) -> (res: Vec<Preprocessor>)
        ensures
            res@ == self.0.preprocessors(),
    {
        self.0.permutation_preprocessors()
    }

    /// Provers of the plug-in tables of a proof over the extension of degree `ext_degree`; none
    /// unless that degree is 2.
    pub fn non_primitive_provers(&self, ext_degree: usize) -> (res: Vec<TableProver>)
        ensures
            res@ == (if ext_degree == 2 {
                self.0.provers(2)
            } else {
                Seq::empty()
            }),
    {
        if ext_degree == 2 {
            self.0.provers_for_degree(2)
        } else {
            Vec::new()
        }
    }

    /// Builders of the plug-in tables.
    pub fn non_primitive_air_builders(&self) -> (res: TableAirBuilders)
        ensures
            self.0.are_air_builders(2, res),
    {
        self.0.air_builders_for_degree(2)
    }
}

impl<const WIDTH: usize, const RATE: usize, C: ChallengerPermConfig> FriRecursionBackendForExt<
    4,
    WIDTH,
    RATE,
    C,
> {
    /// The preprocessing plug-ins.
    pub fn non_primitive_preprocessors(&self) -> (res: Vec<Preprocessor>)
        ensures
            res@ == self.0.preprocessors(),
    {
        self.0.permutation_preprocessors()
    }

    /// Provers of the plug-in tables of a proof over the extension of degree `ext_degree`; none
    /// unless that degree is 4.
    pub fn non_primitive_provers(&self, ext_degree: usize) -> (res: Vec<TableProver>)
        ensures
            res@ == (if ext_degree == 4 {
                self.0.provers(4)
            } else {
                Seq::empty()
            }),
    {
        if ext_degree == 4 {
            self.0.provers_for_degree(4)
        } else {
            Vec::new()
        }
    }

    /// Builders of the plug-in tables.
    pub fn non_primitive_air_builders(&self) -> (res: TableAirBuilders)
        ensures
            self.0.are_air_builders(4, res),
    {
        self.0.air_builders_for_degree(4)
    }
}

impl<const WIDTH: usize, const RATE: usize, C: ChallengerPermConfig> FriRecursionBackendD5<
    WIDTH,
    RATE,
    C,
> {
    /// The preprocessing plug-ins.
    pub fn non_primitive_preprocessors(&self) -> (res: Vec<Preprocessor>)
        ensures
            res@ == self.0.preprocessors(),
    {
        self.0.permutation_preprocessors()
    }

    /// Provers of the plug-in tables of a proof over the extension of degree `ext_degree`; none
    /// unless that degree is 5.
    pub fn non_primitive_provers(&self, ext_degree: usize) -> (res: Vec<TableProver>)
        ensures
            res@ == (if ext_degree == 5 {
                self.0.quintic_provers()
            } else {
                Seq::empty()
            }),
    {
        let mut provers: Vec<TableProver> = Vec::new();
        if ext_degree != 5 {
            return provers;
        }
        match (
            self.0.challenger_perm_config.as_poseidon1(),
            self.0.challenger_perm_config.as_poseidon2(),
        ) {
            (Some(c), _) => {
                provers.push(TableProver::Poseidon1Quintic { config: *c });
            },
            (_, Some(c)) => {
                provers.push(TableProver::Poseidon2Quintic { config: *c });
            },
            _ => {},
        }
        let ghost challenger = provers@;
        let extra = self.0.extra_poseidon2_table_configs_for_degree(1);
        let ghost prover = |config: Poseidon2Config| TableProver::Poseidon2Quintic { config };
        let mut i: usize = 0;
        while i < extra.len()
            invariant
                i <= extra.len(),
                prover == (|config: Poseidon2Config| TableProver::Poseidon2Quintic { config }),
                provers@ == challenger + extra@.take(i as int).map_values(prover),
            decreases extra.len() - i,
        {
            provers.push(TableProver::Poseidon2Quintic { config: extra[i] });
            i += 1;
            assert(provers@ =~= challenger + extra@.take(i as int).map_values(prover));
        }
        assert(extra@.take(i as int) =~= extra@);
        provers.push(TableProver::Recompose(self.0.recompose_for_degree(5)));
        assert(provers@ =~= self.0.quintic_provers());
        provers
    }

    /// Builders of the plug-in tables.
    pub fn non_primitive_air_builders(&self) -> (res: TableAirBuilders)
        ensures
            self.0.are_quintic_air_builders(res),
    {
        let permutation = if self.0.challenger_perm_config.as_poseidon1().is_some() {
            PermutationAirBuilders::Poseidon1Quintic
        } else if self.0.extra_poseidon2_table_configs_for_degree(1).len() == 0 {
            PermutationAirBuilders::Poseidon2Quintic
        } else {
            PermutationAirBuilders::Poseidon2 {
                degree: 5,
                configs: self.0.poseidon2_air_configs_for_degree(1),
            }
        };
        TableAirBuilders {
            permutation,
            extra: self.0.separate_extra_for_degree(1),
            recompose: self.0.recompose_for_degree(5),
        }
    }
}

} // verus!
