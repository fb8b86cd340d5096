//! Prover-state configuration: how circuit tables are loaded and persisted,
//! and the size range of each table.
//!
//! The load strategy and the persistence are recognised by a token anywhere
//! in the value of their variable, ignoring ASCII case. Each table has a
//! variable of its own that may override its default size range, written as
//! `start..end`. The defaults themselves belong to the prover state and are
//! not known here.

use vstd::prelude::*;

use crate::env::{EnvValue, EnvValueView, Environment};
use crate::error::{
    defaulted, notice_seq, problem_with, push_notice, ConfigError, ConfigField, ConfigNotice,
    ConfigProblem, NoticeKind,
};
use crate::text::{
    chars_of, contains_ignore_case, contains_token, lemma_unsigned_chars, parse_unsigned,
    parse_unsigned_in,
};

verus! {

/// The variable that selects the table load strategy.
pub const PSM_CIRCUIT_TABLE_LOAD_STRAT_ENVKEY: &'static str = "PSM_TABLE_LOAD_STRAT";

/// The variable that selects the circuit persistence.
pub const PSM_CIRCUIT_PERSISTENCE_ENVKEY: &'static str = "PSM_CIRCUIT_PERSISTENCE";

/// The token that selects [`TableLoadStrategy::OnDemand`].
pub const ON_DEMAND_TOKEN: &'static str = "ON_DEMAND";

/// The token that selects [`TableLoadStrategy::Monolithic`].
pub const MONOLITHIC_TOKEN: &'static str = "MONOLITHIC";

/// The token that selects [`CircuitPersistence::NotPersisted`].
pub const NONE_TOKEN: &'static str = "NONE";

/// The token that selects [`CircuitPersistence::Disk`].
pub const DISK_TOKEN: &'static str = "DISK";

/// The number of circuit tables.
pub const NUM_TABLES: usize = 7;

/// How the tables of a persisted circuit are brought into memory.
#[derive(Clone, Copy, Debug, PartialEq, Eq, Structural)]
pub enum TableLoadStrategy {
    /// Each table when it is first needed.
    OnDemand,
    /// All tables at once.
    Monolithic,
}

impl Default for TableLoadStrategy {
    fn default() -> (strategy: Self)
        ensures
            strategy == TableLoadStrategy::OnDemand,
    {
        TableLoadStrategy::OnDemand
    }
}

/// Whether processed circuits are kept, and how they are loaded again.
#[derive(Clone, Copy, Debug, PartialEq, Eq, Structural)]
pub enum CircuitPersistence {
    /// Circuits are not kept.
    NotPersisted,
    /// Circuits are kept on disk and loaded by the given strategy.
    Disk(TableLoadStrategy),
}

impl Default for CircuitPersistence {
    fn default() -> (persistence: Self)
        ensures
            persistence == CircuitPersistence::Disk(TableLoadStrategy::OnDemand),
    {
        CircuitPersistence::Disk(TableLoadStrategy::OnDemand)
    }
}

/// A circuit table.
#[derive(Clone, Copy, Debug, PartialEq, Eq, Structural)]
pub enum Circuit {
    Arithmetic,
    BytePacking,
    Cpu,
    Keccak,
    KeccakSponge,
    Logic,
    Memory,
}

/// The range of sizes of a circuit table, from `start` up to `end`,
/// `end` itself left out.
#[derive(Clone, Copy, Debug, PartialEq, Eq, Structural)]
pub struct CircuitSize {
    pub start: usize,
    pub end: usize,
}

impl Circuit {
    /// The place of the table among the tables.
    pub open spec fn spec_index(self) -> int {
        match self {
            Circuit::Arithmetic => 0,
            Circuit::BytePacking => 1,
            Circuit::Cpu => 2,
            Circuit::Keccak => 3,
            Circuit::KeccakSponge => 4,
            Circuit::Logic => 5,
            Circuit::Memory => 6,
        }
    }

    /// The table at place `index`.
    pub open spec fn spec_from_index(index: int) -> Circuit {
        if index == 0 {
            Circuit::Arithmetic
        } else if index == 1 {
            Circuit::BytePacking
        } else if index == 2 {
            Circuit::Cpu
        } else if index == 3 {
            Circuit::Keccak
        } else if index == 4 {
            Circuit::KeccakSponge
        } else if index == 5 {
            Circuit::Logic
        } else {
            Circuit::Memory
        }
    }

    /// The variable that may override the size range of the table.
    pub open spec fn spec_env_key(self) -> Seq<char> {
        match self {
            Circuit::Arithmetic => "ARITHMETIC_CIRCUIT_SIZE"@,
            Circuit::BytePacking => "BYTE_PACKING_CIRCUIT_SIZE"@,
            Circuit::Cpu => "CPU_CIRCUIT_SIZE"@,
            Circuit::Keccak => "KECCAK_CIRCUIT_SIZE"@,
            Circuit::KeccakSponge => "KECCAK_SPONGE_CIRCUIT_SIZE"@,
            Circuit::Logic => "LOGIC_CIRCUIT_SIZE"@,
            Circuit::Memory => "MEMORY_CIRCUIT_SIZE"@,
        }
    }

    /// The place of the table among the tables.
    pub fn index(&self) -> (index: usize)
        ensures
            index == self.spec_index(),
            index < NUM_TABLES,
    {
        match self {
            Circuit::Arithmetic => 0,
            Circuit::BytePacking => 1,
            Circuit::Cpu => 2,
            Circuit::Keccak => 3,
            Circuit::KeccakSponge => 4,
            Circuit::Logic => 5,
            Circuit::Memory => 6,
        }
    }

    /// The table at place `index`, if there is one.
    pub fn from_index(index: usize) -> (circuit: Option<Circuit>)
        ensures
            circuit == if index < NUM_TABLES {
                Some(Circuit::spec_from_index(index as int))
            } else {
                None
            },
    {
        if index == 0 {
            Some(Circuit::Arithmetic)
        } else if index == 1 {
            Some(Circuit::BytePacking)
        } else if index == 2 {
            Some(Circuit::Cpu)
        } else if index == 3 {
            Some(Circuit::Keccak)
        } else if index == 4 {
            Some(Circuit::KeccakSponge)
        } else if index == 5 {
            Some(Circuit::Logic)
        } else if index == 6 {
            Some(Circuit::Memory)
        } else {
            None
        }
    }

    /// The variable that may override the size range of the table.
    pub fn as_env_key(&self) -> (key: &'static str)
        ensures
            key@ == self.spec_env_key(),
    {
        match self {
            Circuit::Arithmetic => "ARITHMETIC_CIRCUIT_SIZE",
            Circuit::BytePacking => "BYTE_PACKING_CIRCUIT_SIZE",
            Circuit::Cpu => "CPU_CIRCUIT_SIZE",
            Circuit::Keccak => "KECCAK_CIRCUIT_SIZE",
            Circuit::KeccakSponge => "KECCAK_SPONGE_CIRCUIT_SIZE",
            Circuit::Logic => "LOGIC_CIRCUIT_SIZE",
            Circuit::Memory => "MEMORY_CIRCUIT_SIZE",
        }
    }
}

/// Going from a table to its place and back gives the table, and the other
/// way round.
pub proof fn lemma_circuit_index(circuit: Circuit, index: int)
    ensures
        0 <= circuit.spec_index() < NUM_TABLES,
        Circuit::spec_from_index(circuit.spec_index()) == circuit,
        0 <= index < NUM_TABLES ==> Circuit::spec_from_index(index).spec_index() == index,
{
}

/// The two dots of a size range stand at offset `at` of `s`.
pub open spec fn separator_at(s: Seq<char>, at: int) -> bool {
    0 <= at && at + 2 <= s.len() && s[at] == '.' && s[at + 1] == '.'
}

/// `s` is a size range whose two dots stand at offset `at`: an unsigned
/// number before them and one after them.
pub open spec fn splits_at(s: Seq<char>, at: int) -> bool {
    &&& separator_at(s, at)
    &&& parse_unsigned(s.subrange(0, at), usize::MAX as nat).is_some()
    &&& parse_unsigned(s.subrange(at + 2, s.len() as int), usize::MAX as nat).is_some()
}

/// The size range that is split at offset `at` of `s`.
pub open spec fn size_split_at(s: Seq<char>, at: int) -> CircuitSize {
    CircuitSize {
        start: parse_unsigned(s.subrange(0, at), usize::MAX as nat).unwrap() as usize,
        end: parse_unsigned(
            s.subrange(at + 2, s.len() as int),
            usize::MAX as nat,
        ).unwrap() as usize,
    }
}

/// The size range that `s` writes, if it writes one: `start..end`, each an
/// unsigned decimal that fits the machine word.
pub open spec fn spec_parse_circuit_size(s: Seq<char>) -> Option<CircuitSize> {
    if exists|at: int| splits_at(s, at) {
        Some(size_split_at(s, choose|at: int| splits_at(s, at)))
    } else {
        None
    }
}

/// A size range can only be split at the first dot of the text.
pub proof fn lemma_split_at_first_dot(s: Seq<char>, dot: int, at: int)
    requires
        0 <= dot <= s.len(),
        forall|k: int| 0 <= k < dot ==> s[k] != '.',
        dot < s.len() ==> s[dot] == '.',
        splits_at(s, at),
    ensures
        at == dot,
        dot < s.len(),
{
    if dot < at {
        lemma_unsigned_chars(s.subrange(0, at), usize::MAX as nat, dot);
    }
}

/// Two unsigned numbers with two dots between them write the size range
/// from the first to the second.
pub proof fn lemma_size_range_of_parts(start: Seq<char>, end: Seq<char>)
    requires
        parse_unsigned(start, usize::MAX as nat).is_some(),
        parse_unsigned(end, usize::MAX as nat).is_some(),
    ensures
        spec_parse_circuit_size(start + seq!['.', '.'] + end) == Some(
            CircuitSize {
                start: parse_unsigned(start, usize::MAX as nat).unwrap() as usize,
                end: parse_unsigned(end, usize::MAX as nat).unwrap() as usize,
            },
        ),
{
    let text = start + seq!['.', '.'] + end;
    let dot = start.len() as int;
    assert(text.subrange(0, dot) =~= start);
    assert(text.subrange(dot + 2, text.len() as int) =~= end);
    assert(splits_at(text, dot));
    assert forall|k: int| 0 <= k < dot implies text[k] != '.' by {
        lemma_unsigned_chars(start, usize::MAX as nat, k);
    }
    lemma_split_at_first_dot(text, dot, choose|at: int| splits_at(text, at));
}

/// Parses a size range, written `start..end`.
pub fn parse_circuit_size(text: &str) -> (size: Option<CircuitSize>)
    ensures
        size == spec_parse_circuit_size(text@),
{
    let chars = chars_of(text);
    let mut dot: usize = 0;
    while dot < chars.len() && chars[dot] != '.'
        invariant
            dot <= chars.len(),
            forall|k: int| 0 <= k < dot ==> chars@[k] != '.',
        decreases chars.len() - dot,
    {
        dot += 1;
    }
    proof {
        if exists|at: int| splits_at(chars@, at) {
            let at = choose|at: int| splits_at(chars@, at);
            lemma_split_at_first_dot(chars@, dot as int, at);
        }
    }
    if dot >= chars.len() || chars.len() - dot < 2 || chars[dot + 1] != '.' {
        return None;
    }
    let start = parse_unsigned_in(&chars, 0, dot);
    let end = parse_unsigned_in(&chars, dot + 2, chars.len());
    match (start, end) {
        (Some(start), Some(end)) => {
            assert(splits_at(chars@, dot as int));
            Some(CircuitSize { start, end })
        },
        _ => None,
    }
}

/// The size ranges that override the defaults of the circuit tables, by the
/// place of the table: `None` for a table that keeps its default.
#[derive(Debug, PartialEq, Eq)]
pub struct CircuitSizeOverrides {
    sizes: [Option<CircuitSize>; NUM_TABLES],
}

impl View for CircuitSizeOverrides {
    type V = Seq<Option<CircuitSize>>;

    closed spec fn view(&self) -> Seq<Option<CircuitSize>> {
        self.sizes@
    }
}

impl CircuitSizeOverrides {
    /// The size range that overrides the default of `circuit`, if one does.
    pub open spec fn spec_size(&self, circuit: Circuit) -> Option<CircuitSize> {
        self@[circuit.spec_index()]
    }

    /// There is one entry for each table.
    pub proof fn lemma_len(&self)
        ensures
            self@.len() == NUM_TABLES,
    {
    }

    /// The size range that overrides the default of `circuit`, if one does.
    pub fn size(&self, circuit: Circuit) -> (size: Option<CircuitSize>)
        ensures
            size == self.spec_size(circuit),
    {
        self.sizes[circuit.index()]
    }

    /// Overrides the default of `circuit` by the size range `size`.
    pub fn set_circuit_size(&mut self, circuit: Circuit, size: CircuitSize)
        ensures
            final(self)@ == old(self)@.update(circuit.spec_index(), Some(size)),
    {
        self.sizes[circuit.index()] = Some(size);
    }
}

impl Default for CircuitSizeOverrides {
    /// No table is overridden.
    fn default() -> (overrides: Self)
        ensures
            overrides@ == no_overrides(),
    {
        CircuitSizeOverrides { sizes: [None, None, None, None, None, None, None] }
    }
}

/// The overrides under which every table keeps its default.
pub open spec fn no_overrides() -> Seq<Option<CircuitSize>> {
    Seq::new(NUM_TABLES as nat, |index: int| None)
}

/// The prover-state configuration. The default size range of a table is
/// the business of the prover state itself; the configuration holds only
/// what overrides it.
#[derive(Debug, PartialEq, Eq)]
pub struct ProverStateConfig {
    pub size_overrides: CircuitSizeOverrides,
    pub persistence: CircuitPersistence,
}

/// The mathematical content of a [`ProverStateConfig`].
pub struct ProverStateConfigView {
    /// The override of each table, by the place of the table.
    pub size_overrides: Seq<Option<CircuitSize>>,
    pub persistence: CircuitPersistence,
}

impl View for ProverStateConfig {
    type V = ProverStateConfigView;

    open spec fn view(&self) -> ProverStateConfigView {
        ProverStateConfigView {
            size_overrides: self.size_overrides@,
            persistence: self.persistence,
        }
    }
}

/// The load strategy that a value of its variable selects, if it is set.
pub open spec fn spec_table_load_strategy(value: EnvValueView) -> Result<
    Option<TableLoadStrategy>,
    ConfigError,
> {
    match value {
        EnvValueView::Present(text) => if contains_ignore_case(text, ON_DEMAND_TOKEN@) {
            Ok(Some(TableLoadStrategy::OnDemand))
        } else if contains_ignore_case(text, MONOLITHIC_TOKEN@) {
            Ok(Some(TableLoadStrategy::Monolithic))
        } else {
            Err(problem_with(ConfigField::TableLoadStrategy, ConfigProblem::Unrecognized))
        },
        EnvValueView::NotPresent => Ok(None),
        EnvValueView::NotUnicode => Err(
            problem_with(ConfigField::TableLoadStrategy, ConfigProblem::NotUnicode),
        ),
    }
}

/// The persistence that a value of its variable selects, given the load
/// strategy that was resolved before it.
pub open spec fn spec_persistence(
    value: EnvValueView,
    strategy: Option<TableLoadStrategy>,
) -> Result<(CircuitPersistence, Option<ConfigNotice>), ConfigError> {
    match value {
        EnvValueView::Present(text) => if contains_ignore_case(text, NONE_TOKEN@) {
            Ok((CircuitPersistence::NotPersisted, None))
        } else if contains_ignore_case(text, DISK_TOKEN@) {
            match strategy {
                Some(strategy) => Ok((CircuitPersistence::Disk(strategy), None)),
                None => Ok(
                    (
                        CircuitPersistence::Disk(TableLoadStrategy::OnDemand),
                        Some(defaulted(ConfigField::TableLoadStrategy)),
                    ),
                ),
            }
        } else {
            Err(problem_with(ConfigField::Persistence, ConfigProblem::Unrecognized))
        },
        EnvValueView::NotPresent => Ok(
            (
                CircuitPersistence::Disk(TableLoadStrategy::OnDemand),
                Some(defaulted(ConfigField::Persistence)),
            ),
        ),
        EnvValueView::NotUnicode => Err(
            problem_with(ConfigField::Persistence, ConfigProblem::NotUnicode),
        ),
    }
}

/// The override of the size range of `circuit` that a value of its variable
/// gives: the size range that it writes; none, with a notice, where the
/// variable is not set and the table keeps its default.
pub open spec fn spec_circuit_size(circuit: Circuit, value: EnvValueView) -> Result<
    (Option<CircuitSize>, Option<ConfigNotice>),
    ConfigError,
> {
    match value {
        EnvValueView::Present(text) => match spec_parse_circuit_size(text) {
            Some(size) => Ok((Some(size), None)),
            None => Err(problem_with(ConfigField::CircuitSize(circuit), ConfigProblem::Unparsable)),
        },
        EnvValueView::NotPresent => Ok(
            (None, Some(defaulted(ConfigField::CircuitSize(circuit)))),
        ),
        EnvValueView::NotUnicode => Err(
            problem_with(ConfigField::CircuitSize(circuit), ConfigProblem::NotUnicode),
        ),
    }
}

/// The overrides of the first `count` tables that `env` gives, with the
/// notices in the order of the tables, or the error of the first table whose
/// variable is wrong.
pub open spec fn spec_circuit_sizes(env: &Environment, count: int) -> Result<
    (Seq<Option<CircuitSize>>, Seq<ConfigNotice>),
    ConfigError,
>
    decreases count,
{
    if count <= 0 {
        Ok((Seq::empty(), Seq::empty()))
    } else {
        match spec_circuit_sizes(env, count - 1) {
            Err(e) => Err(e),
            Ok((sizes, notices)) => {
                let circuit = Circuit::spec_from_index(count - 1);
                match spec_circuit_size(circuit, env.spec_var(circuit.spec_env_key())) {
                    Err(e) => Err(e),
                    Ok((size, notice)) => Ok((sizes.push(size), notices + notice_seq(notice))),
                }
            },
        }
    }
}

/// Disk persistence with no load strategy named is no error: it takes the
/// default strategy, with a notice.
pub proof fn lemma_disk_without_strategy(text: Seq<char>)
    requires
        contains_ignore_case(text, DISK_TOKEN@),
        !contains_ignore_case(text, NONE_TOKEN@),
    ensures
        spec_persistence(EnvValueView::Present(text), None) == Ok::<
            (CircuitPersistence, Option<ConfigNotice>),
            ConfigError,
        >(
            (
                CircuitPersistence::Disk(TableLoadStrategy::OnDemand),
                Some(defaulted(ConfigField::TableLoadStrategy)),
            ),
        ),
{
}

/// The overrides of the tables resolve exactly where that of each table
/// does, and then each table has the override that its own variable gives.
pub proof fn lemma_circuit_sizes_by_table(env: &Environment, count: int)
    requires
        0 <= count <= NUM_TABLES,
    ensures
        spec_circuit_sizes(env, count).is_ok() <==> (forall|index: int|
            0 <= index < count ==> (#[trigger] spec_circuit_size(
                Circuit::spec_from_index(index),
                env.spec_var(Circuit::spec_from_index(index).spec_env_key()),
            )).is_ok()),
        spec_circuit_sizes(env, count) matches Ok((sizes, _)) ==> sizes.len() == count && (
        forall|index: int|
            0 <= index < count ==> sizes[index] == (#[trigger] spec_circuit_size(
                Circuit::spec_from_index(index),
                env.spec_var(Circuit::spec_from_index(index).spec_env_key()),
            )).unwrap().0),
    decreases count,
{
    if count > 0 {
        lemma_circuit_sizes_by_table(env, count - 1);
    }
}

/// Once the variable of a table is wrong, looking at more tables changes
/// nothing: the error stays that of the first such table.
pub proof fn lemma_first_error_stays(env: &Environment, count: int, more: int)
    requires
        0 <= count <= more,
        spec_circuit_sizes(env, count).is_err(),
    ensures
        spec_circuit_sizes(env, more) == spec_circuit_sizes(env, count),
    decreases more - count,
{
    if count < more {
        lemma_first_error_stays(env, count, more - 1);
    }
}

/// The prover-state configuration that `env` gives, with the notices in the
/// order in which the settings are resolved (persistence, then the tables),
/// or the error of the first setting that is wrong (load strategy, then
/// persistence, then the tables).
pub open spec fn spec_psm_from_env(env: &Environment) -> Result<
    (ProverStateConfigView, Seq<ConfigNotice>),
    ConfigError,
> {
    match spec_table_load_strategy(env.spec_var(PSM_CIRCUIT_TABLE_LOAD_STRAT_ENVKEY@)) {
        Err(e) => Err(e),
        Ok(strategy) => match spec_persistence(
            env.spec_var(PSM_CIRCUIT_PERSISTENCE_ENVKEY@),
            strategy,
        ) {
            Err(e) => Err(e),
            Ok((persistence, n1)) => match spec_circuit_sizes(env, NUM_TABLES as int) {
                Err(e) => Err(e),
                Ok((sizes, notices)) => Ok(
                    (
                        ProverStateConfigView { size_overrides: sizes, persistence },
                        notice_seq(n1) + notices,
                    ),
                ),
            },
        },
    }
}

/// Resolves the load strategy from the value of its variable.
pub fn resolve_table_load_strategy(value: &EnvValue) -> (r: Result<
    Option<TableLoadStrategy>,
    ConfigError,
>)
    ensures
        r == spec_table_load_strategy(value@),
{
    match value {
        EnvValue::Present(text) => {
            if contains_token(text.as_str(), ON_DEMAND_TOKEN) {
                Ok(Some(TableLoadStrategy::OnDemand))
            } else if contains_token(text.as_str(), MONOLITHIC_TOKEN) {
                Ok(Some(TableLoadStrategy::Monolithic))
            } else {
                Err(
                    ConfigError {
                        field: ConfigField::TableLoadStrategy,
                        problem: ConfigProblem::Unrecognized,
                    },
                )
            }
        },
        EnvValue::NotPresent => Ok(None),
        EnvValue::NotUnicode => Err(
            ConfigError {
                field: ConfigField::TableLoadStrategy,
                problem: ConfigProblem::NotUnicode,
            },
        ),
    }
}

/// Resolves the persistence from the value of its variable and the load
/// strategy that was resolved before it.
pub fn resolve_persistence(value: &EnvValue, strategy: Option<TableLoadStrategy>) -> (r: Result<
    (CircuitPersistence, Option<ConfigNotice>),
    ConfigError,
>)
    ensures
        r == spec_persistence(value@, strategy),
{
    match value {
        EnvValue::Present(text) => {
            if contains_token(text.as_str(), NONE_TOKEN) {
                Ok((CircuitPersistence::NotPersisted, None))
            } else if contains_token(text.as_str(), DISK_TOKEN) {
                match strategy {
                    Some(strategy) => Ok((CircuitPersistence::Disk(strategy), None)),
                    None => Ok(
                        (
                            CircuitPersistence::Disk(TableLoadStrategy::default()),
                            Some(
                                ConfigNotice {
                                    field: ConfigField::TableLoadStrategy,
                                    kind: NoticeKind::Defaulted,
                                },
                            ),
                        ),
                    ),
                }
            } else {
                Err(
                    ConfigError {
                        field: ConfigField::Persistence,
                        problem: ConfigProblem::Unrecognized,
                    },
                )
            }
        },
        EnvValue::NotPresent => Ok(
            (
                CircuitPersistence::default(),
                Some(ConfigNotice { field: ConfigField::Persistence, kind: NoticeKind::Defaulted }),
            ),
        ),
        EnvValue::NotUnicode => Err(
            ConfigError { field: ConfigField::Persistence, problem: ConfigProblem::NotUnicode },
        ),
    }
}

/// Resolves the override of the size range of `circuit` from the value of
/// its variable.
pub fn resolve_circuit_size(circuit: Circuit, value: &EnvValue) -> (r: Result<
    (Option<CircuitSize>, Option<ConfigNotice>),
    ConfigError,
>)
    ensures
        r == spec_circuit_size(circuit, value@),
{
    match value {
        EnvValue::Present(text) => match parse_circuit_size(text.as_str()) {
            Some(size) => Ok((Some(size), None)),
            None => Err(
                ConfigError {
                    field: ConfigField::CircuitSize(circuit),
                    problem: ConfigProblem::Unparsable,
                },
            ),
        },
        EnvValue::NotPresent => Ok(
            (
                None,
                Some(
                    ConfigNotice {
                        field: ConfigField::CircuitSize(circuit),
                        kind: NoticeKind::Defaulted,
                    },
                ),
            ),
        ),
        EnvValue::NotUnicode => Err(
            ConfigError {
                field: ConfigField::CircuitSize(circuit),
                problem: ConfigProblem::NotUnicode,
            },
        ),
    }
}

/// The view of a resolution: that of the configuration, beside the notices.
pub open spec fn psm_resolution_view(
    r: Result<(ProverStateConfig, Vec<ConfigNotice>), ConfigError>,
) -> Result<(ProverStateConfigView, Seq<ConfigNotice>), ConfigError> {
    match r {
        Ok((config, notices)) => Ok((config@, notices@)),
        Err(e) => Err(e),
    }
}

/// Resolves the prover-state configuration from the environment `env`.
///
/// Returns the configuration and the notices to log, or the error of the
/// first setting that is wrong.
pub fn load_psm_from_env(env: &Environment) -> (r: Result<
    (ProverStateConfig, Vec<ConfigNotice>),
    ConfigError,
>)
    ensures
        psm_resolution_view(r) == spec_psm_from_env(env),
{
    let mut notices: Vec<ConfigNotice> = Vec::new();
    let strategy = match resolve_table_load_strategy(
        &env.var(PSM_CIRCUIT_TABLE_LOAD_STRAT_ENVKEY),
    ) {
        Ok(found) => found,
        Err(e) => {
            return Err(e);
        },
    };
    let (persistence, n1) = match resolve_persistence(
        &env.var(PSM_CIRCUIT_PERSISTENCE_ENVKEY),
        strategy,
    ) {
        Ok(found) => found,
        Err(e) => {
            return Err(e);
        },
    };
    push_notice(&mut notices, n1);
    let ghost first = notices@;

    let mut overrides = CircuitSizeOverrides::default();
    let mut index: usize = 0;
    while index < NUM_TABLES
        invariant
            index <= NUM_TABLES,
            spec_table_load_strategy(env.spec_var(PSM_CIRCUIT_TABLE_LOAD_STRAT_ENVKEY@)) == Ok::<
                Option<TableLoadStrategy>,
                ConfigError,
            >(strategy),
            spec_persistence(env.spec_var(PSM_CIRCUIT_PERSISTENCE_ENVKEY@), strategy) == Ok::<
                (CircuitPersistence, Option<ConfigNotice>),
                ConfigError,
            >((persistence, n1)),
            first == notice_seq(n1),
            spec_circuit_sizes(env, index as int).is_ok(),
            overrides@.len() == NUM_TABLES,
            overrides@.take(index as int) == spec_circuit_sizes(env, index as int).unwrap().0,
            forall|later: int| index <= later < NUM_TABLES ==> overrides@[later].is_none(),
            notices@ == first + spec_circuit_sizes(env, index as int).unwrap().1,
        decreases NUM_TABLES - index,
    {
        let circuit = Circuit::from_index(index).unwrap();
        match resolve_circuit_size(circuit, &env.var(circuit.as_env_key())) {
            Ok((size, notice)) => {
                if let Some(size) = size {
                    overrides.set_circuit_size(circuit, size);
                }
                push_notice(&mut notices, notice);
                assert(notices@ =~= first + (spec_circuit_sizes(env, index as int).unwrap().1
                    + notice_seq(notice)));
            },
            Err(e) => {
                proof {
                    lemma_first_error_stays(env, index + 1, NUM_TABLES as int);
                }
                return Err(e);
            },
        }
        index += 1;
    }
    assert(overrides@.take(NUM_TABLES as int) =~= overrides@);
    Ok((ProverStateConfig { size_overrides: overrides, persistence }, notices))
}

} // verus!
