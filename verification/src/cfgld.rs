//! Resolution of the runtime configuration from an environment snapshot.
//!
//! Each setting is recognised by looking for a known token anywhere in its
//! value, ignoring ASCII case. The settings are resolved in a fixed order
//! (serializer, runtime, number of workers, broker address) and the first
//! one that is wrong decides the error.

use vstd::prelude::*;

use crate::env::{EnvValue, EnvValueView, Environment};
use crate::error::{
    defaulted, ignored, notice_seq, problem_with, push_notice, text_resolution_view, ConfigError,
    ConfigField, ConfigNotice, ConfigProblem, NoticeKind,
};
use crate::text::{contains_ignore_case, contains_token, parse_unsigned, parse_usize};

verus! {

/// The variable that selects the serializer.
pub const PALADIN_SERIALIZER_ENVKEY: &'static str = "PALADIN_SERIALIZER";

/// The variable that selects the runtime.
pub const PALADIN_RUNTIME_ENVKEY: &'static str = "PALADIN_RUNTIME";

/// The variable that gives the number of workers of an in-memory runtime.
pub const PALADIN_AMQP_NUM_WORKERS_ENVKEY: &'static str = "PALADIN_AMQP_NUM_WORKERS";

/// The variable that gives the address of the broker of an AMQP runtime.
pub const PALADIN_AMQP_URI_ENVKEY: &'static str = "PALADIN_AMQP_URI";

/// The number of workers that an in-memory runtime gets when the
/// configuration names none.
pub const DFLT_NUM_WORKERS: usize = 1;

/// The token that selects [`Serializer::Postcard`].
pub const POSTCARD_TOKEN: &'static str = "POSTCARD";

/// The token that selects [`Serializer::Cbor`].
pub const CBOR_TOKEN: &'static str = "CBOR";

/// The token that selects [`Runtime::Amqp`].
pub const AMQP_TOKEN: &'static str = "AMQP";

/// The token that selects [`Runtime::InMemory`].
pub const MEMORY_TOKEN: &'static str = "MEMORY";

/// The format in which work is serialised.
#[derive(Clone, Copy, Debug, PartialEq, Eq, Structural)]
pub enum Serializer {
    Postcard,
    Cbor,
}

/// How work reaches the workers.
#[derive(Clone, Copy, Debug, PartialEq, Eq, Structural)]
pub enum Runtime {
    /// Through an AMQP broker.
    Amqp,
    /// Inside this process.
    InMemory,
}

/// The configuration from which the runtime is built.
#[derive(Debug, PartialEq, Eq)]
pub struct RuntimeConfig {
    pub serializer: Serializer,
    pub runtime: Runtime,
    /// The number of workers; only an in-memory runtime has one.
    pub num_workers: Option<usize>,
    /// The address of the broker; an AMQP runtime has one, and no other.
    pub amqp_uri: Option<String>,
}

/// The mathematical content of a [`RuntimeConfig`].
pub struct RuntimeConfigView {
    pub serializer: Serializer,
    pub runtime: Runtime,
    pub num_workers: Option<usize>,
    pub amqp_uri: Option<Seq<char>>,
}

impl RuntimeConfigView {
    /// The broker address is there exactly for an AMQP runtime, which has no
    /// worker count.
    pub open spec fn wf(self) -> bool {
        &&& self.amqp_uri.is_some() <==> self.runtime == Runtime::Amqp
        &&& self.runtime == Runtime::Amqp ==> self.num_workers.is_none()
    }
}

impl View for RuntimeConfig {
    type V = RuntimeConfigView;

    open spec fn view(&self) -> RuntimeConfigView {
        RuntimeConfigView {
            serializer: self.serializer,
            runtime: self.runtime,
            num_workers: self.num_workers,
            amqp_uri: match self.amqp_uri {
                Some(uri) => Some(uri@),
                None => None,
            },
        }
    }
}

/// The serializer that a value of its variable selects; the token of
/// Postcard is looked for first.
pub open spec fn spec_serializer(value: EnvValueView) -> Result<
    (Serializer, Option<ConfigNotice>),
    ConfigError,
> {
    match value {
        EnvValueView::Present(text) => if contains_ignore_case(text, POSTCARD_TOKEN@) {
            Ok((Serializer::Postcard, None))
        } else if contains_ignore_case(text, CBOR_TOKEN@) {
            Ok((Serializer::Cbor, None))
        } else {
            Err(problem_with(ConfigField::Serializer, ConfigProblem::Unrecognized))
        },
        EnvValueView::NotPresent => Ok(
            (Serializer::Postcard, Some(defaulted(ConfigField::Serializer))),
        ),
        EnvValueView::NotUnicode => Err(
            problem_with(ConfigField::Serializer, ConfigProblem::NotUnicode),
        ),
    }
}

/// The runtime that a value of its variable selects; the token of AMQP is
/// looked for first.
pub open spec fn spec_runtime(value: EnvValueView) -> Result<
    (Runtime, Option<ConfigNotice>),
    ConfigError,
> {
    match value {
        EnvValueView::Present(text) => if contains_ignore_case(text, AMQP_TOKEN@) {
            Ok((Runtime::Amqp, None))
        } else if contains_ignore_case(text, MEMORY_TOKEN@) {
            Ok((Runtime::InMemory, None))
        } else {
            Err(problem_with(ConfigField::Runtime, ConfigProblem::Unrecognized))
        },
        EnvValueView::NotPresent => Ok((Runtime::InMemory, Some(defaulted(ConfigField::Runtime)))),
        EnvValueView::NotUnicode => Err(
            problem_with(ConfigField::Runtime, ConfigProblem::NotUnicode),
        ),
    }
}

/// The number of workers that a value of its variable gives under `runtime`.
pub open spec fn spec_num_workers(runtime: Runtime, value: EnvValueView) -> Result<
    (Option<usize>, Option<ConfigNotice>),
    ConfigError,
> {
    match value {
        EnvValueView::Present(text) => match runtime {
            Runtime::InMemory => match parse_unsigned(text, usize::MAX as nat) {
                Some(n) => Ok((Some(n as usize), None)),
                None => Err(problem_with(ConfigField::NumWorkers, ConfigProblem::Unparsable)),
            },
            Runtime::Amqp => Ok((None, Some(ignored(ConfigField::NumWorkers)))),
        },
        EnvValueView::NotPresent => match runtime {
            Runtime::InMemory => Ok((None, Some(defaulted(ConfigField::NumWorkers)))),
            Runtime::Amqp => Ok((None, None)),
        },
        EnvValueView::NotUnicode => Err(
            problem_with(ConfigField::NumWorkers, ConfigProblem::NotUnicode),
        ),
    }
}

/// The broker address that a value of its variable gives under `runtime`.
pub open spec fn spec_amqp_uri(runtime: Runtime, value: EnvValueView) -> Result<
    (Option<Seq<char>>, Option<ConfigNotice>),
    ConfigError,
> {
    match value {
        EnvValueView::Present(text) => match runtime {
            Runtime::Amqp => Ok((Some(text), None)),
            Runtime::InMemory => Ok((None, Some(ignored(ConfigField::AmqpUri)))),
        },
        EnvValueView::NotPresent => match runtime {
            Runtime::Amqp => Err(problem_with(ConfigField::AmqpUri, ConfigProblem::Missing)),
            Runtime::InMemory => Ok((None, None)),
        },
        EnvValueView::NotUnicode => Err(
            problem_with(ConfigField::AmqpUri, ConfigProblem::NotUnicode),
        ),
    }
}

/// The configuration that the four values give, with the notices in the order
/// of the settings, or the error of the first setting that is wrong.
pub open spec fn spec_config(
    serializer: EnvValueView,
    runtime: EnvValueView,
    num_workers: EnvValueView,
    amqp_uri: EnvValueView,
) -> Result<(RuntimeConfigView, Seq<ConfigNotice>), ConfigError> {
    match spec_serializer(serializer) {
        Err(e) => Err(e),
        Ok((serializer, n1)) => match spec_runtime(runtime) {
            Err(e) => Err(e),
            Ok((runtime, n2)) => match spec_num_workers(runtime, num_workers) {
                Err(e) => Err(e),
                Ok((num_workers, n3)) => match spec_amqp_uri(runtime, amqp_uri) {
                    Err(e) => Err(e),
                    Ok((amqp_uri, n4)) => Ok(
                        (
                            RuntimeConfigView { serializer, runtime, num_workers, amqp_uri },
                            notice_seq(n1) + notice_seq(n2) + notice_seq(n3) + notice_seq(n4),
                        ),
                    ),
                },
            },
        },
    }
}

/// The configuration that the environment `env` gives.
pub open spec fn spec_config_from_env(env: &Environment) -> Result<
    (RuntimeConfigView, Seq<ConfigNotice>),
    ConfigError,
> {
    spec_config(
        env.spec_var(PALADIN_SERIALIZER_ENVKEY@),
        env.spec_var(PALADIN_RUNTIME_ENVKEY@),
        env.spec_var(PALADIN_AMQP_NUM_WORKERS_ENVKEY@),
        env.spec_var(PALADIN_AMQP_URI_ENVKEY@),
    )
}

/// With nothing set, the configuration is the default one: the default
/// serializer, an in-memory runtime, no worker count and no broker address.
pub proof fn lemma_defaults_when_nothing_is_set()
    ensures
        spec_config(
            EnvValueView::NotPresent,
            EnvValueView::NotPresent,
            EnvValueView::NotPresent,
            EnvValueView::NotPresent,
        ) matches Ok((config, _)) && config == (RuntimeConfigView {
            serializer: Serializer::Postcard,
            runtime: Runtime::InMemory,
            num_workers: None,
            amqp_uri: None,
        }),
{
}

/// An AMQP runtime without a broker address is an error, whatever else is
/// set.
pub proof fn lemma_amqp_needs_its_uri(
    serializer: EnvValueView,
    runtime: EnvValueView,
    num_workers: EnvValueView,
)
    requires
        spec_runtime(runtime) matches Ok((resolved, _)) && resolved == Runtime::Amqp,
    ensures
        spec_config(serializer, runtime, num_workers, EnvValueView::NotPresent).is_err(),
        spec_serializer(serializer).is_ok() && num_workers != EnvValueView::NotUnicode
            ==> spec_config(serializer, runtime, num_workers, EnvValueView::NotPresent) == Err::<
            (RuntimeConfigView, Seq<ConfigNotice>),
            ConfigError,
        >(problem_with(ConfigField::AmqpUri, ConfigProblem::Missing)),
{
}

/// Under an in-memory runtime a worker count that is no unsigned number is
/// an error, whatever else is set.
pub proof fn lemma_worker_count_must_parse(
    serializer: EnvValueView,
    runtime: EnvValueView,
    count: Seq<char>,
    amqp_uri: EnvValueView,
)
    requires
        spec_runtime(runtime) matches Ok((resolved, _)) && resolved == Runtime::InMemory,
        parse_unsigned(count, usize::MAX as nat).is_none(),
    ensures
        spec_config(serializer, runtime, EnvValueView::Present(count), amqp_uri).is_err(),
        spec_serializer(serializer).is_ok() ==> spec_config(
            serializer,
            runtime,
            EnvValueView::Present(count),
            amqp_uri,
        ) == Err::<(RuntimeConfigView, Seq<ConfigNotice>), ConfigError>(
            problem_with(ConfigField::NumWorkers, ConfigProblem::Unparsable),
        ),
{
}

/// A value that is not valid text is an error for every setting.
pub proof fn lemma_not_unicode_is_fatal(
    serializer: EnvValueView,
    runtime: EnvValueView,
    num_workers: EnvValueView,
    amqp_uri: EnvValueView,
)
    requires
        serializer == EnvValueView::NotUnicode || runtime == EnvValueView::NotUnicode
            || num_workers == EnvValueView::NotUnicode || amqp_uri == EnvValueView::NotUnicode,
    ensures
        spec_config(serializer, runtime, num_workers, amqp_uri).is_err(),
{
}

/// A configuration that resolves has a broker address exactly for an AMQP
/// runtime, and then no worker count.
pub proof fn lemma_resolved_config_is_wf(
    serializer: EnvValueView,
    runtime: EnvValueView,
    num_workers: EnvValueView,
    amqp_uri: EnvValueView,
)
    ensures
        spec_config(serializer, runtime, num_workers, amqp_uri) matches Ok((config, _))
            ==> config.wf(),
{
}

/// The serializer that paladin takes when none is named: `Default` is
/// derived for `paladin::config::Serializer` with `Postcard` marked as the
/// default variant, so the call returns `Postcard`.
#[verifier::external_body]
fn default_serializer() -> (serializer: Serializer)
    ensures
        serializer == Serializer::Postcard,
{
    match paladin::config::Serializer::default() {
        paladin::config::Serializer::Postcard => Serializer::Postcard,
        paladin::config::Serializer::Cbor => Serializer::Cbor,
    }
}

/// Resolves the serializer from the value of its variable.
pub fn resolve_serializer(value: &EnvValue) -> (r: Result<
    (Serializer, Option<ConfigNotice>),
    ConfigError,
>)
    ensures
        r == spec_serializer(value@),
{
    match value {
        EnvValue::Present(text) => {
            if contains_token(text.as_str(), POSTCARD_TOKEN) {
                Ok((Serializer::Postcard, None))
            } else if contains_token(text.as_str(), CBOR_TOKEN) {
                Ok((Serializer::Cbor, None))
            } else {
                Err(
                    ConfigError {
                        field: ConfigField::Serializer,
                        problem: ConfigProblem::Unrecognized,
                    },
                )
            }
        },
        EnvValue::NotPresent => Ok(
            (
                default_serializer(),
                Some(ConfigNotice { field: ConfigField::Serializer, kind: NoticeKind::Defaulted }),
            ),
        ),
        EnvValue::NotUnicode => Err(
            ConfigError { field: ConfigField::Serializer, problem: ConfigProblem::NotUnicode },
        ),
    }
}

/// Resolves the runtime from the value of its variable.
pub fn resolve_runtime(value: &EnvValue) -> (r: Result<
    (Runtime, Option<ConfigNotice>),
    ConfigError,
>)
    ensures
        r == spec_runtime(value@),
{
    match value {
        EnvValue::Present(text) => {
            if contains_token(text.as_str(), AMQP_TOKEN) {
                Ok((Runtime::Amqp, None))
            } else if contains_token(text.as_str(), MEMORY_TOKEN) {
                Ok((Runtime::InMemory, None))
            } else {
                Err(
                    ConfigError {
                        field: ConfigField::Runtime,
                        problem: ConfigProblem::Unrecognized,
                    },
                )
            }
        },
        EnvValue::NotPresent => Ok(
            (
                Runtime::InMemory,
                Some(ConfigNotice { field: ConfigField::Runtime, kind: NoticeKind::Defaulted }),
            ),
        ),
        EnvValue::NotUnicode => Err(
            ConfigError { field: ConfigField::Runtime, problem: ConfigProblem::NotUnicode },
        ),
    }
}

/// Resolves the number of workers from the value of its variable.
pub fn resolve_num_workers(runtime: Runtime, value: &EnvValue) -> (r: Result<
    (Option<usize>, Option<ConfigNotice>),
    ConfigError,
>)
    ensures
        r == spec_num_workers(runtime, value@),
{
    match value {
        EnvValue::Present(text) => match runtime {
            Runtime::InMemory => match parse_usize(text.as_str()) {
                Some(n) => Ok((Some(n), None)),
                None => Err(
                    ConfigError {
                        field: ConfigField::NumWorkers,
                        problem: ConfigProblem::Unparsable,
                    },
                ),
            },
            Runtime::Amqp => Ok(
                (
                    None,
                    Some(
                        ConfigNotice { field: ConfigField::NumWorkers, kind: NoticeKind::Ignored },
                    ),
                ),
            ),
        },
        EnvValue::NotPresent => match runtime {
            Runtime::InMemory => Ok(
                (
                    None,
                    Some(
                        ConfigNotice {
                            field: ConfigField::NumWorkers,
                            kind: NoticeKind::Defaulted,
                        },
                    ),
                ),
            ),
            Runtime::Amqp => Ok((None, None)),
        },
        EnvValue::NotUnicode => Err(
            ConfigError { field: ConfigField::NumWorkers, problem: ConfigProblem::NotUnicode },
        ),
    }
}

/// Resolves the broker address from the value of its variable.
pub fn resolve_amqp_uri(runtime: Runtime, value: EnvValue) -> (r: Result<
    (Option<String>, Option<ConfigNotice>),
    ConfigError,
>)
    ensures
        text_resolution_view(r) == spec_amqp_uri(runtime, value@),
{
    match value {
        EnvValue::Present(text) => match runtime {
            Runtime::Amqp => Ok((Some(text), None)),
            Runtime::InMemory => Ok(
                (
                    None,
                    Some(ConfigNotice { field: ConfigField::AmqpUri, kind: NoticeKind::Ignored }),
                ),
            ),
        },
        EnvValue::NotPresent => match runtime {
            Runtime::Amqp => Err(
                ConfigError { field: ConfigField::AmqpUri, problem: ConfigProblem::Missing },
            ),
            Runtime::InMemory => Ok((None, None)),
        },
        EnvValue::NotUnicode => Err(
            ConfigError { field: ConfigField::AmqpUri, problem: ConfigProblem::NotUnicode },
        ),
    }
}

/// The view of a resolution: that of the configuration, beside the notices.
pub open spec fn resolution_view(
    r: Result<(RuntimeConfig, Vec<ConfigNotice>), ConfigError>,
) -> Result<(RuntimeConfigView, Seq<ConfigNotice>), ConfigError> {
    match r {
        Ok((config, notices)) => Ok((config@, notices@)),
        Err(e) => Err(e),
    }
}

/// Resolves the runtime configuration from the environment `env`.
///
/// Returns the configuration and the notices to log, or the error of the
/// first setting that is wrong.
pub fn build_paladin_config_from_env(env: &Environment) -> (r: Result<
    (RuntimeConfig, Vec<ConfigNotice>),
    ConfigError,
>)
    ensures
        resolution_view(r) == spec_config_from_env(env),
        r matches Ok((config, _)) ==> config@.wf(),
{
    let mut notices: Vec<ConfigNotice> = Vec::new();
    let (serializer, n1) = match resolve_serializer(&env.var(PALADIN_SERIALIZER_ENVKEY)) {
        Ok(found) => found,
        Err(e) => {
            return Err(e);
        },
    };
    push_notice(&mut notices, n1);
    let (runtime, n2) = match resolve_runtime(&env.var(PALADIN_RUNTIME_ENVKEY)) {
        Ok(found) => found,
        Err(e) => {
            return Err(e);
        },
    };
    push_notice(&mut notices, n2);
    let (num_workers, n3) = match resolve_num_workers(
        runtime,
        &env.var(PALADIN_AMQP_NUM_WORKERS_ENVKEY),
    ) {
        Ok(found) => found,
        Err(e) => {
            return Err(e);
        },
    };
    push_notice(&mut notices, n3);
    let (amqp_uri, n4) = match resolve_amqp_uri(runtime, env.var(PALADIN_AMQP_URI_ENVKEY)) {
        Ok(found) => found,
        Err(e) => {
            return Err(e);
        },
    };
    push_notice(&mut notices, n4);
    Ok((RuntimeConfig { serializer, runtime, num_workers, amqp_uri }, notices))
}

} // verus!
