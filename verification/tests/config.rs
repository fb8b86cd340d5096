use coordinator::cfgld::{
    build_paladin_config_from_env, resolve_amqp_uri, resolve_num_workers, resolve_runtime,
    resolve_serializer, Runtime, RuntimeConfig, Serializer, DFLT_NUM_WORKERS,
    PALADIN_AMQP_NUM_WORKERS_ENVKEY, PALADIN_AMQP_URI_ENVKEY, PALADIN_RUNTIME_ENVKEY,
    PALADIN_SERIALIZER_ENVKEY,
};
use coordinator::env::{EnvValue, Environment};
use coordinator::error::{ConfigError, ConfigField, ConfigNotice, ConfigProblem, NoticeKind};

fn error(field: ConfigField, problem: ConfigProblem) -> ConfigError {
    ConfigError { field, problem }
}

fn defaulted(field: ConfigField) -> ConfigNotice {
    ConfigNotice { field, kind: NoticeKind::Defaulted }
}

fn ignored(field: ConfigField) -> ConfigNotice {
    ConfigNotice { field, kind: NoticeKind::Ignored }
}

fn present(text: &str) -> EnvValue {
    EnvValue::Present(String::from(text))
}

#[test]
fn runtime_variable_names_are_the_documented_ones() {
    assert_eq!(PALADIN_SERIALIZER_ENVKEY, "PALADIN_SERIALIZER");
    assert_eq!(PALADIN_RUNTIME_ENVKEY, "PALADIN_RUNTIME");
    assert_eq!(PALADIN_AMQP_NUM_WORKERS_ENVKEY, "PALADIN_AMQP_NUM_WORKERS");
    assert_eq!(PALADIN_AMQP_URI_ENVKEY, "PALADIN_AMQP_URI");
    assert_eq!(DFLT_NUM_WORKERS, 1);
}

#[test]
fn empty_environment_gives_the_defaults() {
    let env = Environment::new();
    let (config, notices) = build_paladin_config_from_env(&env).unwrap();
    assert_eq!(
        config,
        RuntimeConfig {
            serializer: Serializer::Postcard,
            runtime: Runtime::InMemory,
            num_workers: None,
            amqp_uri: None,
        }
    );
    assert_eq!(
        notices,
        vec![
            defaulted(ConfigField::Serializer),
            defaulted(ConfigField::Runtime),
            defaulted(ConfigField::NumWorkers),
        ]
    );
}

#[test]
fn default_serializer_is_the_one_of_the_runtime_library() {
    assert_eq!(
        resolve_serializer(&EnvValue::NotPresent),
        Ok((Serializer::Postcard, Some(defaulted(ConfigField::Serializer))))
    );
    assert_eq!(paladin::config::Serializer::default(), paladin::config::Serializer::Postcard);
}

#[test]
fn broker_mode_without_address_is_fatal() {
    let mut env = Environment::new();
    env.set(PALADIN_RUNTIME_ENVKEY, "AMQP");
    assert_eq!(
        build_paladin_config_from_env(&env),
        Err(error(ConfigField::AmqpUri, ConfigProblem::Missing))
    );
}

#[test]
fn in_memory_with_unparsable_worker_count_is_fatal() {
    for count in ["four", "", "-1", "1.5", "99999999999999999999999999"] {
        let mut env = Environment::new();
        env.set(PALADIN_RUNTIME_ENVKEY, "MEMORY");
        env.set(PALADIN_AMQP_NUM_WORKERS_ENVKEY, count);
        assert_eq!(
            build_paladin_config_from_env(&env),
            Err(error(ConfigField::NumWorkers, ConfigProblem::Unparsable)),
            "{:?}",
            count
        );
    }
}

#[test]
fn unparsable_worker_count_is_fatal_under_the_default_runtime_too() {
    let mut env = Environment::new();
    env.set(PALADIN_AMQP_NUM_WORKERS_ENVKEY, "many");
    assert_eq!(
        build_paladin_config_from_env(&env),
        Err(error(ConfigField::NumWorkers, ConfigProblem::Unparsable))
    );
}

#[test]
fn in_memory_configuration_is_resolved() {
    let mut env = Environment::new();
    env.set(PALADIN_SERIALIZER_ENVKEY, "CBOR");
    env.set(PALADIN_RUNTIME_ENVKEY, "IN_MEMORY");
    env.set(PALADIN_AMQP_NUM_WORKERS_ENVKEY, "8");
    let (config, notices) = build_paladin_config_from_env(&env).unwrap();
    assert_eq!(
        config,
        RuntimeConfig {
            serializer: Serializer::Cbor,
            runtime: Runtime::InMemory,
            num_workers: Some(8),
            amqp_uri: None,
        }
    );
    assert_eq!(notices, Vec::<ConfigNotice>::new());
}

#[test]
fn broker_configuration_is_resolved() {
    let mut env = Environment::new();
    env.set(PALADIN_SERIALIZER_ENVKEY, "POSTCARD");
    env.set(PALADIN_RUNTIME_ENVKEY, "AMQP");
    env.set(PALADIN_AMQP_URI_ENVKEY, "amqp://localhost:5672");
    let (config, notices) = build_paladin_config_from_env(&env).unwrap();
    assert_eq!(
        config,
        RuntimeConfig {
            serializer: Serializer::Postcard,
            runtime: Runtime::Amqp,
            num_workers: None,
            amqp_uri: Some(String::from("amqp://localhost:5672")),
        }
    );
    assert_eq!(notices, Vec::<ConfigNotice>::new());
}

#[test]
fn worker_count_under_broker_mode_is_discarded_with_a_notice() {
    let mut env = Environment::new();
    env.set(PALADIN_RUNTIME_ENVKEY, "AMQP");
    env.set(PALADIN_AMQP_NUM_WORKERS_ENVKEY, "not even a number");
    env.set(PALADIN_AMQP_URI_ENVKEY, "amqp://broker");
    let (config, notices) = build_paladin_config_from_env(&env).unwrap();
    assert_eq!(config.runtime, Runtime::Amqp);
    assert_eq!(config.num_workers, None);
    assert_eq!(
        notices,
        vec![defaulted(ConfigField::Serializer), ignored(ConfigField::NumWorkers)]
    );
}

#[test]
fn broker_address_under_in_memory_mode_is_discarded_with_a_notice() {
    let mut env = Environment::new();
    env.set(PALADIN_RUNTIME_ENVKEY, "MEMORY");
    env.set(PALADIN_AMQP_URI_ENVKEY, "amqp://broker");
    let (config, notices) = build_paladin_config_from_env(&env).unwrap();
    assert_eq!(config.runtime, Runtime::InMemory);
    assert_eq!(config.amqp_uri, None);
    assert_eq!(
        notices,
        vec![
            defaulted(ConfigField::Serializer),
            defaulted(ConfigField::NumWorkers),
            ignored(ConfigField::AmqpUri),
        ]
    );
}

#[test]
fn tokens_are_recognised_whatever_their_case_and_place() {
    assert_eq!(resolve_serializer(&present("postcard")), Ok((Serializer::Postcard, None)));
    assert_eq!(resolve_serializer(&present("the Cbor one")), Ok((Serializer::Cbor, None)));
    assert_eq!(resolve_runtime(&present("amqp")), Ok((Runtime::Amqp, None)));
    assert_eq!(resolve_runtime(&present("In_Memory")), Ok((Runtime::InMemory, None)));
}

#[test]
fn the_first_token_wins_where_a_value_holds_both() {
    assert_eq!(resolve_serializer(&present("CBOR_POSTCARD")), Ok((Serializer::Postcard, None)));
    assert_eq!(resolve_runtime(&present("MEMORY_AMQP")), Ok((Runtime::Amqp, None)));
}

#[test]
fn unknown_values_are_fatal() {
    assert_eq!(
        resolve_serializer(&present("JSON")),
        Err(error(ConfigField::Serializer, ConfigProblem::Unrecognized))
    );
    assert_eq!(
        resolve_serializer(&present("")),
        Err(error(ConfigField::Serializer, ConfigProblem::Unrecognized))
    );
    assert_eq!(
        resolve_runtime(&present("KAFKA")),
        Err(error(ConfigField::Runtime, ConfigProblem::Unrecognized))
    );
}

#[test]
fn values_that_are_no_text_are_fatal_for_every_setting() {
    assert_eq!(
        resolve_serializer(&EnvValue::NotUnicode),
        Err(error(ConfigField::Serializer, ConfigProblem::NotUnicode))
    );
    assert_eq!(
        resolve_runtime(&EnvValue::NotUnicode),
        Err(error(ConfigField::Runtime, ConfigProblem::NotUnicode))
    );
    for runtime in [Runtime::Amqp, Runtime::InMemory] {
        assert_eq!(
            resolve_num_workers(runtime, &EnvValue::NotUnicode),
            Err(error(ConfigField::NumWorkers, ConfigProblem::NotUnicode))
        );
        assert_eq!(
            resolve_amqp_uri(runtime, EnvValue::NotUnicode),
            Err(error(ConfigField::AmqpUri, ConfigProblem::NotUnicode))
        );
    }
}

#[test]
fn worker_count_is_read_for_in_memory_only() {
    assert_eq!(resolve_num_workers(Runtime::InMemory, &present("3")), Ok((Some(3), None)));
    assert_eq!(resolve_num_workers(Runtime::InMemory, &present("+3")), Ok((Some(3), None)));
    assert_eq!(resolve_num_workers(Runtime::InMemory, &present("0")), Ok((Some(0), None)));
    assert_eq!(
        resolve_num_workers(Runtime::InMemory, &EnvValue::NotPresent),
        Ok((None, Some(defaulted(ConfigField::NumWorkers))))
    );
    assert_eq!(
        resolve_num_workers(Runtime::Amqp, &present("3")),
        Ok((None, Some(ignored(ConfigField::NumWorkers))))
    );
    assert_eq!(resolve_num_workers(Runtime::Amqp, &EnvValue::NotPresent), Ok((None, None)));
}

#[test]
fn broker_address_is_required_for_broker_mode_only() {
    assert_eq!(
        resolve_amqp_uri(Runtime::Amqp, present("amqp://h")),
        Ok((Some(String::from("amqp://h")), None))
    );
    assert_eq!(
        resolve_amqp_uri(Runtime::Amqp, EnvValue::NotPresent),
        Err(error(ConfigField::AmqpUri, ConfigProblem::Missing))
    );
    assert_eq!(
        resolve_amqp_uri(Runtime::InMemory, present("amqp://h")),
        Ok((None, Some(ignored(ConfigField::AmqpUri))))
    );
    assert_eq!(resolve_amqp_uri(Runtime::InMemory, EnvValue::NotPresent), Ok((None, None)));
}

#[test]
fn the_first_wrong_setting_decides_the_error() {
    let mut env = Environment::new();
    env.set(PALADIN_SERIALIZER_ENVKEY, "JSON");
    env.set(PALADIN_RUNTIME_ENVKEY, "KAFKA");
    env.set_not_unicode(PALADIN_AMQP_NUM_WORKERS_ENVKEY);
    assert_eq!(
        build_paladin_config_from_env(&env),
        Err(error(ConfigField::Serializer, ConfigProblem::Unrecognized))
    );
    env.set(PALADIN_SERIALIZER_ENVKEY, "CBOR");
    assert_eq!(
        build_paladin_config_from_env(&env),
        Err(error(ConfigField::Runtime, ConfigProblem::Unrecognized))
    );
    env.set(PALADIN_RUNTIME_ENVKEY, "AMQP");
    assert_eq!(
        build_paladin_config_from_env(&env),
        Err(error(ConfigField::NumWorkers, ConfigProblem::NotUnicode))
    );
    env.remove(PALADIN_AMQP_NUM_WORKERS_ENVKEY);
    assert_eq!(
        build_paladin_config_from_env(&env),
        Err(error(ConfigField::AmqpUri, ConfigProblem::Missing))
    );
}

#[test]
fn resolved_configuration_has_an_address_exactly_for_broker_mode() {
    let runtimes = [None, Some("AMQP"), Some("MEMORY")];
    let workers = [None, Some("2")];
    let uris = [None, Some("amqp://h")];
    for runtime in runtimes {
        for count in workers {
            for uri in uris {
                let mut env = Environment::new();
                if let Some(runtime) = runtime {
                    env.set(PALADIN_RUNTIME_ENVKEY, runtime);
                }
                if let Some(count) = count {
                    env.set(PALADIN_AMQP_NUM_WORKERS_ENVKEY, count);
                }
                if let Some(uri) = uri {
                    env.set(PALADIN_AMQP_URI_ENVKEY, uri);
                }
                if let Ok((config, _)) = build_paladin_config_from_env(&env) {
                    assert_eq!(config.amqp_uri.is_some(), config.runtime == Runtime::Amqp);
                    if config.runtime == Runtime::Amqp {
                        assert_eq!(config.num_workers, None);
                    }
                }
            }
        }
    }
}
