//! The one structured error that configuration resolution reports, and the
//! notices it hands back for the caller to log.

use vstd::prelude::*;

use crate::psm::Circuit;

verus! {

/// A setting that is read from the environment.
#[derive(Clone, Copy, Debug, PartialEq, Eq, Structural)]
pub enum ConfigField {
    Serializer,
    Runtime,
    NumWorkers,
    AmqpUri,
    TableLoadStrategy,
    Persistence,
    CircuitSize(Circuit),
    ServerAddr,
}

/// What is wrong with the value of a setting.
#[derive(Clone, Copy, Debug, PartialEq, Eq, Structural)]
pub enum ConfigProblem {
    /// The value names none of the known choices.
    Unrecognized,
    /// The value is not valid text.
    NotUnicode,
    /// The setting is required and not set.
    Missing,
    /// The value does not parse as what the setting holds.
    Unparsable,
}

/// A configuration error. It is fatal: a process that gets one must not
/// start serving.
#[derive(Clone, Copy, Debug, PartialEq, Eq, Structural)]
pub struct ConfigError {
    pub field: ConfigField,
    pub problem: ConfigProblem,
}

/// Why a notice is given.
#[derive(Clone, Copy, Debug, PartialEq, Eq, Structural)]
pub enum NoticeKind {
    /// The setting was not given and its default applies.
    Defaulted,
    /// The setting was given but does not apply, and was discarded.
    Ignored,
}

/// Something worth logging that is not an error.
#[derive(Clone, Copy, Debug, PartialEq, Eq, Structural)]
pub struct ConfigNotice {
    pub field: ConfigField,
    pub kind: NoticeKind,
}

/// The error for `field` with `problem`.
pub open spec fn problem_with(field: ConfigField, problem: ConfigProblem) -> ConfigError {
    ConfigError { field, problem }
}

/// The notice that `field` took its default.
pub open spec fn defaulted(field: ConfigField) -> ConfigNotice {
    ConfigNotice { field, kind: NoticeKind::Defaulted }
}

/// The notice that `field` was given and discarded.
pub open spec fn ignored(field: ConfigField) -> ConfigNotice {
    ConfigNotice { field, kind: NoticeKind::Ignored }
}

/// The notices that an optional notice stands for: itself, or none.
pub open spec fn notice_seq(notice: Option<ConfigNotice>) -> Seq<ConfigNotice> {
    match notice {
        Some(n) => seq![n],
        None => Seq::empty(),
    }
}

/// The view of the resolution of a setting that holds an optional text.
pub open spec fn text_resolution_view(
    r: Result<(Option<String>, Option<ConfigNotice>), ConfigError>,
) -> Result<(Option<Seq<char>>, Option<ConfigNotice>), ConfigError> {
    match r {
        Ok((Some(text), notice)) => Ok((Some(text@), notice)),
        Ok((None, notice)) => Ok((None, notice)),
        Err(e) => Err(e),
    }
}

/// Appends `notice` to `notices`, if there is one.
pub fn push_notice(notices: &mut Vec<ConfigNotice>, notice: Option<ConfigNotice>)
    ensures
        final(notices)@ == old(notices)@ + notice_seq(notice),
{
    if let Some(n) = notice {
        notices.push(n);
    }
}

} // verus!
