//! The specification as its author wrote it, before validation.

use vstd::prelude::*;

use crate::config::text;
use crate::config::Defaults;
use crate::config::General;
use crate::config::GeneralView;
use crate::config::SwitchKind;
use crate::config::Optionality;
use crate::config::OptionalityView;
use crate::config::ValidationError;
use crate::config::ValidationErrorKind;
use crate::config::ValidationErrorView;

verus! {

/// The rejection of the entry `name` for the reason `kind`.
pub open spec fn rejected(name: Seq<char>, kind: ValidationErrorKind) -> ValidationErrorView {
    ValidationErrorView { name, kind }
}

/// A parameter as written.
#[derive(Debug)]
pub struct Param {
    pub name: String,
    pub abbr: Option<String>,
    pub ty: String,
    pub optional: Option<bool>,
    pub default: Option<String>,
    pub doc: Option<String>,
    pub argument: Option<bool>,
    pub env_var: Option<bool>,
    pub convert_into: Option<String>,
}

/// What a raw [`Param`] stands for.
pub struct ParamView {
    pub name: Seq<char>,
    pub abbr: Option<Seq<char>>,
    pub ty: Seq<char>,
    pub optional: Option<bool>,
    pub default: Option<Seq<char>>,
    pub doc: Option<Seq<char>>,
    pub argument: Option<bool>,
    pub env_var: Option<bool>,
    pub convert_into: Option<Seq<char>>,
}

impl View for Param {
    type V = ParamView;

    open spec fn view(&self) -> ParamView {
        ParamView {
            name: self.name@,
            abbr: text(self.abbr),
            ty: self.ty@,
            optional: self.optional,
            default: text(self.default),
            doc: text(self.doc),
            argument: self.argument,
            env_var: self.env_var,
            convert_into: text(self.convert_into),
        }
    }
}

impl ParamView {
    /// Whether the parameter is declared mandatory and yet carries a default.
    pub open spec fn contradictory(self) -> bool {
        self.optional == Some(false) && self.default is Some
    }

    /// Whether the abbreviation, if there is one, is a single character.
    pub open spec fn abbr_ok(self) -> bool {
        self.abbr matches Some(abbr) ==> abbr.len() == 1
    }

    /// Whether the parameter must be given, where it is not contradictory:
    /// a default expression decides first, then the explicit flag, then the
    /// fallback.
    pub open spec fn optionality(self, default_optional: bool) -> OptionalityView {
        match self.default {
            Some(expression) => OptionalityView::DefaultValue(expression),
            None => if self.optional.unwrap_or(default_optional) {
                OptionalityView::Optional
            } else {
                OptionalityView::Mandatory
            },
        }
    }

    /// The validated parameter, or the rejection: a contradictory parameter
    /// is rejected before its abbreviation is looked at.
    pub open spec fn validate(
        self,
        default_optional: bool,
        default_argument: bool,
        default_env_var: bool,
    ) -> Result<crate::config::ParamView, ValidationErrorView> {
        if self.contradictory() {
            Err(rejected(self.name, ValidationErrorKind::MandatoryWithDefault))
        } else if !self.abbr_ok() {
            Err(rejected(self.name, ValidationErrorKind::InvalidAbbr))
        } else {
            Ok(
                crate::config::ParamView {
                    name: self.name,
                    abbr: match self.abbr {
                        Some(abbr) => Some(abbr[0]),
                        None => None,
                    },
                    ty: self.ty,
                    optionality: self.optionality(default_optional),
                    doc: self.doc,
                    argument: self.argument.unwrap_or(default_argument),
                    env_var: self.env_var.unwrap_or(default_env_var),
                    convert_into: match self.convert_into {
                        Some(target) => target,
                        None => self.ty,
                    },
                },
            )
        }
    }
}

impl Param {
    /// Resolves the parameter against the fallbacks of its specification.
    pub fn validate(
        self,
        default_optional: bool,
        default_argument: bool,
        default_env_var: bool,
    ) -> (res: Result<crate::config::Param, ValidationError>)
        ensures
            match res {
                Ok(param) => self@.validate(default_optional, default_argument, default_env_var)
                    == Ok::<crate::config::ParamView, ValidationErrorView>(param@),
                Err(error) => self@.validate(default_optional, default_argument, default_env_var)
                    == Err::<crate::config::ParamView, ValidationErrorView>(error@),
            },
    {
        let optionality = match (self.optional, default_optional, self.default) {
            (Some(false), _, None) => Optionality::Mandatory,
            (Some(false), _, Some(_)) => return Err(
                ValidationError::new(self.name, ValidationErrorKind::MandatoryWithDefault),
            ),
            (Some(true), _, None) => Optionality::Optional,
            (_, _, Some(default)) => Optionality::DefaultValue(default),
            (None, true, None) => Optionality::Optional,
            (None, false, None) => Optionality::Mandatory,
        };

        let abbr = if let Some(abbr) = self.abbr {
            if abbr.as_str().unicode_len() != 1 {
                return Err(ValidationError::new(self.name, ValidationErrorKind::InvalidAbbr));
            }
            Some(abbr.as_str().get_char(0))
        } else {
            None
        };

        let ty = self.ty;
        let argument = self.argument.unwrap_or(default_argument);
        let env_var = self.env_var.unwrap_or(default_env_var);
        let convert_into = match self.convert_into {
            Some(target) => target,
            None => ty.clone(),
        };

        Ok(
            crate::config::Param {
                name: self.name,
                ty,
                optionality,
                abbr,
                doc: self.doc,
                argument,
                env_var,
                convert_into,
            },
        )
    }
}

/// A parameter that is declared mandatory and carries a default is rejected
/// for that reason, whatever the fallbacks are.
pub proof fn lemma_mandatory_with_default(
    param: ParamView,
    default_optional: bool,
    default_argument: bool,
    default_env_var: bool,
)
    requires
        param.optional == Some(false),
        param.default is Some,
    ensures
        param.validate(default_optional, default_argument, default_env_var) == Err::<
            crate::config::ParamView,
            ValidationErrorView,
        >(rejected(param.name, ValidationErrorKind::MandatoryWithDefault)),
{
}

/// Where parameters are optional unless they say otherwise, a parameter that
/// neither says so nor carries a default is optional; only its abbreviation
/// can have it rejected.
pub proof fn lemma_optional_by_default(
    param: ParamView,
    default_argument: bool,
    default_env_var: bool,
)
    requires
        param.optional is None,
        param.default is None,
    ensures
        match param.validate(true, default_argument, default_env_var) {
            Ok(valid) => valid.optionality == OptionalityView::Optional,
            Err(error) => !param.abbr_ok() && error == rejected(
                param.name,
                ValidationErrorKind::InvalidAbbr,
            ),
        },
{
}

/// The abbreviation of a parameter that is not contradictory is accepted
/// exactly when it is one character, of any kind, and stands for that
/// character; any other length is rejected as an invalid abbreviation.
pub proof fn lemma_param_abbr(
    param: ParamView,
    abbr: Seq<char>,
    default_optional: bool,
    default_argument: bool,
    default_env_var: bool,
)
    requires
        param.abbr == Some(abbr),
        !param.contradictory(),
    ensures
        match param.validate(default_optional, default_argument, default_env_var) {
            Ok(valid) => abbr.len() == 1 && valid.abbr == Some(abbr[0]),
            Err(error) => abbr.len() != 1 && error == rejected(
                param.name,
                ValidationErrorKind::InvalidAbbr,
            ),
        },
{
}

/// Whether `c` is a letter of the ASCII alphabet.
pub open spec fn is_ascii_letter(c: char) -> bool {
    ('a' <= c && c <= 'z') || ('A' <= c && c <= 'Z')
}

/// A switch as written.
#[derive(Debug)]
pub struct Switch {
    pub name: String,
    pub abbr: Option<String>,
    pub default: Option<bool>,
    pub doc: Option<String>,
    pub env_var: Option<bool>,
    pub count: Option<bool>,
}

/// What a raw [`Switch`] stands for.
pub struct SwitchView {
    pub name: Seq<char>,
    pub abbr: Option<Seq<char>>,
    pub default: Option<bool>,
    pub doc: Option<Seq<char>>,
    pub env_var: Option<bool>,
    pub count: Option<bool>,
}

impl View for Switch {
    type V = SwitchView;

    open spec fn view(&self) -> SwitchView {
        SwitchView {
            name: self.name@,
            abbr: text(self.abbr),
            default: self.default,
            doc: text(self.doc),
            env_var: self.env_var,
            count: self.count,
        }
    }
}

impl SwitchView {
    /// Whether the switch is on unless given, so that giving it turns it off.
    pub open spec fn inverted(self) -> bool {
        self.default == Some(true)
    }

    /// Whether the abbreviation, if there is one, is a single ASCII letter.
    pub open spec fn abbr_ok(self) -> bool {
        self.abbr matches Some(abbr) ==> abbr.len() == 1 && is_ascii_letter(abbr[0])
    }

    /// The reason for which the switch is rejected, if it is: an inverted
    /// switch may have no abbreviation and may not count, in this order; any
    /// other needs an admissible abbreviation.
    pub open spec fn fault(self) -> Option<ValidationErrorKind> {
        if self.inverted() {
            if self.abbr is Some {
                Some(ValidationErrorKind::InvertedWithAbbr)
            } else if self.count == Some(true) {
                Some(ValidationErrorKind::InvertedWithCount)
            } else {
                None
            }
        } else if !self.abbr_ok() {
            Some(ValidationErrorKind::InvalidAbbr)
        } else {
            None
        }
    }

    /// How the switch acts, where it has no fault.
    pub open spec fn kind(self) -> SwitchKind {
        if self.inverted() {
            SwitchKind::Inverted
        } else {
            SwitchKind::Normal {
                abbr: match self.abbr {
                    Some(abbr) => Some(abbr[0]),
                    None => None,
                },
                count: self.count.unwrap_or(false),
            }
        }
    }

    /// The validated switch, or the rejection.
    pub open spec fn validate(self, default_env_var: bool) -> Result<
        crate::config::SwitchView,
        ValidationErrorView,
    > {
        match self.fault() {
            Some(kind) => Err(rejected(self.name, kind)),
            None => Ok(
                crate::config::SwitchView {
                    name: self.name,
                    kind: self.kind(),
                    doc: self.doc,
                    env_var: self.env_var.unwrap_or(default_env_var),
                },
            ),
        }
    }
}

impl Switch {
    /// Resolves the switch against the fallback of its specification.
    pub fn validate(self, default_env_var: bool) -> (res: Result<
        crate::config::Switch,
        ValidationError,
    >)
        ensures
            match res {
                Ok(switch) => self@.validate(default_env_var) == Ok::<
                    crate::config::SwitchView,
                    ValidationErrorView,
                >(switch@),
                Err(error) => self@.validate(default_env_var) == Err::<
                    crate::config::SwitchView,
                    ValidationErrorView,
                >(error@),
            },
    {
        let kind = match (self.abbr, self.default, self.count) {
            (Some(_), Some(true), _) => return Err(
                ValidationError::new(self.name, ValidationErrorKind::InvertedWithAbbr),
            ),
            (_, Some(true), Some(true)) => return Err(
                ValidationError::new(self.name, ValidationErrorKind::InvertedWithCount),
            ),
            (None, Some(true), None) | (None, Some(true), Some(false)) => SwitchKind::Inverted,
            (abbr, _, count) => {
                let abbr = if let Some(abbr) = abbr {
                    if abbr.as_str().unicode_len() != 1 {
                        return Err(
                            ValidationError::new(self.name, ValidationErrorKind::InvalidAbbr),
                        );
                    }
                    let chr = abbr.as_str().get_char(0);
                    if (chr >= 'a' && chr <= 'z') || (chr >= 'A' && chr <= 'Z') {
                        Some(chr)
                    } else {
                        return Err(
                            ValidationError::new(self.name, ValidationErrorKind::InvalidAbbr),
                        );
                    }
                } else {
                    None
                };

                SwitchKind::Normal { abbr, count: count.unwrap_or(false) }
            },
        };

        Ok(
            crate::config::Switch {
                name: self.name,
                kind,
                doc: self.doc,
                env_var: self.env_var.unwrap_or(default_env_var),
            },
        )
    }
}

/// A switch that is on by default and has an abbreviation is rejected for
/// that reason, whether or not it counts.
pub proof fn lemma_inverted_with_abbr(switch: SwitchView, default_env_var: bool)
    requires
        switch.default == Some(true),
        switch.abbr is Some,
    ensures
        switch.validate(default_env_var) == Err::<crate::config::SwitchView, ValidationErrorView>(
            rejected(switch.name, ValidationErrorKind::InvertedWithAbbr),
        ),
{
}

/// A switch that is on by default, has no abbreviation and counts is
/// rejected for counting.
pub proof fn lemma_inverted_with_count(switch: SwitchView, default_env_var: bool)
    requires
        switch.default == Some(true),
        switch.count == Some(true),
        switch.abbr is None,
    ensures
        switch.validate(default_env_var) == Err::<crate::config::SwitchView, ValidationErrorView>(
            rejected(switch.name, ValidationErrorKind::InvertedWithCount),
        ),
{
}

/// The abbreviation of a switch that is not on by default is accepted
/// exactly when it is one ASCII letter; anything else is rejected as an
/// invalid abbreviation.
pub proof fn lemma_switch_abbr(switch: SwitchView, abbr: Seq<char>, default_env_var: bool)
    requires
        switch.abbr == Some(abbr),
        switch.default != Some(true),
    ensures
        match switch.validate(default_env_var) {
            Ok(valid) => {
                &&& abbr.len() == 1
                &&& is_ascii_letter(abbr[0])
                &&& valid.kind == (SwitchKind::Normal {
                    abbr: Some(abbr[0]),
                    count: switch.count == Some(true),
                })
            },
            Err(error) => {
                &&& !(abbr.len() == 1 && is_ascii_letter(abbr[0]))
                &&& error == rejected(switch.name, ValidationErrorKind::InvalidAbbr)
            },
        },
{
}

/// The outcome of handling entries in turn and stopping at the first one
/// rejected: all the accepted values in their order, or that first rejection.
pub open spec fn all_or_first_error<T>(results: Seq<Result<T, ValidationErrorView>>) -> Result<
    Seq<T>,
    ValidationErrorView,
>
    decreases results.len(),
{
    if results.len() == 0 {
        Ok(Seq::empty())
    } else {
        match all_or_first_error(results.drop_last()) {
            Err(error) => Err(error),
            Ok(accepted) => match results.last() {
                Ok(entry) => Ok(accepted.push(entry)),
                Err(error) => Err(error),
            },
        }
    }
}

/// Once an entry has been rejected, the entries after it change nothing.
pub proof fn lemma_rejection_is_final<T>(results: Seq<Result<T, ValidationErrorView>>, n: int)
    requires
        0 <= n <= results.len(),
        all_or_first_error(results.take(n)) is Err,
    ensures
        all_or_first_error(results) == all_or_first_error(results.take(n)),
    decreases results.len() - n,
{
    if n < results.len() {
        assert(results.take(n + 1).drop_last() =~= results.take(n));
        lemma_rejection_is_final(results, n + 1);
    } else {
        assert(results.take(n) =~= results);
    }
}

/// A run of entries is accepted exactly when each entry is, and then yields
/// their values in order; it is rejected with the error of the first entry
/// that is rejected.
pub proof fn lemma_all_or_first_error<T>(results: Seq<Result<T, ValidationErrorView>>)
    ensures
        match all_or_first_error(results) {
            Ok(accepted) => {
                &&& accepted.len() == results.len()
                &&& forall|i: int|
                    0 <= i < results.len() ==> #[trigger] results[i] == Ok::<
                        T,
                        ValidationErrorView,
                    >(accepted[i])
            },
            Err(error) => exists|i: int|
                {
                    &&& 0 <= i < results.len()
                    &&& #[trigger] results[i] == Err::<T, ValidationErrorView>(error)
                    &&& forall|k: int| 0 <= k < i ==> (#[trigger] results[k]) is Ok
                },
        },
    decreases results.len(),
{
    if results.len() > 0 {
        let front = results.drop_last();
        lemma_all_or_first_error(front);
        match all_or_first_error(front) {
            Ok(accepted) => {
                match results.last() {
                    Ok(entry) => {
                        assert forall|i: int| 0 <= i < results.len() implies #[trigger] results[i]
                            == Ok::<T, ValidationErrorView>(accepted.push(entry)[i]) by {
                            if i < front.len() {
                                assert(front[i] == results[i]);
                            }
                        }
                    },
                    Err(error) => {
                        let last = results.len() - 1;
                        assert forall|k: int| 0 <= k < last implies (#[trigger] results[k]) is Ok by {
                            assert(front[k] == results[k]);
                        }
                        assert(results[last] == Err::<T, ValidationErrorView>(error));
                    },
                }
            },
            Err(error) => {
                let i = choose|i: int|
                    {
                        &&& 0 <= i < front.len()
                        &&& #[trigger] front[i] == Err::<T, ValidationErrorView>(error)
                        &&& forall|k: int| 0 <= k < i ==> (#[trigger] front[k]) is Ok
                    };
                assert(results[i] == front[i]);
                assert forall|k: int| 0 <= k < i implies (#[trigger] results[k]) is Ok by {
                    assert(front[k] == results[k]);
                }
            },
        }
    }
}

/// A specification as written.
#[derive(Debug)]
pub struct Config {
    pub params: Vec<Param>,
    pub switches: Vec<Switch>,
    pub general: General,
    pub defaults: Defaults,
}

/// What a raw [`Config`] stands for.
pub struct ConfigView {
    pub params: Seq<ParamView>,
    pub switches: Seq<SwitchView>,
    pub general: GeneralView,
    pub defaults: Defaults,
}

impl View for Config {
    type V = ConfigView;

    open spec fn view(&self) -> ConfigView {
        ConfigView {
            params: self.params@.map_values(|param: Param| param@),
            switches: self.switches@.map_values(|switch: Switch| switch@),
            general: self.general@,
            defaults: self.defaults,
        }
    }
}

impl ConfigView {
    /// Whether an entry that does not say so itself is read from the
    /// environment: as the defaults say, or, where they are silent, exactly
    /// when an environment prefix is configured.
    pub open spec fn default_env_var(self) -> bool {
        match self.defaults.env_vars {
            Some(enabled) => enabled,
            None => self.general.env_prefix is Some,
        }
    }

    /// The outcome of validating each parameter on its own.
    pub open spec fn param_results(self) -> Seq<
        Result<crate::config::ParamView, ValidationErrorView>,
    > {
        self.params.map_values(
            |param: ParamView|
                param.validate(self.defaults.optional, self.defaults.args, self.default_env_var()),
        )
    }

    /// The outcome of validating each switch on its own.
    pub open spec fn switch_results(self) -> Seq<
        Result<crate::config::SwitchView, ValidationErrorView>,
    > {
        self.switches.map_values(|switch: SwitchView| switch.validate(self.default_env_var()))
    }

    /// The validated specification, or the first rejection: parameters come
    /// before switches, and each list is taken in its order.
    pub open spec fn validate(self) -> Result<crate::config::ConfigView, ValidationErrorView> {
        match all_or_first_error(self.param_results()) {
            Err(error) => Err(error),
            Ok(params) => match all_or_first_error(self.switch_results()) {
                Err(error) => Err(error),
                Ok(switches) => Ok(
                    crate::config::ConfigView {
                        general: self.general,
                        defaults: self.defaults,
                        params,
                        switches,
                    },
                ),
            },
        }
    }
}

impl Config {
    /// Validates every parameter, then every switch, and stops at the first
    /// entry that is rejected.
    pub fn validate(self) -> (res: Result<crate::config::Config, ValidationError>)
        ensures
            match res {
                Ok(config) => self@.validate() == Ok::<
                    crate::config::ConfigView,
                    ValidationErrorView,
                >(config@),
                Err(error) => self@.validate() == Err::<
                    crate::config::ConfigView,
                    ValidationErrorView,
                >(error@),
            },
    {
        let default_optional = self.defaults.optional;
        let default_argument = self.defaults.args;
        let default_env_var = match self.defaults.env_vars {
            Some(enabled) => enabled,
            None => self.general.env_prefix.is_some(),
        };
        let ghost raw = self@;
        let ghost param_results = raw.param_results();
        let ghost switch_results = raw.switch_results();

        let mut params: Vec<crate::config::Param> = Vec::new();
        proof {
            assert(param_results.take(0) =~= Seq::empty());
            assert(params@.map_values(|param: crate::config::Param| param@) =~= Seq::empty());
        }
        for param in it: self.params
            invariant
                it.seq().map_values(|param: Param| param@) == raw.params,
                raw == self@,
                param_results == raw.param_results(),
                default_optional == raw.defaults.optional,
                default_argument == raw.defaults.args,
                default_env_var == raw.default_env_var(),
                all_or_first_error(param_results.take(it.index())) == Ok::<
                    Seq<crate::config::ParamView>,
                    ValidationErrorView,
                >(params@.map_values(|param: crate::config::Param| param@)),
        {
            let ghost done = it.index();
            let ghost accepted = params@.map_values(|param: crate::config::Param| param@);
            proof {
                assert(param_results.take(done + 1).drop_last() =~= param_results.take(done));
                assert(raw.params[done] == param@);
                assert(param_results.take(done + 1).last() == param_results[done]);
            }
            match param.validate(default_optional, default_argument, default_env_var) {
                Ok(param) => {
                    params.push(param);
                    proof {
                        assert(params@.map_values(|param: crate::config::Param| param@)
                            =~= accepted.push(param@));
                    }
                },
                Err(error) => {
                    proof {
                        lemma_rejection_is_final(param_results, done + 1);
                    }
                    return Err(error);
                },
            }
        }
        proof {
            assert(param_results.take(param_results.len() as int) =~= param_results);
            assert(switch_results.take(0) =~= Seq::empty());
        }

        let mut switches: Vec<crate::config::Switch> = Vec::new();
        proof {
            assert(switches@.map_values(|switch: crate::config::Switch| switch@) =~= Seq::empty());
        }
        for switch in it: self.switches
            invariant
                it.seq().map_values(|switch: Switch| switch@) == raw.switches,
                raw == self@,
                switch_results == raw.switch_results(),
                default_env_var == raw.default_env_var(),
                all_or_first_error(raw.param_results()) is Ok,
                all_or_first_error(switch_results.take(it.index())) == Ok::<
                    Seq<crate::config::SwitchView>,
                    ValidationErrorView,
                >(switches@.map_values(|switch: crate::config::Switch| switch@)),
        {
            let ghost done = it.index();
            let ghost accepted = switches@.map_values(|switch: crate::config::Switch| switch@);
            proof {
                assert(switch_results.take(done + 1).drop_last() =~= switch_results.take(done));
                assert(raw.switches[done] == switch@);
                assert(switch_results.take(done + 1).last() == switch_results[done]);
            }
            match switch.validate(default_env_var) {
                Ok(switch) => {
                    switches.push(switch);
                    proof {
                        assert(switches@.map_values(|switch: crate::config::Switch| switch@)
                            =~= accepted.push(switch@));
                    }
                },
                Err(error) => {
                    proof {
                        lemma_rejection_is_final(switch_results, done + 1);
                    }
                    return Err(error);
                },
            }
        }
        proof {
            assert(switch_results.take(switch_results.len() as int) =~= switch_results);
        }

        Ok(
            crate::config::Config {
                general: self.general,
                defaults: self.defaults,
                params,
                switches,
            },
        )
    }
}

/// A specification is accepted exactly when each of its entries is: its
/// general settings and fallbacks are then carried over and its entries
/// resolved one by one. Otherwise the error is that of the first parameter
/// rejected or, where every parameter is accepted, of the first switch
/// rejected.
pub proof fn lemma_validate(config: ConfigView)
    ensures
        match config.validate() {
            Ok(valid) => {
                &&& valid.general == config.general
                &&& valid.defaults == config.defaults
                &&& valid.params.len() == config.params.len()
                &&& valid.switches.len() == config.switches.len()
                &&& forall|i: int|
                    0 <= i < config.params.len() ==> #[trigger] config.param_results()[i] == Ok::<
                        crate::config::ParamView,
                        ValidationErrorView,
                    >(valid.params[i])
                &&& forall|j: int|
                    0 <= j < config.switches.len() ==> #[trigger] config.switch_results()[j]
                        == Ok::<crate::config::SwitchView, ValidationErrorView>(valid.switches[j])
            },
            Err(error) => {
                ||| exists|i: int|
                    {
                        &&& 0 <= i < config.params.len()
                        &&& #[trigger] config.param_results()[i] == Err::<
                            crate::config::ParamView,
                            ValidationErrorView,
                        >(error)
                        &&& forall|k: int|
                            0 <= k < i ==> (#[trigger] config.param_results()[k]) is Ok
                    }
                ||| {
                    &&& forall|k: int|
                        0 <= k < config.params.len() ==> (#[trigger] config.param_results()[k]) is Ok
                    &&& exists|j: int|
                        {
                            &&& 0 <= j < config.switches.len()
                            &&& #[trigger] config.switch_results()[j] == Err::<
                                crate::config::SwitchView,
                                ValidationErrorView,
                            >(error)
                            &&& forall|k: int|
                                0 <= k < j ==> (#[trigger] config.switch_results()[k]) is Ok
                        }
                }
            },
        },
{
    lemma_all_or_first_error(config.param_results());
    lemma_all_or_first_error(config.switch_results());
}

/// Where an environment prefix is configured and the fallbacks do not say
/// whether the environment is read, every entry of an accepted specification
/// that does not say so itself is read from the environment.
pub proof fn lemma_env_prefix_enables_env_vars(config: ConfigView)
    requires
        config.general.env_prefix is Some,
        config.defaults.env_vars is None,
    ensures
        config.validate() matches Ok(valid) ==> {
            &&& valid.params.len() == config.params.len()
            &&& valid.switches.len() == config.switches.len()
            &&& forall|i: int|
                0 <= i < config.params.len() && (#[trigger] config.params[i]).env_var is None
                    ==> valid.params[i].env_var
            &&& forall|j: int|
                0 <= j < config.switches.len() && (#[trigger] config.switches[j]).env_var is None
                    ==> valid.switches[j].env_var
        },
{
    lemma_validate(config);
    if let Ok(valid) = config.validate() {
        assert forall|i: int|
            0 <= i < config.params.len() && (#[trigger] config.params[i]).env_var is None
            implies valid.params[i].env_var by {
            assert(config.param_results()[i] == Ok::<
                crate::config::ParamView,
                ValidationErrorView,
            >(valid.params[i]));
        }
        assert forall|j: int|
            0 <= j < config.switches.len() && (#[trigger] config.switches[j]).env_var is None
            implies valid.switches[j].env_var by {
            assert(config.switch_results()[j] == Ok::<
                crate::config::SwitchView,
                ValidationErrorView,
            >(valid.switches[j]));
        }
    }
}

} // verus!
