//! The validated model of a configuration specification.
//!
//! Values of these types are produced by [`raw::Config::validate`]; every
//! contract speaks of them through their views, in which a string is the
//! sequence of its characters.

use vstd::prelude::*;

pub mod raw;

verus! {

/// The characters of an optional string.
pub open spec fn text(s: Option<String>) -> Option<Seq<char>> {
    match s {
        Some(s) => Some(s@),
        None => None,
    }
}

/// Why a specification entry was rejected.
#[derive(Debug, Clone, Copy, PartialEq, Eq, Structural)]
pub enum ValidationErrorKind {
    /// A parameter is declared mandatory and also carries a default value.
    MandatoryWithDefault,
    /// A switch that defaults to `true` carries an abbreviation.
    InvertedWithAbbr,
    /// A switch that defaults to `true` counts its occurrences.
    InvertedWithCount,
    /// An abbreviation is not exactly one admissible character.
    InvalidAbbr,
}

/// A rejected entry: its name and the reason.
#[derive(Debug)]
pub struct ValidationError {
    name: String,
    kind: ValidationErrorKind,
}

/// What a [`ValidationError`] stands for.
pub struct ValidationErrorView {
    pub name: Seq<char>,
    pub kind: ValidationErrorKind,
}

impl View for ValidationError {
    type V = ValidationErrorView;

    closed spec fn view(&self) -> ValidationErrorView {
        ValidationErrorView { name: self.name@, kind: self.kind }
    }
}

impl ValidationError {
    pub(crate) fn new(name: String, kind: ValidationErrorKind) -> (error: ValidationError)
        ensures
            error@ == (ValidationErrorView { name: name@, kind }),
    {
        ValidationError { name, kind }
    }

    /// The name of the offending entry.
    pub fn name(&self) -> (name: &str)
        ensures
            name@ == self@.name,
    {
        self.name.as_str()
    }

    /// The reason for the rejection.
    pub fn kind(&self) -> (kind: ValidationErrorKind)
        ensures
            kind == self@.kind,
    {
        self.kind
    }
}

/// Settings of the whole specification.
#[derive(Debug)]
pub struct General {
    pub name: Option<String>,
    pub summary: Option<String>,
    pub doc: Option<String>,
    pub env_prefix: Option<String>,
}

/// What a [`General`] stands for.
pub struct GeneralView {
    pub name: Option<Seq<char>>,
    pub summary: Option<Seq<char>>,
    pub doc: Option<Seq<char>>,
    pub env_prefix: Option<Seq<char>>,
}

impl View for General {
    type V = GeneralView;

    open spec fn view(&self) -> GeneralView {
        GeneralView {
            name: text(self.name),
            summary: text(self.summary),
            doc: text(self.doc),
            env_prefix: text(self.env_prefix),
        }
    }
}

impl Default for General {
    fn default() -> (general: General)
        ensures
            general@ == (GeneralView { name: None, summary: None, doc: None, env_prefix: None }),
    {
        General { name: None, summary: None, doc: None, env_prefix: None }
    }
}

/// The value of a setting that is on unless the author turns it off.
pub fn make_true() -> (on: bool)
    ensures
        on,
{
    true
}

/// Fallbacks for entries that leave a choice open.
#[derive(Debug)]
pub struct Defaults {
    /// Whether parameters can be given as arguments.
    pub args: bool,
    /// Whether entries are read from environment variables; unset defers to
    /// whether an environment prefix is configured.
    pub env_vars: Option<bool>,
    /// Whether parameters are optional.
    pub optional: bool,
}

impl Default for Defaults {
    fn default() -> (defaults: Defaults)
        ensures
            defaults == (Defaults { args: true, env_vars: None, optional: true }),
    {
        Defaults { args: make_true(), env_vars: None, optional: make_true() }
    }
}

/// Whether a parameter has to be given.
pub enum Optionality {
    Mandatory,
    Optional,
    /// The expression that yields the value when none is given.
    DefaultValue(String),
}

/// What an [`Optionality`] stands for.
pub enum OptionalityView {
    Mandatory,
    Optional,
    DefaultValue(Seq<char>),
}

impl View for Optionality {
    type V = OptionalityView;

    open spec fn view(&self) -> OptionalityView {
        match self {
            Optionality::Mandatory => OptionalityView::Mandatory,
            Optionality::Optional => OptionalityView::Optional,
            Optionality::DefaultValue(expression) => OptionalityView::DefaultValue(expression@),
        }
    }
}

/// How a switch acts when it is present.
#[derive(Copy, Clone, Eq, PartialEq, Structural)]
pub enum SwitchKind {
    /// Presence sets the value, or is counted.
    Normal { abbr: Option<char>, count: bool },
    /// Presence clears a value that is set otherwise.
    Inverted,
}

/// A validated parameter.
pub struct Param {
    pub name: String,
    pub abbr: Option<char>,
    pub ty: String,
    pub optionality: Optionality,
    pub doc: Option<String>,
    pub argument: bool,
    pub env_var: bool,
    pub convert_into: String,
}

/// What a [`Param`] stands for.
pub struct ParamView {
    pub name: Seq<char>,
    pub abbr: Option<char>,
    pub ty: Seq<char>,
    pub optionality: OptionalityView,
    pub doc: Option<Seq<char>>,
    pub argument: bool,
    pub env_var: bool,
    pub convert_into: Seq<char>,
}

impl View for Param {
    type V = ParamView;

    open spec fn view(&self) -> ParamView {
        ParamView {
            name: self.name@,
            abbr: self.abbr,
            ty: self.ty@,
            optionality: self.optionality@,
            doc: text(self.doc),
            argument: self.argument,
            env_var: self.env_var,
            convert_into: self.convert_into@,
        }
    }
}

/// A validated switch.
pub struct Switch {
    pub name: String,
    pub kind: SwitchKind,
    pub doc: Option<String>,
    pub env_var: bool,
}

/// What a [`Switch`] stands for.
pub struct SwitchView {
    pub name: Seq<char>,
    pub kind: SwitchKind,
    pub doc: Option<Seq<char>>,
    pub env_var: bool,
}

impl View for Switch {
    type V = SwitchView;

    open spec fn view(&self) -> SwitchView {
        SwitchView {
            name: self.name@,
            kind: self.kind,
            doc: text(self.doc),
            env_var: self.env_var,
        }
    }
}

impl Switch {
    /// Whether presence of the switch clears the value.
    pub fn is_inverted(&self) -> (inverted: bool)
        ensures
            inverted == (self.kind is Inverted),
    {
        self.kind == SwitchKind::Inverted
    }

    /// Whether the switch counts its occurrences.
    pub fn is_count(&self) -> (count: bool)
        ensures
            count == (self.kind matches SwitchKind::Normal { count, .. } && count),
    {
        if let SwitchKind::Normal { count: true, .. } = self.kind {
            true
        } else {
            false
        }
    }
}

/// A validated specification.
pub struct Config {
    pub general: General,
    pub defaults: Defaults,
    pub params: Vec<Param>,
    pub switches: Vec<Switch>,
}

/// What a [`Config`] stands for.
pub struct ConfigView {
    pub general: GeneralView,
    pub defaults: Defaults,
    pub params: Seq<ParamView>,
    pub switches: Seq<SwitchView>,
}

impl View for Config {
    type V = ConfigView;

    open spec fn view(&self) -> ConfigView {
        ConfigView {
            general: self.general@,
            defaults: self.defaults,
            params: self.params@.map_values(|param: Param| param@),
            switches: self.switches@.map_values(|switch: Switch| switch@),
        }
    }
}

} // verus!
