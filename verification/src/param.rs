//! Parameters that remember where their value came from.

use vstd::prelude::*;

use crate::pretty_path::{PrettyPath, PrettyPathView};

verus! {

/// Where an application parameter's value came from.
#[derive(Debug)]
pub enum AppParamSource {
    /// A command-line option, or the environment variable bound to it.
    CommandLineArgument,
    /// The configuration file at `path`.
    ConfigurationFile { path: PrettyPath },
    /// A value the application chose because the user gave none.
    ImplicitDefault,
}

/// Where a parameter's value came from, as a mathematical value.
pub enum AppParamSourceView {
    CommandLineArgument,
    ConfigurationFile { path: PrettyPathView },
    ImplicitDefault,
}

impl View for AppParamSource {
    type V = AppParamSourceView;

    open spec fn view(&self) -> AppParamSourceView {
        match self {
            AppParamSource::CommandLineArgument => AppParamSourceView::CommandLineArgument,
            AppParamSource::ConfigurationFile { path } => AppParamSourceView::ConfigurationFile {
                path: path@,
            },
            AppParamSource::ImplicitDefault => AppParamSourceView::ImplicitDefault,
        }
    }
}

impl Clone for AppParamSource {
    fn clone(&self) -> (res: Self)
        ensures
            res@ == self@,
    {
        match self {
            AppParamSource::CommandLineArgument => AppParamSource::CommandLineArgument,
            AppParamSource::ConfigurationFile { path } => AppParamSource::ConfigurationFile {
                path: path.clone(),
            },
            AppParamSource::ImplicitDefault => AppParamSource::ImplicitDefault,
        }
    }
}

impl AppParamSource {
    /// Whether the value came from the command line.
    pub fn is_command_line_argument(&self) -> (res: bool)
        ensures
            res == (*self is CommandLineArgument),
    {
        matches!(self, AppParamSource::CommandLineArgument)
    }

    /// Whether the value came from the configuration file.
    pub fn is_configuration_file(&self) -> (res: bool)
        ensures
            res == (*self is ConfigurationFile),
    {
        matches!(self, AppParamSource::ConfigurationFile { .. })
    }

    /// Whether the value was chosen by the application.
    pub fn is_implicit_default(&self) -> (res: bool)
        ensures
            res == (*self is ImplicitDefault),
    {
        matches!(self, AppParamSource::ImplicitDefault)
    }
}

/// A parameter's value with the place it came from.
#[derive(Debug)]
pub struct AppParam<T> {
    source: AppParamSource,
    value: T,
}

impl<T> AppParam<T> {
    /// Pairs a value with its source.
    pub fn new(source: AppParamSource, value: T) -> (res: Self)
        ensures
            res.spec_source() == source,
            res.spec_value() == value,
    {
        AppParam { source, value }
    }

    /// The source of the value.
    pub closed spec fn spec_source(&self) -> AppParamSource {
        self.source
    }

    /// The value.
    pub closed spec fn spec_value(&self) -> T {
        self.value
    }

    /// Where the value came from.
    pub fn source(&self) -> (res: &AppParamSource)
        ensures
            *res == self.spec_source(),
    {
        &self.source
    }

    /// The value.
    pub fn value(&self) -> (res: &T)
        ensures
            *res == self.spec_value(),
    {
        &self.value
    }

    /// The same parameter with `f` applied to its value; the source is kept.
    pub fn map<U, F: FnOnce(T) -> U>(self, f: F) -> (res: AppParam<U>)
        requires
            call_requires(f, (self.spec_value(),)),
        ensures
            res.spec_source() == self.spec_source(),
            call_ensures(f, (self.spec_value(),), res.spec_value()),
    {
        AppParam { source: self.source, value: f(self.value) }
    }
}

/// A value given explicitly, or determined automatically.
#[derive(Debug)]
pub enum OptionalParamValue<T> {
    /// Explicitly specified (command line, environment variable, configuration file, ...).
    Explicit(T),
    /// Determined automatically.
    Default(T),
}

impl<T> OptionalParamValue<T> {
    /// Whether the value was determined automatically.
    pub fn is_default(&self) -> (res: bool)
        ensures
            res == (*self is Default),
    {
        matches!(self, OptionalParamValue::Default(_))
    }

    /// Whether the value was given explicitly.
    pub fn is_explicit(&self) -> (res: bool)
        ensures
            res == (*self is Explicit),
    {
        matches!(self, OptionalParamValue::Explicit(_))
    }

    /// The value, however it was determined.
    pub open spec fn spec_inner(&self) -> T {
        match self {
            OptionalParamValue::Explicit(v) => *v,
            OptionalParamValue::Default(v) => *v,
        }
    }

    /// The value, however it was determined.
    pub fn as_ref(&self) -> (res: &T)
        ensures
            *res == self.spec_inner(),
    {
        match self {
            OptionalParamValue::Explicit(v) => v,
            OptionalParamValue::Default(v) => v,
        }
    }
}

/// A named parameter whose value was given explicitly or determined automatically.
#[derive(Debug)]
pub struct OptionalParam<T> {
    name: &'static str,
    value: OptionalParamValue<T>,
}

impl<T> OptionalParam<T> {
    /// The parameter's name.
    pub closed spec fn spec_name(&self) -> Seq<char> {
        self.name@
    }

    /// The parameter's value and how it was determined.
    pub closed spec fn spec_param_value(&self) -> OptionalParamValue<T> {
        self.value
    }

    /// The given value if there is one, else the value of `default()`.
    pub fn new<F: FnOnce() -> T>(name: &'static str, value: Option<T>, default: F) -> (res: Self)
        requires
            value is None ==> call_requires(default, ()),
        ensures
            res.spec_name() == name@,
            match value {
                Some(v) => res.spec_param_value() == OptionalParamValue::Explicit(v),
                None => res.spec_param_value() is Default && call_ensures(
                    default,
                    (),
                    res.spec_param_value().spec_inner(),
                ),
            },
    {
        let value = match value {
            Some(v) => OptionalParamValue::Explicit(v),
            None => OptionalParamValue::Default(default()),
        };
        OptionalParam { name, value }
    }

    /// A parameter with an automatically determined value.
    pub fn new_default(name: &'static str, value: T) -> (res: Self)
        ensures
            res.spec_name() == name@,
            res.spec_param_value() == OptionalParamValue::Default(value),
    {
        OptionalParam { name, value: OptionalParamValue::Default(value) }
    }

    /// A parameter with an explicitly given value.
    pub fn new_explicit(name: &'static str, value: T) -> (res: Self)
        ensures
            res.spec_name() == name@,
            res.spec_param_value() == OptionalParamValue::Explicit(value),
    {
        OptionalParam { name, value: OptionalParamValue::Explicit(value) }
    }

    /// The parameter's name.
    pub fn name(&self) -> (res: &'static str)
        ensures
            res@ == self.spec_name(),
    {
        self.name
    }

    /// The parameter's value.
    pub fn value(&self) -> (res: &T)
        ensures
            *res == self.spec_param_value().spec_inner(),
    {
        self.value.as_ref()
    }

    /// Whether the value was determined automatically.
    pub fn is_default(&self) -> (res: bool)
        ensures
            res == (self.spec_param_value() is Default),
    {
        self.value.is_default()
    }

    /// Whether the value was given explicitly.
    pub fn is_explicit(&self) -> (res: bool)
        ensures
            res == (self.spec_param_value() is Explicit),
    {
        self.value.is_explicit()
    }

    /// The same parameter with `f` applied to its value; the name and how the value was
    /// determined are kept.
    pub fn map<U, F: FnOnce(T) -> U>(self, f: F) -> (res: OptionalParam<U>)
        requires
            call_requires(f, (self.spec_param_value().spec_inner(),)),
        ensures
            res.spec_name() == self.spec_name(),
            (res.spec_param_value() is Default) == (self.spec_param_value() is Default),
            call_ensures(
                f,
                (self.spec_param_value().spec_inner(),),
                res.spec_param_value().spec_inner(),
            ),
    {
        OptionalParam {
            name: self.name,
            value: match self.value {
                OptionalParamValue::Explicit(v) => OptionalParamValue::Explicit(f(v)),
                OptionalParamValue::Default(v) => OptionalParamValue::Default(f(v)),
            },
        }
    }
}

} // verus!
