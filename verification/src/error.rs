//! Error taxonomy of the hybrid strategy framework: error kinds, their
//! recoverability and severity, attached debugging context and conversion
//! into the crate-wide error type.

use vstd::prelude::*;
use crate::assoc::{assoc_insert, assoc_map, keys_distinct};
use crate::types::NyxsOwlError;

pub mod convert;
pub mod utils;

verus! {

/// Error type for hybrid strategy operations; every kind carries a message.
#[derive(Debug)]
pub enum HybridError {
    /// Configuration errors
    Configuration(String),
    /// Data processing errors
    DataError(String),
    /// Technical indicator errors
    TechnicalIndicator(String),
    /// Forecasting model errors
    ForecastingModel(String),
    /// Feature engineering errors
    FeatureEngineering(String),
    /// Signal confirmation errors
    SignalConfirmation(String),
    /// Integration errors
    Integration(String),
    /// Validation errors
    Validation(String),
    /// Performance errors
    Performance(String),
    /// Memory errors
    Memory(String),
    /// Async operation errors
    Async(String),
    /// External dependency errors
    ExternalDependency(String),
    /// Unknown or unexpected errors
    Unknown(String),
}

/// Result type for hybrid strategy operations.
pub type HybridResult<T> = Result<T, HybridError>;

impl HybridError {
    /// The message the error carries.
    pub open spec fn message(self) -> String {
        match self {
            HybridError::Configuration(m) => m,
            HybridError::DataError(m) => m,
            HybridError::TechnicalIndicator(m) => m,
            HybridError::ForecastingModel(m) => m,
            HybridError::FeatureEngineering(m) => m,
            HybridError::SignalConfirmation(m) => m,
            HybridError::Integration(m) => m,
            HybridError::Validation(m) => m,
            HybridError::Performance(m) => m,
            HybridError::Memory(m) => m,
            HybridError::Async(m) => m,
            HybridError::ExternalDependency(m) => m,
            HybridError::Unknown(m) => m,
        }
    }

    /// The text that the rendered error starts with, naming its kind.
    pub open spec fn kind_label(self) -> Seq<char> {
        match self {
            HybridError::Configuration(_) => "Configuration error: "@,
            HybridError::DataError(_) => "Data error: "@,
            HybridError::TechnicalIndicator(_) => "Technical indicator error: "@,
            HybridError::ForecastingModel(_) => "Forecasting model error: "@,
            HybridError::FeatureEngineering(_) => "Feature engineering error: "@,
            HybridError::SignalConfirmation(_) => "Signal confirmation error: "@,
            HybridError::Integration(_) => "Integration error: "@,
            HybridError::Validation(_) => "Validation error: "@,
            HybridError::Performance(_) => "Performance error: "@,
            HybridError::Memory(_) => "Memory error: "@,
            HybridError::Async(_) => "Async operation error: "@,
            HybridError::ExternalDependency(_) => "External dependency error: "@,
            HybridError::Unknown(_) => "Unknown error: "@,
        }
    }

    /// The rendered error: its kind label followed by its message.
    pub open spec fn display(self) -> Seq<char> {
        self.kind_label() + self.message()@
    }

    /// Errors from which processing may continue.
    pub open spec fn spec_is_recoverable(self) -> bool {
        ||| self is DataError
        ||| self is Validation
        ||| self is Performance
    }

    /// Errors that stop processing.
    pub open spec fn spec_is_critical(self) -> bool {
        ||| self is Configuration
        ||| self is Memory
        ||| self is ExternalDependency
    }

    /// The description of where an error of this kind arises.
    pub open spec fn spec_context(self) -> Seq<char> {
        match self {
            HybridError::Configuration(_) => "Configuration validation or setup"@,
            HybridError::DataError(_) => "Data processing or validation"@,
            HybridError::TechnicalIndicator(_) => "Technical indicator calculation"@,
            HybridError::ForecastingModel(_) => "Forecasting model operation"@,
            HybridError::FeatureEngineering(_) => "Feature extraction or processing"@,
            HybridError::SignalConfirmation(_) => "Signal confirmation or validation"@,
            HybridError::Integration(_) => "Signal integration or combination"@,
            HybridError::Validation(_) => "Input validation or parameter checking"@,
            HybridError::Performance(_) => "Performance optimization or timing"@,
            HybridError::Memory(_) => "Memory allocation or management"@,
            HybridError::Async(_) => "Asynchronous operation"@,
            HybridError::ExternalDependency(_) => "External library or service"@,
            HybridError::Unknown(_) => "Unknown or unexpected error"@,
        }
    }

    /// Create a configuration error
    pub fn configuration<T: Into<String>>(message: T) -> (r: Self)
        ensures
            r matches HybridError::Configuration(m) && call_ensures(T::into, (message,), m),
    {
        Self::Configuration(message.into())
    }

    /// Create a data error
    pub fn data<T: Into<String>>(message: T) -> (r: Self)
        ensures
            r matches HybridError::DataError(m) && call_ensures(T::into, (message,), m),
    {
        Self::DataError(message.into())
    }

    /// Create a technical indicator error
    pub fn technical_indicator<T: Into<String>>(message: T) -> (r: Self)
        ensures
            r matches HybridError::TechnicalIndicator(m) && call_ensures(T::into, (message,), m),
    {
        Self::TechnicalIndicator(message.into())
    }

    /// Create a forecasting model error
    pub fn forecasting_model<T: Into<String>>(message: T) -> (r: Self)
        ensures
            r matches HybridError::ForecastingModel(m) && call_ensures(T::into, (message,), m),
    {
        Self::ForecastingModel(message.into())
    }

    /// Create a feature engineering error
    pub fn feature_engineering<T: Into<String>>(message: T) -> (r: Self)
        ensures
            r matches HybridError::FeatureEngineering(m) && call_ensures(T::into, (message,), m),
    {
        Self::FeatureEngineering(message.into())
    }

    /// Create a signal confirmation error
    pub fn signal_confirmation<T: Into<String>>(message: T) -> (r: Self)
        ensures
            r matches HybridError::SignalConfirmation(m) && call_ensures(T::into, (message,), m),
    {
        Self::SignalConfirmation(message.into())
    }

    /// Create an integration error
    pub fn integration<T: Into<String>>(message: T) -> (r: Self)
        ensures
            r matches HybridError::Integration(m) && call_ensures(T::into, (message,), m),
    {
        Self::Integration(message.into())
    }

    /// Create a validation error
    pub fn validation<T: Into<String>>(message: T) -> (r: Self)
        ensures
            r matches HybridError::Validation(m) && call_ensures(T::into, (message,), m),
    {
        Self::Validation(message.into())
    }

    /// Create a performance error
    pub fn performance<T: Into<String>>(message: T) -> (r: Self)
        ensures
            r matches HybridError::Performance(m) && call_ensures(T::into, (message,), m),
    {
        Self::Performance(message.into())
    }

    /// Create a memory error
    pub fn memory<T: Into<String>>(message: T) -> (r: Self)
        ensures
            r matches HybridError::Memory(m) && call_ensures(T::into, (message,), m),
    {
        Self::Memory(message.into())
    }

    /// Create an async operation error
    pub fn async_op<T: Into<String>>(message: T) -> (r: Self)
        ensures
            r matches HybridError::Async(m) && call_ensures(T::into, (message,), m),
    {
        Self::Async(message.into())
    }

    /// Create an external dependency error
    pub fn external_dependency<T: Into<String>>(message: T) -> (r: Self)
        ensures
            r matches HybridError::ExternalDependency(m) && call_ensures(T::into, (message,), m),
    {
        Self::ExternalDependency(message.into())
    }

    /// Create an unknown error
    pub fn unknown<T: Into<String>>(message: T) -> (r: Self)
        ensures
            r matches HybridError::Unknown(m) && call_ensures(T::into, (message,), m),
    {
        Self::Unknown(message.into())
    }

    /// Check if the error is recoverable
    pub fn is_recoverable(&self) -> (r: bool)
        ensures
            r == self.spec_is_recoverable(),
    {
        match self {
            HybridError::DataError(_) | HybridError::Validation(_) | HybridError::Performance(_) => true,
            _ => false,
        }
    }

    /// Check if the error is critical
    pub fn is_critical(&self) -> (r: bool)
        ensures
            r == self.spec_is_critical(),
    {
        match self {
            HybridError::Configuration(_) | HybridError::Memory(_) | HybridError::ExternalDependency(_) => true,
            _ => false,
        }
    }

    /// Get error context for debugging
    pub fn context(&self) -> (r: &'static str)
        ensures
            r@ == self.spec_context(),
    {
        match self {
            Self::Configuration(_) => "Configuration validation or setup",
            Self::DataError(_) => "Data processing or validation",
            Self::TechnicalIndicator(_) => "Technical indicator calculation",
            Self::ForecastingModel(_) => "Forecasting model operation",
            Self::FeatureEngineering(_) => "Feature extraction or processing",
            Self::SignalConfirmation(_) => "Signal confirmation or validation",
            Self::Integration(_) => "Signal integration or combination",
            Self::Validation(_) => "Input validation or parameter checking",
            Self::Performance(_) => "Performance optimization or timing",
            Self::Memory(_) => "Memory allocation or management",
            Self::Async(_) => "Asynchronous operation",
            Self::ExternalDependency(_) => "External library or service",
            Self::Unknown(_) => "Unknown or unexpected error",
        }
    }

    /// Renders the error: its kind label followed by its message.
    pub fn to_string(&self) -> (r: String)
        ensures
            r@ == self.display(),
    {
        let (label, m) = match self {
            Self::Configuration(m) => ("Configuration error: ", m),
            Self::DataError(m) => ("Data error: ", m),
            Self::TechnicalIndicator(m) => ("Technical indicator error: ", m),
            Self::ForecastingModel(m) => ("Forecasting model error: ", m),
            Self::FeatureEngineering(m) => ("Feature engineering error: ", m),
            Self::SignalConfirmation(m) => ("Signal confirmation error: ", m),
            Self::Integration(m) => ("Integration error: ", m),
            Self::Validation(m) => ("Validation error: ", m),
            Self::Performance(m) => ("Performance error: ", m),
            Self::Memory(m) => ("Memory error: ", m),
            Self::Async(m) => ("Async operation error: ", m),
            Self::ExternalDependency(m) => ("External dependency error: ", m),
            Self::Unknown(m) => ("Unknown error: ", m),
        };
        let mut s = String::from_str(label);
        s.append(m.as_str());
        s
    }

    /// The crate-wide error that this error becomes: a strategy error whose
    /// message is the rendered hybrid error behind a fixed label.
    pub fn to_nyxs_error(&self) -> (r: NyxsOwlError)
        ensures
            r matches NyxsOwlError::StrategyError(m) && m@ == "Hybrid strategy error: "@ + self.display(),
    {
        let mut s = String::from_str("Hybrid strategy error: ");
        let d = self.to_string();
        s.append(d.as_str());
        NyxsOwlError::StrategyError(s)
    }
}

/// No error is both recoverable and critical: the kinds from which
/// processing may continue and the kinds that stop it are apart.
pub proof fn lemma_recoverable_excludes_critical(e: HybridError)
    ensures
        !(e.spec_is_recoverable() && e.spec_is_critical()),
{
}

impl From<HybridError> for NyxsOwlError {
    fn from(err: HybridError) -> (r: Self)
        ensures
            r matches NyxsOwlError::StrategyError(m) && m@ == "Hybrid strategy error: "@ + err.display(),
    {
        err.to_nyxs_error()
    }
}

impl vstd::std_specs::convert::FromSpecImpl<HybridError> for NyxsOwlError {
    open spec fn obeys_from_spec() -> bool {
        false
    }

    open spec fn from_spec(v: HybridError) -> Self {
        NyxsOwlError::StrategyError(arbitrary())
    }
}

/// Debugging context attached to an error: the operation, the component and
/// further key/value details.
#[derive(Debug)]
pub struct ErrorContext {
    /// Operation being performed
    pub operation: String,
    /// Component where error occurred
    pub component: String,
    /// Additional context information, one entry per key
    pub context: Vec<(String, String)>,
}

impl ErrorContext {
    /// The detail entries hold each key once.
    pub open spec fn wf(&self) -> bool {
        keys_distinct(self.context@)
    }

    /// The details as a map from key text to value.
    pub open spec fn details(&self) -> Map<Seq<char>, String> {
        assoc_map(self.context@)
    }

    /// Create a new error context
    pub fn new(operation: String, component: String) -> (r: Self)
        ensures
            r.wf(),
            r.operation == operation,
            r.component == component,
            r.context@.len() == 0,
            r.details() == Map::<Seq<char>, String>::empty(),
    {
        let r = Self { operation, component, context: Vec::new() };
        assert(r.details() =~= Map::<Seq<char>, String>::empty());
        r
    }

    /// Add context information
    pub fn with_context(self, key: String, value: String) -> (r: Self)
        requires
            self.wf(),
        ensures
            r.wf(),
            r.operation == self.operation,
            r.component == self.component,
            r.details() == self.details().insert(key@, value),
    {
        let mut this = self;
        assoc_insert(&mut this.context, key, value);
        this
    }

    /// Add multiple context items
    pub fn with_contexts(self, contexts: Vec<(String, String)>) -> (r: Self)
        requires
            self.wf(),
        ensures
            r.wf(),
            r.operation == self.operation,
            r.component == self.component,
            r.details() == insert_all(self.details(), contexts@),
    {
        let mut this = self;
        let n = contexts.len();
        let mut i: usize = 0;
        while i < n
            invariant
                n == contexts@.len(),
                i <= n,
                this.wf(),
                this.operation == self.operation,
                this.component == self.component,
                this.details() == insert_all(self.details(), contexts@.subrange(0, i as int)),
            decreases n - i,
        {
            let key = contexts[i].0.clone();
            let value = contexts[i].1.clone();
            assoc_insert(&mut this.context, key, value);
            assert(contexts@.subrange(0, i + 1).drop_last() =~= contexts@.subrange(0, i as int));
            i = i + 1;
        }
        assert(contexts@.subrange(0, n as int) =~= contexts@);
        this
    }
}

/// `m` after inserting each pair of `s` in order, later pairs overriding earlier ones.
pub open spec fn insert_all(m: Map<Seq<char>, String>, s: Seq<(String, String)>) -> Map<Seq<char>, String>
    decreases s.len(),
{
    if s.len() == 0 {
        m
    } else {
        insert_all(m, s.drop_last()).insert(s.last().0@, s.last().1)
    }
}

/// Enhanced error with context
#[derive(Debug)]
pub struct ContextualError {
    /// The underlying error
    pub error: HybridError,
    /// Error context
    pub context: ErrorContext,
}

impl ContextualError {
    /// Create a new contextual error
    pub fn new(error: HybridError, context: ErrorContext) -> (r: Self)
        ensures
            r.error == error,
            r.context == context,
    {
        Self { error, context }
    }

    /// Get the underlying error
    pub fn inner(&self) -> (r: &HybridError)
        ensures
            *r == self.error,
    {
        &self.error
    }

    /// Get the error context
    pub fn context(&self) -> (r: &ErrorContext)
        ensures
            *r == self.context,
    {
        &self.context
    }

    /// The rendered contextual error.
    pub open spec fn display(&self) -> Seq<char> {
        "Error in "@ + self.context.operation@ + " ("@ + self.context.component@ + "): "@
            + self.error.display()
    }

    /// Renders the error with the operation and component it arose in.
    pub fn to_string(&self) -> (r: String)
        ensures
            r@ == self.display(),
    {
        let mut s = String::from_str("Error in ");
        s.append(self.context.operation.as_str());
        s.append(" (");
        s.append(self.context.component.as_str());
        s.append("): ");
        let e = self.error.to_string();
        s.append(e.as_str());
        s
    }
}

} // verus!
