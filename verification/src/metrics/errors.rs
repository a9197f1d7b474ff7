//! What configuration and draining can refuse, and the messages that say so.

use vstd::prelude::*;

use crate::text::append_decimal;

verus! {

/// Why a configuration was refused.
#[derive(Clone, Copy, Debug, PartialEq, Eq, Structural)]
pub enum RequestMetricsConfigurationError {
    InvalidSamplePercentage { percentage: u32 },
    InvalidCapacity { capacity: usize },
    TooManyAllowedCustomCommands { count: usize },
    InvalidAllowedCustomCommand { index: usize },
    ConfigurationMismatch,
    NotConfigured,
}

impl RequestMetricsConfigurationError {
    /// The text of the message.
    pub open spec fn message_text(self) -> Seq<char> {
        match self {
            RequestMetricsConfigurationError::InvalidSamplePercentage { percentage } => {
                "sample percentage must be between 0 and 100, got "@ + crate::text::decimal(
                    percentage as nat,
                )
            },
            RequestMetricsConfigurationError::InvalidCapacity { capacity } => {
                "buffer capacity must be between 1 and 1,000,000, got "@ + crate::text::decimal(
                    capacity as nat,
                )
            },
            RequestMetricsConfigurationError::TooManyAllowedCustomCommands { count } => {
                "at most 64 custom commands are allowed, got "@ + crate::text::decimal(count as nat)
            },
            RequestMetricsConfigurationError::InvalidAllowedCustomCommand { index } => {
                "custom command at index "@ + crate::text::decimal(index as nat)
                    + " must match [A-Z0-9_.-]{1,64}"@
            },
            RequestMetricsConfigurationError::ConfigurationMismatch => {
                "request metrics are already configured with a different capacity or allow-list"@
            },
            RequestMetricsConfigurationError::NotConfigured => {
                "request metrics have not been configured"@
            },
        }
    }

    /// The message that is shown for the error.
    pub fn message(&self) -> (message: String)
        ensures
            message@ == self.message_text(),
    {
        match self {
            RequestMetricsConfigurationError::InvalidSamplePercentage { percentage } => {
                let mut text = "sample percentage must be between 0 and 100, got ".to_owned();
                append_decimal(&mut text, *percentage as u64);
                text
            },
            RequestMetricsConfigurationError::InvalidCapacity { capacity } => {
                let mut text = "buffer capacity must be between 1 and 1,000,000, got ".to_owned();
                append_decimal(&mut text, *capacity as u64);
                text
            },
            RequestMetricsConfigurationError::TooManyAllowedCustomCommands { count } => {
                let mut text = "at most 64 custom commands are allowed, got ".to_owned();
                append_decimal(&mut text, *count as u64);
                text
            },
            RequestMetricsConfigurationError::InvalidAllowedCustomCommand { index } => {
                let mut text = "custom command at index ".to_owned();
                append_decimal(&mut text, *index as u64);
                text.append(" must match [A-Z0-9_.-]{1,64}");
                text
            },
            RequestMetricsConfigurationError::ConfigurationMismatch => {
                "request metrics are already configured with a different capacity or allow-list".to_owned()
            },
            RequestMetricsConfigurationError::NotConfigured => {
                "request metrics have not been configured".to_owned()
            },
        }
    }
}

/// Why buffered samples could not be drained.
#[derive(Clone, Copy, Debug, PartialEq, Eq, Structural)]
pub enum RequestMetricsDrainError {
    ConsumerPoisoned,
}

impl RequestMetricsDrainError {
    /// The message that is shown for the error.
    pub fn message(&self) -> (message: String)
        ensures
            message@ == "request metrics consumer mutex is poisoned"@,
    {
        "request metrics consumer mutex is poisoned".to_owned()
    }
}

/// A refusal says what was refused, and with which number.
pub proof fn law_refusals_say_what_was_refused(error: RequestMetricsConfigurationError)
    ensures
        error matches RequestMetricsConfigurationError::InvalidSamplePercentage { percentage }
            ==> error.message_text() == "sample percentage must be between 0 and 100, got "@
            + crate::text::decimal(percentage as nat),
        error matches RequestMetricsConfigurationError::InvalidCapacity { capacity }
            ==> error.message_text() == "buffer capacity must be between 1 and 1,000,000, got "@
            + crate::text::decimal(capacity as nat),
        error matches RequestMetricsConfigurationError::TooManyAllowedCustomCommands { count }
            ==> error.message_text() == "at most 64 custom commands are allowed, got "@
            + crate::text::decimal(count as nat),
        error matches RequestMetricsConfigurationError::InvalidAllowedCustomCommand { index }
            ==> error.message_text() == "custom command at index "@ + crate::text::decimal(
            index as nat,
        ) + " must match [A-Z0-9_.-]{1,64}"@,
        error is ConfigurationMismatch ==> error.message_text()
            == "request metrics are already configured with a different capacity or allow-list"@,
        error is NotConfigured ==> error.message_text()
            == "request metrics have not been configured"@,
{
}

} // verus!
