//! What a command that ran to its end has to tell the user.

use vstd::prelude::*;
use vstd::string::*;
use crate::text::{join, joined};

verus! {

/// The weather that a provider forecasts for one location and one date. Each
/// value is held as the text under which it is shown.
#[derive(Clone, Debug, PartialEq, Eq)]
pub struct Forecast {
    pub min_t: String,
    pub max_t: String,
    pub avg_t: String,
    pub condition: String,
}

/// The result of a command.
#[derive(Clone, Debug, PartialEq, Eq)]
pub enum Report {
    /// The providers that the service offers, as it listed them.
    Providers { providers: Vec<String> },
    /// The provider that is configured from now on.
    Configured { provider: String },
    /// The forecast for the date that was asked for.
    Forecast { date: String, forecast: Forecast },
}

/// The text that tells the user the result of a command.
pub open spec fn report_text(report: Report) -> Seq<char> {
    match report {
        Report::Providers { providers } => "Available providers: "@ + joined(providers@, ", "@),
        Report::Configured { provider } => "Forecasts are now taken from the provider '"@
            + provider@ + "'."@,
        Report::Forecast { date, forecast } => "Weather on "@ + date@ + ":\nMin temperature: "@
            + forecast.min_t@ + "\nMax temperature: "@ + forecast.max_t@ + "\nAvg temperature: "@
            + forecast.avg_t@ + "\nWeather condition: "@ + forecast.condition@,
    }
}

impl Report {
    /// The text that tells the user this result.
    pub fn text(&self) -> (text: String)
        ensures
            text@ == report_text(*self),
    {
        match self {
            Report::Providers { providers } => {
                let mut text = String::from_str("Available providers: ");
                text.append(join(providers, ", ").as_str());
                text
            },
            Report::Configured { provider } => {
                let mut text = String::from_str("Forecasts are now taken from the provider '");
                text.append(provider.as_str());
                text.append("'.");
                text
            },
            Report::Forecast { date, forecast } => {
                let mut text = String::from_str("Weather on ");
                text.append(date.as_str());
                text.append(":\nMin temperature: ");
                text.append(forecast.min_t.as_str());
                text.append("\nMax temperature: ");
                text.append(forecast.max_t.as_str());
                text.append("\nAvg temperature: ");
                text.append(forecast.avg_t.as_str());
                text.append("\nWeather condition: ");
                text.append(forecast.condition.as_str());
                text
            },
        }
    }
}

} // verus!
