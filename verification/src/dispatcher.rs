//! The order in which a command reads the configuration, calls the weather
//! service and asks the user.
//!
//! Nothing here waits for anything. [`dispatch`] says what a command needs
//! first, as an [`Action`]. An action that asks for something holds the
//! pending state of the command; once the caller has what was asked for, the
//! state's `resume` takes it and gives the next action. [`Action::Done`] and
//! [`Action::Failed`] hold no state: the command is over.

use vstd::prelude::*;
use vstd::string::*;
use crate::config::{
    general_section,
    provider_name,
    set_provider_name,
    stored,
    PROVIDER_NAME_KEY,
};
use crate::error::WorkflowError;
use crate::location::Location;
use crate::report::{Forecast, Report};
use crate::resolver::{
    get_location_for_forecast,
    line_text,
    option_lines,
    option_text,
    resolution,
    read_selection,
    selection,
    InvalidSelectionInput,
    Resolution,
    MAX_CANDIDATES,
};

verus! {

/// What the user asked the client to do.
#[derive(Clone, Debug, PartialEq, Eq)]
pub enum Command {
    /// List the providers that the service offers.
    ListProviders,
    /// Make `provider` the provider that forecasts are taken from.
    Configure { provider: String },
    /// Get the forecast for the place that `address_query` describes, on
    /// `date`.
    GetForecast { address_query: String, date: String },
}

/// What the list of providers is wanted for.
#[derive(Clone, Debug, PartialEq, Eq)]
pub enum Purpose {
    /// To show it.
    List,
    /// To check `provider` against it, and to configure that provider.
    Configure { provider: String },
}

/// A command that waits for the list of providers.
#[derive(Clone, Debug, PartialEq, Eq)]
pub struct AwaitingProviders {
    pub purpose: Purpose,
}

/// A forecast command that waits for the matches of its location search.
#[derive(Clone, Debug, PartialEq, Eq)]
pub struct AwaitingLocations {
    pub provider: String,
    pub query: String,
    pub date: String,
}

/// A forecast command that waits for the user to pick one of the
/// candidates. `retry` says that the line entered last picked none.
#[derive(Clone, Debug, PartialEq, Eq)]
pub struct AwaitingChoice {
    pub provider: String,
    pub candidates: Vec<Location>,
    pub date: String,
    pub retry: bool,
}

/// A forecast command that waits for the forecast of `provider` for
/// `location` on `date`. `position` is the place that the location had among
/// the matches of the search, for a caller that holds more of each match
/// than this library reads.
#[derive(Clone, Debug, PartialEq, Eq)]
pub struct AwaitingWeather {
    pub provider: String,
    pub location: Location,
    pub position: usize,
    pub date: String,
}

/// A configure command that waits for the configuration to be written.
#[derive(Clone, Debug, PartialEq, Eq)]
pub struct AwaitingPersist {
    pub provider: String,
}

/// What has to happen next for a command.
#[derive(Clone, Debug, PartialEq, Eq)]
pub enum Action {
    /// Ask the service for its providers.
    ListProviders(AwaitingProviders),
    /// Ask the service for the locations that match the query.
    SearchLocations(AwaitingLocations),
    /// Show the candidates and read one line from the user.
    ChooseLocation(AwaitingChoice),
    /// Ask the service for the forecast.
    GetWeather(AwaitingWeather),
    /// Write the configuration to where it is kept.
    PersistConfig(AwaitingPersist),
    /// The command is over; this is its result.
    Done(Report),
    /// The command is over; this is why it has no result.
    Failed(WorkflowError),
}

/// Whether an action is a call to the weather service.
pub open spec fn calls_service(action: Action) -> bool {
    action is ListProviders || action is SearchLocations || action is GetWeather
}

/// Whether `name` is one of the providers, letter for letter.
pub open spec fn offers(providers: Seq<String>, name: Seq<char>) -> bool {
    exists|i: int| 0 <= i < providers.len() && (#[trigger] providers[i])@ == name
}

/// What follows the matches of the location search, or the failure of the
/// search.
pub open spec fn after_locations(
    pending: AwaitingLocations,
    reply: Result<Vec<Location>, String>,
) -> Action {
    match reply {
        Err(cause) => Action::Failed(WorkflowError::RemoteCallFailed { cause }),
        Ok(locations) => match resolution(pending.query, locations) {
            Err(error) => Action::Failed(error),
            Ok(Resolution::Unique(location)) => Action::GetWeather(
                AwaitingWeather {
                    provider: pending.provider,
                    location,
                    position: 0,
                    date: pending.date,
                },
            ),
            Ok(Resolution::Ambiguous(candidates)) => Action::ChooseLocation(
                AwaitingChoice {
                    provider: pending.provider,
                    candidates,
                    date: pending.date,
                    retry: false,
                },
            ),
        },
    }
}

/// What follows the forecast, or the failure to get it.
pub open spec fn after_weather(pending: AwaitingWeather, reply: Result<Forecast, String>) -> Action {
    match reply {
        Err(cause) => Action::Failed(WorkflowError::RemoteCallFailed { cause }),
        Ok(forecast) => Action::Done(Report::Forecast { date: pending.date, forecast }),
    }
}

/// What follows the writing of the configuration, or the failure to write
/// it.
pub open spec fn after_persist(pending: AwaitingPersist, reply: Result<(), String>) -> Action {
    match reply {
        Err(cause) => Action::Failed(WorkflowError::ConfigPersistFailed { cause }),
        Ok(_) => Action::Done(Report::Configured { provider: pending.provider }),
    }
}

fn is_offered(providers: &Vec<String>, provider: &String) -> (found: bool)
    ensures
        found == offers(providers@, provider@),
{
    let mut i: usize = 0;
    while i < providers.len()
        invariant
            i <= providers@.len(),
            forall|k: int| 0 <= k < i ==> (#[trigger] providers@[k])@ != provider@,
        decreases providers@.len() - i,
    {
        if providers[i] == *provider {
            return true;
        }
        i = i + 1;
    }
    false
}

/// Says what `command` needs first.
///
/// Listing and configuring both start by asking the service for its
/// providers. A forecast needs a configured provider before anything else:
/// where the configuration names none, the command fails here, before any
/// call to the service.
pub fn dispatch(command: Command, conf: &ini::Ini) -> (action: Action)
    ensures
        match command {
            Command::ListProviders => action == Action::ListProviders(
                AwaitingProviders { purpose: Purpose::List },
            ),
            Command::Configure { provider } => action == Action::ListProviders(
                AwaitingProviders { purpose: Purpose::Configure { provider } },
            ),
            Command::GetForecast { address_query, date } => match stored(
                *conf,
                PROVIDER_NAME_KEY@,
            ) {
                None => action == Action::Failed(WorkflowError::ProviderNotConfigured),
                Some(name) => {
                    &&& action matches Action::SearchLocations(pending)
                    &&& pending.provider@ == name
                    &&& pending.query == address_query
                    &&& pending.date == date
                },
            },
        },
        command is GetForecast && stored(*conf, PROVIDER_NAME_KEY@) is None ==> !calls_service(
            action,
        ),
{
    match command {
        Command::ListProviders => Action::ListProviders(
            AwaitingProviders { purpose: Purpose::List },
        ),
        Command::Configure { provider } => Action::ListProviders(
            AwaitingProviders { purpose: Purpose::Configure { provider } },
        ),
        Command::GetForecast { address_query, date } => match provider_name(conf) {
            None => Action::Failed(WorkflowError::ProviderNotConfigured),
            Some(provider) => Action::SearchLocations(
                AwaitingLocations { provider, query: address_query, date },
            ),
        },
    }
}

impl AwaitingProviders {
    /// Takes the providers that the service listed, or the cause for which
    /// the call failed.
    ///
    /// A list that was wanted for showing is the command's result. One that
    /// was wanted for configuring decides whether the provider is known: a
    /// known provider is stored in `conf`, which then has to be written; an
    /// unknown one fails the command with the list, and `conf` stays as it
    /// was. A provider is known when the list holds its name letter for
    /// letter.
    pub fn resume(self, reply: Result<Vec<String>, String>, conf: &mut ini::Ini) -> (action: Action)
        ensures
            match reply {
                Err(cause) => {
                    &&& action == Action::Failed(WorkflowError::RemoteCallFailed { cause })
                    &&& *final(conf) == *old(conf)
                },
                Ok(providers) => match self.purpose {
                    Purpose::List => {
                        &&& action == Action::Done(Report::Providers { providers })
                        &&& *final(conf) == *old(conf)
                    },
                    Purpose::Configure { provider } => if offers(providers@, provider@) {
                        &&& action == Action::PersistConfig(AwaitingPersist { provider })
                        &&& general_section(*final(conf)) == general_section(*old(conf)).insert(
                            PROVIDER_NAME_KEY@,
                            provider@,
                        )
                        &&& stored(*final(conf), PROVIDER_NAME_KEY@) == Some(provider@)
                    } else {
                        &&& action == Action::Failed(
                            WorkflowError::UnknownProvider { provider, valid: providers },
                        )
                        &&& *final(conf) == *old(conf)
                    },
                },
            },
    {
        match reply {
            Err(cause) => Action::Failed(WorkflowError::RemoteCallFailed { cause }),
            Ok(providers) => match self.purpose {
                Purpose::List => Action::Done(Report::Providers { providers }),
                Purpose::Configure { provider } => {
                    if is_offered(&providers, &provider) {
                        set_provider_name(conf, provider.as_str());
                        Action::PersistConfig(AwaitingPersist { provider })
                    } else {
                        Action::Failed(
                            WorkflowError::UnknownProvider { provider, valid: providers },
                        )
                    }
                },
            },
        }
    }
}

impl AwaitingLocations {
    /// Takes the matches of the location search, or the cause for which the
    /// call failed.
    ///
    /// One match goes on to the forecast without asking anybody. Two to
    /// [`MAX_CANDIDATES`](crate::resolver::MAX_CANDIDATES) matches are put
    /// before the user. No match, or more than that, fails the command.
    pub fn resume(self, reply: Result<Vec<Location>, String>) -> (action: Action)
        ensures
            action == after_locations(self, reply),
    {
        match reply {
            Err(cause) => Action::Failed(WorkflowError::RemoteCallFailed { cause }),
            Ok(locations) => match get_location_for_forecast(self.query, locations) {
                Err(error) => Action::Failed(error),
                Ok(Resolution::Unique(location)) => Action::GetWeather(
                    AwaitingWeather {
                        provider: self.provider,
                        location,
                        position: 0,
                        date: self.date,
                    },
                ),
                Ok(Resolution::Ambiguous(candidates)) => Action::ChooseLocation(
                    AwaitingChoice {
                        provider: self.provider,
                        candidates,
                        date: self.date,
                        retry: false,
                    },
                ),
            },
        }
    }
}

impl AwaitingChoice {
    /// What follows a line of input from the user.
    pub open spec fn after_line(self, line: Option<Seq<char>>) -> Action {
        match selection(line, self.candidates@.len()) {
            Ok(index) => Action::GetWeather(
                AwaitingWeather {
                    provider: self.provider,
                    location: self.candidates@[index],
                    position: index as usize,
                    date: self.date,
                },
            ),
            Err(_) => Action::ChooseLocation(
                AwaitingChoice {
                    provider: self.provider,
                    candidates: self.candidates,
                    date: self.date,
                    retry: true,
                },
            ),
        }
    }

    /// What follows the lines that the user enters one after the other, up
    /// to the first line that picks a candidate.
    pub open spec fn after_lines(self, lines: Seq<Option<Seq<char>>>) -> Action
        decreases lines.len(),
    {
        if lines.len() == 0 {
            Action::ChooseLocation(self)
        } else {
            match self.after_line(lines.first()) {
                Action::ChooseLocation(again) => again.after_lines(lines.drop_first()),
                next => next,
            }
        }
    }

    /// The line that asks the user to pick a candidate.
    pub open spec fn prompt_text(self) -> Seq<char> {
        if self.retry {
            "That is not the index of a location, try again:"@
        } else {
            "Several locations found, choose one by its index:"@
        }
    }

    /// The line that asks the user to pick a candidate: at first for a
    /// choice, and after a line that picked none for another try.
    pub fn prompt(&self) -> (text: &'static str)
        ensures
            text@ == self.prompt_text(),
    {
        if self.retry {
            "That is not the index of a location, try again:"
        } else {
            "Several locations found, choose one by its index:"
        }
    }

    /// The lines under which the candidates are shown to the user: one for
    /// each candidate, in the order of the search, each under the index that
    /// picks it.
    pub fn options(&self) -> (lines: Vec<String>)
        ensures
            lines@.len() == self.candidates@.len(),
            forall|i: int|
                0 <= i < self.candidates@.len() ==> (#[trigger] lines@[i])@ == option_text(
                    i as nat,
                    self.candidates@[i],
                ),
    {
        option_lines(&self.candidates)
    }

    /// Takes the line that the user entered, or `None` where no line could
    /// be read.
    ///
    /// A line that names the index of a candidate goes on to the forecast for
    /// that candidate. Any other line asks again, with the same candidates.
    pub fn resume(self, line: Option<&str>) -> (action: Action)
        ensures
            action == self.after_line(line_text(line)),
    {
        match read_selection(self.candidates.len(), line) {
            Ok(position) => {
                let mut candidates = self.candidates;
                let location = candidates.remove(position);
                Action::GetWeather(
                    AwaitingWeather { provider: self.provider, location, position, date: self.date },
                )
            },
            Err(_) => Action::ChooseLocation(
                AwaitingChoice {
                    provider: self.provider,
                    candidates: self.candidates,
                    date: self.date,
                    retry: true,
                },
            ),
        }
    }
}

impl AwaitingWeather {
    /// Takes the forecast, or the cause for which the call failed. The
    /// forecast is reported under the date that was asked for.
    pub fn resume(self, reply: Result<Forecast, String>) -> (action: Action)
        ensures
            action == after_weather(self, reply),
    {
        match reply {
            Err(cause) => Action::Failed(WorkflowError::RemoteCallFailed { cause }),
            Ok(forecast) => Action::Done(Report::Forecast { date: self.date, forecast }),
        }
    }
}

impl AwaitingPersist {
    /// Takes the outcome of writing the configuration: nothing where it was
    /// written, else the cause for which it was not.
    pub fn resume(self, reply: Result<(), String>) -> (action: Action)
        ensures
            action == after_persist(self, reply),
    {
        match reply {
            Err(cause) => Action::Failed(WorkflowError::ConfigPersistFailed { cause }),
            Ok(_) => Action::Done(Report::Configured { provider: self.provider }),
        }
    }
}

/// The number of matches alone decides what follows a location search that
/// was answered: none fails the command and calls nothing further, one goes
/// on to the forecast for that match with no line read, two to
/// [`MAX_CANDIDATES`] put exactly those matches before the user, and more
/// fail the command.
pub proof fn lemma_match_count_decides(pending: AwaitingLocations, locations: Vec<Location>)
    ensures
        ({
            let next = after_locations(pending, Ok(locations));
            let found = locations@.len();
            &&& found == 0 ==> next == Action::Failed(
                WorkflowError::NoLocationFound { query: pending.query },
            ) && !calls_service(next)
            &&& found == 1 ==> next == Action::GetWeather(
                AwaitingWeather {
                    provider: pending.provider,
                    location: locations@[0],
                    position: 0,
                    date: pending.date,
                },
            )
            &&& 2 <= found <= MAX_CANDIDATES ==> next == Action::ChooseLocation(
                AwaitingChoice {
                    provider: pending.provider,
                    candidates: locations,
                    date: pending.date,
                    retry: false,
                },
            )
            &&& found > MAX_CANDIDATES ==> next == Action::Failed(
                WorkflowError::AmbiguityOverflow { found: found as usize },
            )
            &&& next is ChooseLocation <==> 2 <= found <= MAX_CANDIDATES
        }),
{
}

/// However many lines are rejected, the candidates stay as they were, and
/// the first line that names the index of a candidate goes on to the
/// forecast for the candidate at that index.
pub proof fn lemma_rejected_lines_then_accepted(
    pending: AwaitingChoice,
    rejected: Seq<Option<Seq<char>>>,
    accepted: Option<Seq<char>>,
    index: int,
)
    requires
        forall|k: int|
            0 <= k < rejected.len() ==> selection(
                #[trigger] rejected[k],
                pending.candidates@.len(),
            ) is Err,
        selection(accepted, pending.candidates@.len()) == Ok::<int, InvalidSelectionInput>(index),
    ensures
        pending.after_lines(rejected) matches Action::ChooseLocation(still)
            && still.candidates == pending.candidates,
        pending.after_lines(rejected.push(accepted)) == Action::GetWeather(
            AwaitingWeather {
                provider: pending.provider,
                location: pending.candidates@[index],
                position: index as usize,
                date: pending.date,
            },
        ),
    decreases rejected.len(),
{
    if rejected.len() > 0 {
        let rest = rejected.drop_first();
        let again = AwaitingChoice {
            provider: pending.provider,
            candidates: pending.candidates,
            date: pending.date,
            retry: true,
        };
        assert(rejected.push(accepted).drop_first() =~= rest.push(accepted));
        assert forall|k: int| 0 <= k < rest.len() implies selection(
            #[trigger] rest[k],
            again.candidates@.len(),
        ) is Err by {
            assert(rest[k] == rejected[k + 1]);
        }
        lemma_rejected_lines_then_accepted(again, rest, accepted, index);
    }
}

} // verus!
