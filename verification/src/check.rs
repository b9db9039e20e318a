//! One version check, as a machine that is moved by what happens outside.
//!
//! A check reads the record of the last check, asks the registry, shows a
//! notice and writes a new record. None of that is done here. The machine
//! says which of these is to be done next, and decides, from what came of
//! it, how the check goes on. Whoever runs the machine carries out each
//! `Action` and hands back the `Event` that tells what came of it, until the
//! action is `Finish`.

use crate::error::{ErrorKind, ErrorText};
use crate::notice::{generate_notice, notice_text, REGISTRY_URL};
use crate::registry::{
    base_url_text, fetched_text, get_latest_version, latest_version_text, user_agent_text,
    versions_url_text, Fetched, RegistryClient, Request, ResponseText,
};
use crate::store::{app_name_text, check_is_due, get_app_name, is_due, Config};
use crate::time::{elapsed, utc_now, Interval, Timestamp};
use vstd::prelude::*;
use vstd::string::*;

verus! {

/// What a check is about: the package and the version of it that is
/// running, how long to wait between two checks, and the registry to ask.
#[derive(Clone, Debug, PartialEq, Eq)]
pub struct Inquiry {
    pub name: String,
    pub current_version: String,
    pub interval: Interval,
    pub client: RegistryClient,
}

/// An `Inquiry` with its text as sequences of characters.
pub struct InquiryText {
    pub name: Seq<char>,
    pub current_version: Seq<char>,
    pub interval: Interval,
    pub base_url: Seq<char>,
}

impl View for Inquiry {
    type V = InquiryText;

    open spec fn view(&self) -> InquiryText {
        InquiryText {
            name: self.name@,
            current_version: self.current_version@,
            interval: self.interval,
            base_url: self.client.base_url@,
        }
    }
}

/// How far a check has come.
#[derive(Clone, Debug, PartialEq, Eq)]
pub enum State {
    /// The record of the last check is being read. `asked_at` is the time
    /// at which the check was asked for.
    Reading { inquiry: Inquiry, asked_at: Timestamp },
    /// The registry is being asked.
    Fetching { inquiry: Inquiry },
    /// The new record is being written.
    Recording,
    /// The check is over.
    Done,
}

/// A `State` with its text as sequences of characters.
pub enum StateText {
    Reading { inquiry: InquiryText, asked_at: Timestamp },
    Fetching { inquiry: InquiryText },
    Recording,
    Done,
}

impl View for State {
    type V = StateText;

    open spec fn view(&self) -> StateText {
        match self {
            State::Reading { inquiry, asked_at } => StateText::Reading {
                inquiry: inquiry@,
                asked_at: *asked_at,
            },
            State::Fetching { inquiry } => StateText::Fetching { inquiry: inquiry@ },
            State::Recording => StateText::Recording,
            State::Done => StateText::Done,
        }
    }
}

/// What came of the last action.
#[derive(Debug, PartialEq, Eq)]
pub enum Event {
    /// The record was looked for: the record, or `None` where there is
    /// none or it could not be read.
    StateRead(Option<Config>),
    /// The registry was asked.
    Response(Fetched),
    /// The record was written, or the store's words on why it was not.
    StateWritten(Result<(), String>),
}

/// An `Event` with its text as sequences of characters.
pub enum EventText {
    StateRead(Option<Config>),
    Response(Result<ResponseText, Seq<char>>),
    StateWritten(Result<(), Seq<char>>),
}

impl View for Event {
    type V = EventText;

    open spec fn view(&self) -> EventText {
        match self {
            Event::StateRead(stored) => EventText::StateRead(*stored),
            Event::Response(fetched) => EventText::Response(fetched_text(*fetched)),
            Event::StateWritten(written) => EventText::StateWritten(
                match written {
                    Ok(()) => Ok(()),
                    Err(words) => Err(words@),
                },
            ),
        }
    }
}

/// What is to be done next.
#[derive(Debug, PartialEq, Eq)]
pub enum Action {
    /// Look for the record in the store named `app_name`.
    ReadState { app_name: String },
    /// Send `request` to the registry, once.
    Fetch { request: Request },
    /// Show `notice`, if there is one, on standard output; then write
    /// `config` to the store named `app_name`.
    Record { app_name: String, notice: Option<String>, config: Config },
    /// Return `outcome` to the caller.
    Finish { outcome: Result<(), ErrorKind> },
}

/// An `Action` with its text as sequences of characters.
pub enum ActionText {
    ReadState { app_name: Seq<char> },
    Fetch { url: Seq<char>, user_agent: Seq<char> },
    Record { app_name: Seq<char>, notice: Option<Seq<char>>, config: Config },
    Finish { outcome: Result<(), ErrorText> },
}

impl View for Action {
    type V = ActionText;

    open spec fn view(&self) -> ActionText {
        match self {
            Action::ReadState { app_name } => ActionText::ReadState { app_name: app_name@ },
            Action::Fetch { request } => ActionText::Fetch {
                url: request.url@,
                user_agent: request.user_agent@,
            },
            Action::Record { app_name, notice, config } => ActionText::Record {
                app_name: app_name@,
                notice: match notice {
                    Some(text) => Some(text@),
                    None => None,
                },
                config: *config,
            },
            Action::Finish { outcome } => ActionText::Finish {
                outcome: match outcome {
                    Ok(()) => Ok(()),
                    Err(error) => Err(error@),
                },
            },
        }
    }
}

/// The notice that is due when the registry lists `latest` while `current`
/// is running: none where the two are the same string, and else the notice
/// that names both. Versions are not ranked.
pub open spec fn notice_for(name: Seq<char>, current: Seq<char>, latest: Seq<char>) -> Option<
    Seq<char>,
> {
    if latest == current {
        None
    } else {
        Some(notice_text(name, current, latest))
    }
}

/// How a check starts at the time `now`: by looking for the record.
pub open spec fn start(inquiry: InquiryText, now: Timestamp) -> (StateText, ActionText) {
    (
        StateText::Reading { inquiry, asked_at: now },
        ActionText::ReadState { app_name: app_name_text(inquiry.name) },
    )
}

/// How a check goes on when `event` reaches it in `state`, `now` being the
/// time at which the event arrived.
///
/// - The record is read. Where a check is due the registry is asked; else
///   the check is over and has succeeded, with nothing asked and nothing
///   written.
/// - The registry is asked. Where that came to a version, the notice is
///   shown if the version is another one, and `now` is recorded either
///   way; else the check is over and has failed, with nothing written.
/// - The record is written. The check is over, and has failed where the
///   write has.
///
/// A state takes no event but the one it waits for: `None` for any other.
pub open spec fn transition(state: StateText, event: EventText, now: Timestamp) -> Option<
    (StateText, ActionText),
> {
    match (state, event) {
        (StateText::Reading { inquiry, asked_at }, EventText::StateRead(stored)) => Some(
            if check_is_due(stored, asked_at, inquiry.interval) {
                (
                    StateText::Fetching { inquiry },
                    ActionText::Fetch {
                        url: versions_url_text(inquiry.base_url, inquiry.name),
                        user_agent: user_agent_text(),
                    },
                )
            } else {
                (StateText::Done, ActionText::Finish { outcome: Ok(()) })
            },
        ),
        (StateText::Fetching { inquiry }, EventText::Response(fetched)) => Some(
            match latest_version_text(fetched) {
                Ok(latest) => (
                    StateText::Recording,
                    ActionText::Record {
                        app_name: app_name_text(inquiry.name),
                        notice: notice_for(inquiry.name, inquiry.current_version, latest),
                        config: Config { last_checked: now },
                    },
                ),
                Err(error) => (StateText::Done, ActionText::Finish { outcome: Err(error) }),
            },
        ),
        (StateText::Recording, EventText::StateWritten(written)) => Some(
            (
                StateText::Done,
                ActionText::Finish {
                    outcome: match written {
                        Ok(()) => Ok(()),
                        Err(words) => Err(ErrorText::Persistence(words)),
                    },
                },
            ),
        ),
        _ => None,
    }
}

/// A step of the machine with its text as sequences of characters.
pub open spec fn step_text(next: Option<(State, Action)>) -> Option<(StateText, ActionText)> {
    match next {
        Some((state, action)) => Some((state@, action@)),
        None => None,
    }
}

impl Inquiry {
    /// An inquiry with the public registry.
    pub fn new(name: &str, current_version: &str, interval: Interval) -> (inquiry: Inquiry)
        ensures
            inquiry@ == (InquiryText {
                name: name@,
                current_version: current_version@,
                interval,
                base_url: base_url_text(REGISTRY_URL@),
            }),
    {
        Inquiry {
            name: String::from_str(name),
            current_version: String::from_str(current_version),
            interval,
            client: RegistryClient::crates_io(),
        }
    }

    /// The same inquiry with another registry.
    pub fn with_client(self, client: RegistryClient) -> (inquiry: Inquiry)
        ensures
            inquiry@ == (InquiryText { base_url: client.base_url@, ..self@ }),
    {
        Inquiry {
            name: self.name,
            current_version: self.current_version,
            interval: self.interval,
            client,
        }
    }
}

/// Writes the notice that is due when the registry lists `latest_version`
/// while `current_version` is running, if one is due.
pub fn compare_with_latest(name: &str, current_version: &String, latest_version: &String) -> (notice:
    Option<String>)
    ensures
        match notice {
            Some(text) => Some(text@),
            None => None,
        } == notice_for(name@, current_version@, latest_version@),
{
    if *latest_version == *current_version {
        None
    } else {
        Some(generate_notice(name, current_version.as_str(), latest_version.as_str()))
    }
}

/// Starts a check at the time `now`.
pub fn begin_at(inquiry: Inquiry, now: Timestamp) -> (first: (State, Action))
    ensures
        (first.0@, first.1@) == start(inquiry@, now),
{
    let app_name = get_app_name(inquiry.name.as_str());
    (State::Reading { inquiry, asked_at: now }, Action::ReadState { app_name })
}

/// Starts a check at the time on the machine's clock.
pub fn begin(inquiry: Inquiry) -> (first: (State, Action))
    ensures
        exists|now: Timestamp| (first.0@, first.1@) == #[trigger] start(inquiry@, now),
{
    let now = utc_now();
    let first = begin_at(inquiry, now);
    assert((first.0@, first.1@) == start(inquiry@, now));
    first
}

/// Starts a check of the package `name`, of which `current_version` is
/// running, with the public registry: the first `State` and the first
/// `Action`. The check is skipped where the last one is younger than
/// `interval`.
pub fn check_version(name: &str, current_version: &str, interval: Interval) -> (first: (
    State,
    Action,
))
    ensures
        exists|now: Timestamp|
            (first.0@, first.1@) == #[trigger] start(
                InquiryText {
                    name: name@,
                    current_version: current_version@,
                    interval,
                    base_url: base_url_text(REGISTRY_URL@),
                },
                now,
            ),
{
    begin(Inquiry::new(name, current_version, interval))
}

/// Moves a check on: `event` reached it in `state` at the time `now`.
/// `None` where `state` does not wait for `event`.
pub fn step_at(state: State, event: Event, now: Timestamp) -> (next: Option<(State, Action)>)
    ensures
        step_text(next) == transition(state@, event@, now),
{
    match state {
        State::Reading { inquiry, asked_at } => match event {
            Event::StateRead(stored) => {
                if is_due(stored, asked_at, inquiry.interval) {
                    let request = inquiry.client.request(inquiry.name.as_str());
                    Some((State::Fetching { inquiry }, Action::Fetch { request }))
                } else {
                    Some((State::Done, Action::Finish { outcome: Ok(()) }))
                }
            },
            _ => None,
        },
        State::Fetching { inquiry } => match event {
            Event::Response(fetched) => match get_latest_version(&fetched) {
                Ok(latest) => {
                    let notice = compare_with_latest(
                        inquiry.name.as_str(),
                        &inquiry.current_version,
                        &latest,
                    );
                    let app_name = get_app_name(inquiry.name.as_str());
                    let config = Config { last_checked: now };
                    Some((State::Recording, Action::Record { app_name, notice, config }))
                },
                Err(error) => Some((State::Done, Action::Finish { outcome: Err(error) })),
            },
            _ => None,
        },
        State::Recording => match event {
            Event::StateWritten(written) => {
                let outcome = match written {
                    Ok(()) => Ok(()),
                    Err(words) => Err(ErrorKind::PersistenceError(words)),
                };
                Some((State::Done, Action::Finish { outcome }))
            },
            _ => None,
        },
        State::Done => None,
    }
}

/// Moves a check on: `event` reached it in `state` just now. The clock is
/// read when the registry's answer comes in, so that the time that is
/// recorded is that of the answer, not that of the question.
pub fn step(state: State, event: Event) -> (next: Option<(State, Action)>)
    ensures
        exists|now: Timestamp| step_text(next) == #[trigger] transition(state@, event@, now),
{
    let now = match state {
        State::Fetching { .. } => utc_now(),
        _ => Timestamp { seconds: 0, nanos: 0 },
    };
    let next = step_at(state, event, now);
    assert(step_text(next) == transition(state@, event@, now));
    next
}

/// What the surroundings answer in the course of one check: the clock when
/// the check is asked for, the store when the record is looked for, the
/// registry if it is asked, the clock when its answer is in, and the store
/// if the new record is written.
pub struct Answers {
    pub asked_at: Timestamp,
    pub stored: Option<Config>,
    pub fetched: Result<ResponseText, Seq<char>>,
    pub fetched_at: Timestamp,
    pub written: Result<(), Seq<char>>,
}

/// What one check did from start to finish: how many requests it sent, the
/// notice it showed, the record it handed to the store, and how it ended.
pub struct Course {
    pub requests: nat,
    pub notice: Option<Seq<char>>,
    pub recorded: Option<Config>,
    pub outcome: Result<(), ErrorText>,
}

/// A whole check: the machine is started and moved by what the
/// surroundings answer to each action, until it finishes. `None` if the
/// machine were ever to refuse the event that its own action asked for.
pub open spec fn run(inquiry: InquiryText, answers: Answers) -> Option<Course> {
    let first = start(inquiry, answers.asked_at);
    match transition(first.0, EventText::StateRead(answers.stored), answers.asked_at) {
        Some((fetching, ActionText::Fetch { .. })) => match transition(
            fetching,
            EventText::Response(answers.fetched),
            answers.fetched_at,
        ) {
            Some((recording, ActionText::Record { notice, config, .. })) => match transition(
                recording,
                EventText::StateWritten(answers.written),
                answers.fetched_at,
            ) {
                Some((_, ActionText::Finish { outcome })) => Some(
                    Course { requests: 1, notice, recorded: Some(config), outcome },
                ),
                _ => None,
            },
            Some((_, ActionText::Finish { outcome })) => Some(
                Course { requests: 1, notice: None, recorded: None, outcome },
            ),
            _ => None,
        },
        Some((_, ActionText::Finish { outcome })) => Some(
            Course { requests: 0, notice: None, recorded: None, outcome },
        ),
        _ => None,
    }
}

/// A check always comes to an end, and sends one request where a check is
/// due and none where it is not.
pub proof fn lemma_run_finishes(inquiry: InquiryText, answers: Answers)
    ensures
        run(inquiry, answers) is Some,
        run(inquiry, answers).unwrap().requests == (if check_is_due(
            answers.stored,
            answers.asked_at,
            inquiry.interval,
        ) {
            1nat
        } else {
            0nat
        }),
{
}

/// A check that is not due does nothing: no request, no notice, no record,
/// and it succeeds.
pub proof fn lemma_skipped_check_does_nothing(inquiry: InquiryText, answers: Answers)
    requires
        !check_is_due(answers.stored, answers.asked_at, inquiry.interval),
    ensures
        run(inquiry, answers) == Some(
            Course { requests: 0, notice: None, recorded: None, outcome: Ok(()) },
        ),
{
}

/// A check that does not come to a version fails with the reason, shows
/// nothing and leaves the record as it was, so that the next check asks
/// again.
pub proof fn lemma_failed_check_records_nothing(inquiry: InquiryText, answers: Answers)
    requires
        check_is_due(answers.stored, answers.asked_at, inquiry.interval),
        latest_version_text(answers.fetched) is Err,
    ensures
        run(inquiry, answers) == Some(
            Course {
                requests: 1,
                notice: None,
                recorded: None,
                outcome: Err(latest_version_text(answers.fetched)->Err_0),
            },
        ),
{
}

/// A check that comes to a version records the time at which the answer
/// came in, whether or not the version is the running one, and shows a
/// notice exactly if it is another.
pub proof fn lemma_answered_check_records_the_time(inquiry: InquiryText, answers: Answers)
    requires
        check_is_due(answers.stored, answers.asked_at, inquiry.interval),
        latest_version_text(answers.fetched) is Ok,
    ensures
        run(inquiry, answers) is Some,
        run(inquiry, answers).unwrap().recorded == Some(
            Config { last_checked: answers.fetched_at },
        ),
        run(inquiry, answers).unwrap().notice == notice_for(
            inquiry.name,
            inquiry.current_version,
            latest_version_text(answers.fetched)->Ok_0,
        ),
        run(inquiry, answers).unwrap().notice is None <==> latest_version_text(answers.fetched)
            == Ok::<Seq<char>, ErrorText>(inquiry.current_version),
        run(inquiry, answers).unwrap().outcome is Ok <==> answers.written is Ok,
{
}

/// The boundary counts: a check is due as soon as the record is exactly
/// `interval` old.
pub proof fn lemma_check_is_due_at_the_boundary(inquiry: InquiryText, answers: Answers)
    requires
        answers.stored is Some,
        elapsed(answers.stored.unwrap().last_checked, answers.asked_at)
            == inquiry.interval.length(),
    ensures
        run(inquiry, answers) is Some,
        run(inquiry, answers).unwrap().requests == 1,
{
}

/// Without a record the registry is asked, however long the interval.
pub proof fn lemma_first_check_asks(inquiry: InquiryText, answers: Answers)
    requires
        answers.stored is None,
    ensures
        run(inquiry, answers) is Some,
        run(inquiry, answers).unwrap().requests == 1,
{
}

/// Two checks in a row send one request between them: where the first asks
/// the registry, comes to a version and has its record written, a second
/// check of the same inquiry that finds this record, and starts before
/// `interval` has passed since, sends none.
pub proof fn lemma_second_check_is_throttled(
    inquiry: InquiryText,
    first: Answers,
    second: Answers,
)
    requires
        check_is_due(first.stored, first.asked_at, inquiry.interval),
        latest_version_text(first.fetched) is Ok,
        first.written is Ok,
        second.stored == run(inquiry, first).unwrap().recorded,
        elapsed(first.fetched_at, second.asked_at) < inquiry.interval.length(),
    ensures
        run(inquiry, first) is Some,
        run(inquiry, second) is Some,
        run(inquiry, first).unwrap().requests + run(inquiry, second).unwrap().requests == 1,
        run(inquiry, second).unwrap().recorded is None,
{
}

} // verus!
