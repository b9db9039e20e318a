//! The registry's side of a version check: the request for the versions of a
//! package, and what its answer means.

use crate::error::{ErrorKind, ErrorText};
use crate::notice::REGISTRY_URL;
use vstd::prelude::*;
use vstd::string::*;

verus! {

/// One release in the registry's answer.
#[derive(Clone, Debug, PartialEq, Eq)]
pub struct Version {
    pub num: String,
}

/// One complaint in the registry's answer.
#[derive(Clone, Debug, PartialEq, Eq)]
pub struct JsonError {
    pub detail: String,
}

/// The registry's answer, decoded. Either list may be missing; the registry
/// lists the newest release first.
#[derive(Clone, Debug, PartialEq, Eq)]
pub struct VersionResponse {
    pub versions: Option<Vec<Version>>,
    pub errors: Option<Vec<JsonError>>,
}

/// A `VersionResponse` as the version numbers and the complaints that it
/// lists, in order.
pub struct ResponseText {
    pub versions: Option<Seq<Seq<char>>>,
    pub errors: Option<Seq<Seq<char>>>,
}

impl View for Version {
    type V = Seq<char>;

    open spec fn view(&self) -> Seq<char> {
        self.num@
    }
}

impl View for JsonError {
    type V = Seq<char>;

    open spec fn view(&self) -> Seq<char> {
        self.detail@
    }
}

impl View for VersionResponse {
    type V = ResponseText;

    open spec fn view(&self) -> ResponseText {
        ResponseText {
            versions: match self.versions {
                Some(versions) => Some(versions@.map_values(|version: Version| version@)),
                None => None,
            },
            errors: match self.errors {
                Some(errors) => Some(errors@.map_values(|error: JsonError| error@)),
                None => None,
            },
        }
    }
}

/// What a request came to: the decoded answer, or the words of whatever
/// kept the answer from arriving or from being decoded.
pub type Fetched = Result<VersionResponse, String>;

/// The outcome of a look-up with its text as sequences of characters.
pub open spec fn outcome_text(outcome: Result<String, ErrorKind>) -> Result<Seq<char>, ErrorText> {
    match outcome {
        Ok(version) => Ok(version@),
        Err(error) => Err(error@),
    }
}

/// A `Fetched` with its text as sequences of characters.
pub open spec fn fetched_text(fetched: Fetched) -> Result<ResponseText, Seq<char>> {
    match fetched {
        Ok(response) => Ok(response@),
        Err(words) => Err(words@),
    }
}

/// What an answer means. The list of versions is looked at first, so that a
/// version wins over an error should an answer hold both: the first version
/// is the latest. Without a list of versions, the first error is the
/// registry's complaint. An empty list, and an answer without either list,
/// is malformed.
pub open spec fn interpret(response: ResponseText) -> Result<Seq<char>, ErrorText> {
    match response.versions {
        Some(versions) => if versions.len() == 0 {
            Err(ErrorText::Malformed("versions array is empty"@))
        } else {
            Ok(versions[0])
        },
        None => match response.errors {
            Some(errors) => if errors.len() == 0 {
                Err(ErrorText::Malformed("errors array is empty"@))
            } else {
                Err(ErrorText::Registry(errors[0]))
            },
            None => Err(ErrorText::Malformed("response has neither versions nor errors"@)),
        },
    }
}

/// What a request means: an answer is interpreted, and a failure of the
/// transport is passed on with its words unchanged.
pub open spec fn latest_version_text(fetched: Result<ResponseText, Seq<char>>) -> Result<
    Seq<char>,
    ErrorText,
> {
    match fetched {
        Ok(response) => interpret(response),
        Err(words) => Err(ErrorText::Transport(words)),
    }
}

/// Where the registry at `registry_url` keeps its packages.
pub open spec fn base_url_text(registry_url: Seq<char>) -> Seq<char> {
    registry_url + "/api/v1/crates"@
}

/// Where the versions of the package `crate_name` are listed.
pub open spec fn versions_url_text(base_url: Seq<char>, crate_name: Seq<char>) -> Seq<char> {
    base_url + "/"@ + crate_name + "/versions"@
}

/// The header line by which every request names its sender.
pub open spec fn user_agent_text() -> Seq<char> {
    "User-Agent: Update-notifier (teshaq@mozilla.com)"@
}

/// A request for the versions of one package: one `GET` of `url` with the
/// header line `user_agent`.
#[derive(Clone, Debug, PartialEq, Eq)]
pub struct Request {
    pub url: String,
    pub user_agent: String,
}

/// The registry that is asked, by the address under which it keeps its
/// packages.
#[derive(Clone, Debug, PartialEq, Eq)]
pub struct RegistryClient {
    pub base_url: String,
}

/// The address under which the public registry keeps its packages.
pub fn get_base_url() -> (base_url: String)
    ensures
        base_url@ == base_url_text(REGISTRY_URL@),
{
    let mut base_url = String::from_str(REGISTRY_URL);
    base_url.append("/api/v1/crates");
    base_url
}

impl RegistryClient {
    /// A client of the registry that keeps its packages under `base_url`:
    /// the public one, or a stand-in.
    pub fn new(base_url: String) -> (client: RegistryClient)
        ensures
            client.base_url@ == base_url@,
    {
        RegistryClient { base_url }
    }

    /// A client of the public registry.
    pub fn crates_io() -> (client: RegistryClient)
        ensures
            client.base_url@ == base_url_text(REGISTRY_URL@),
    {
        RegistryClient { base_url: get_base_url() }
    }

    /// The one request that asks for the versions of `crate_name`.
    pub fn request(&self, crate_name: &str) -> (request: Request)
        ensures
            request.url@ == versions_url_text(self.base_url@, crate_name@),
            request.user_agent@ == user_agent_text(),
    {
        let mut url = self.base_url.clone();
        url.append("/");
        url.append(crate_name);
        url.append("/versions");
        Request { url, user_agent: String::from_str("User-Agent: Update-notifier (teshaq@mozilla.com)") }
    }
}

/// Reads the latest version, or the reason why there is none, off a decoded
/// answer.
pub fn get_latest_from_json(resp: &VersionResponse) -> (outcome: Result<String, ErrorKind>)
    ensures
        outcome_text(outcome) == interpret(resp@),
{
    match &resp.versions {
        Some(versions) => {
            if versions.len() == 0 {
                Err(ErrorKind::MalformedResponse(String::from_str("versions array is empty")))
            } else {
                Ok(versions[0].num.clone())
            }
        },
        None => match &resp.errors {
            Some(errors) => {
                if errors.len() == 0 {
                    Err(ErrorKind::MalformedResponse(String::from_str("errors array is empty")))
                } else {
                    Err(ErrorKind::RegistryError(errors[0].detail.clone()))
                }
            },
            None => Err(
                ErrorKind::MalformedResponse(
                    String::from_str("response has neither versions nor errors"),
                ),
            ),
        },
    }
}

/// Reads the latest version, or the reason why there is none, off what a
/// request came to.
pub fn get_latest_version(fetched: &Fetched) -> (outcome: Result<String, ErrorKind>)
    ensures
        outcome_text(outcome) == latest_version_text(fetched_text(*fetched)),
{
    match fetched {
        Ok(response) => get_latest_from_json(response),
        Err(words) => Err(ErrorKind::TransportError(words.clone())),
    }
}

/// Where an answer lists versions, the first of them is the latest,
/// however many follow and whatever else the answer holds.
pub proof fn lemma_first_version_is_latest(response: ResponseText)
    requires
        response.versions is Some,
        response.versions.unwrap().len() > 0,
    ensures
        interpret(response) == Ok::<Seq<char>, ErrorText>(response.versions.unwrap()[0]),
{
}

/// Where an answer lists no versions at all but lists errors, the check
/// fails with the first of them, word for word.
pub proof fn lemma_first_error_is_reported(response: ResponseText)
    requires
        response.versions is None,
        response.errors is Some,
        response.errors.unwrap().len() > 0,
    ensures
        interpret(response) == Err::<Seq<char>, ErrorText>(
            ErrorText::Registry(response.errors.unwrap()[0]),
        ),
{
}

/// An answer whose list of versions is empty, one without versions whose
/// list of errors is empty, and one with neither list, is malformed.
pub proof fn lemma_empty_answer_is_malformed(response: ResponseText)
    requires
        match response.versions {
            Some(versions) => versions.len() == 0,
            None => match response.errors {
                Some(errors) => errors.len() == 0,
                None => true,
            },
        },
    ensures
        interpret(response) matches Err(ErrorText::Malformed(_)),
{
}

/// An answer never means two things: it comes to a version or to an error,
/// and which one is fixed by what it lists.
pub proof fn lemma_answer_is_never_ambiguous(response: ResponseText)
    ensures
        interpret(response) is Ok <==> (response.versions is Some && response.versions.unwrap().len()
            > 0),
        interpret(response) matches Err(ErrorText::Registry(_)) <==> (response.versions is None
            && response.errors is Some && response.errors.unwrap().len() > 0),
        interpret(response) is Ok || interpret(response) matches Err(ErrorText::Registry(_))
            || interpret(response) matches Err(ErrorText::Malformed(_)),
{
}

} // verus!
