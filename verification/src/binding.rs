//! The host's side of the bridge: what the host class is called and publishes,
//! how the arguments of a call are read, and what the host sees of a result.

use vstd::prelude::*;
use crate::flavor::{flavor_of_constant, Flavor, TS};
use crate::runner::{staged, Runner};
use crate::sequencer::{
    lemma_first_failure_wins, lemma_lifecycle_order, replay, result_of, Evaluation, Progress, Step,
};
use crate::source::SourceFile;

verus! {

/// The timeout of a call that names none, in seconds.
pub const NO_TIMEOUT: i64 = 0;

/// The object behind one instance of the host class.
#[derive(Debug)]
pub struct Deno {
    pub runner: Runner,
}

/// The arguments of one call, decoded.
#[derive(Debug)]
pub struct Request {
    /// The text to evaluate.
    pub source: String,
    /// The dialect of the text.
    pub flavor: Flavor,
    /// The timeout asked for, in seconds.
    pub timeout: u64,
}

/// What the host gets back from one call.
#[derive(Debug)]
pub struct Reply {
    /// The value put in the return slot.
    pub value: String,
    /// The message of the exception to raise, if the call failed.
    pub exception: Option<String>,
}

/// A [`Reply`] with its texts as sequences of characters.
pub struct ReplyView {
    pub value: Seq<char>,
    pub exception: Option<Seq<char>>,
}

impl View for Reply {
    type V = ReplyView;

    open spec fn view(&self) -> ReplyView {
        ReplyView {
            value: self.value@,
            exception: match self.exception {
                Some(message) => Some(message@),
                None => None,
            },
        }
    }
}

/// The dialect constant of a call: the one given, or the typed dialect's.
pub open spec fn flavor_argument(given: Option<i64>) -> i64 {
    match given {
        Some(code) => code,
        None => 3,
    }
}

/// The seconds that a host integer stands for: the integer itself where it is
/// not negative, and the unsigned number with the same 64 bits where it is.
pub open spec fn seconds_of(raw: i64) -> int {
    if raw >= 0 {
        raw as int
    } else {
        raw + 0x1_0000_0000_0000_0000
    }
}

/// The timeout of a call in seconds: that of the integer given, or none.
pub open spec fn timeout_argument(given: Option<i64>) -> int {
    match given {
        Some(raw) => seconds_of(raw),
        None => 0,
    }
}

/// What the host sees of a result: a value as it is and no exception; of a
/// failure its text as an exception, beside an empty value.
pub open spec fn reply_of(result: Result<Seq<char>, Seq<char>>) -> ReplyView {
    match result {
        Ok(value) => ReplyView { value, exception: None },
        Err(message) => ReplyView { value: Seq::empty(), exception: Some(message) },
    }
}

/// The name of the host class.
pub fn class_name() -> (name: String)
    ensures
        name@ == "Deno"@,
{
    "Deno".to_string()
}

/// The name of the class's one method.
pub fn method_name() -> (name: String)
    ensures
        name@ == "execute"@,
{
    "execute".to_string()
}

/// The name under which the host lists the extension.
pub fn module_name() -> (name: String)
    ensures
        name@ == "ext-deno"@,
{
    "ext-deno".to_string()
}

/// The version under which the host lists the extension.
pub fn module_version() -> (version: String)
    ensures
        version@ == "1.11.0"@,
{
    "1.11.0".to_string()
}

/// The seconds that a host integer stands for.
pub fn seconds(raw: i64) -> (secs: u64)
    ensures
        secs == seconds_of(raw),
        raw >= 0 ==> secs == raw,
{
    if raw >= 0 {
        raw as u64
    } else {
        let below: i64 = -(raw + 1);
        u64::MAX - (below as u64)
    }
}

impl Deno {
    /// The object around a bridge instance.
    pub fn new(runner: Runner) -> (object: Deno)
        ensures
            object.runner == runner,
    {
        Deno { runner }
    }

    /// Reads the arguments of one call. A call that names no dialect gets the
    /// typed one, and one that names no timeout gets none. Every integer is
    /// taken for either: one that is no dialect constant selects the typed
    /// dialect.
    pub fn decode(source: String, flavor: Option<i64>, timeout: Option<i64>) -> (request: Request)
        ensures
            request.source@ == source@,
            request.flavor == flavor_of_constant(flavor_argument(flavor)),
            request.timeout == timeout_argument(timeout),
    {
        let code: i64 = match flavor {
            Some(code) => code,
            None => TS,
        };
        let raw: i64 = match timeout {
            Some(raw) => raw,
            None => NO_TIMEOUT,
        };
        Request { source, flavor: Flavor::from_constant(code), timeout: seconds(raw) }
    }

    /// Opens the evaluation that one call asks for: reads the arguments, and
    /// gives the descriptor to stage and a fresh evaluation. Whatever the
    /// timeout, the descriptor and the steps are the same.
    pub fn execute(&self, source: String, flavor: Option<i64>, timeout: Option<i64>) -> (opened: (
        SourceFile,
        Evaluation,
    ))
        ensures
            opened.0@ == staged(self.runner@, source@, flavor_of_constant(flavor_argument(flavor))),
            opened.1@ == Progress::Pending(Step::ExecuteModule),
    {
        let request = Deno::decode(source, flavor, timeout);
        self.runner.run(request.source, request.flavor, request.timeout)
    }

    /// Turns the result of an evaluation into what the host sees. After a
    /// failure the return slot is still filled, with the empty text.
    pub fn reply(result: Result<String, String>) -> (reply: Reply)
        ensures
            reply@ == reply_of(
                match result {
                    Ok(value) => Ok(value@),
                    Err(message) => Err(message@),
                },
            ),
    {
        match result {
            Ok(value) => Reply { value, exception: None },
            Err(message) => Reply { value: String::new(), exception: Some(message) },
        }
    }
}

/// A call whose four steps succeed gives the host the empty text and raises
/// nothing. This holds for every dialect and every timeout: neither enters
/// the steps.
pub proof fn lemma_success_raises_nothing(outcomes: Seq<Result<(), Seq<char>>>)
    requires
        outcomes.len() >= 4,
        forall|i: int| 0 <= i < 4 ==> outcomes[i] is Ok,
    ensures
        result_of(replay(outcomes)) matches Some(result) && reply_of(result) == (ReplyView {
            value: Seq::empty(),
            exception: None,
        }),
{
    lemma_lifecycle_order(outcomes);
}

/// A call one of whose steps fails raises an exception with the text of the
/// first failure, and still fills the return slot with the empty text.
pub proof fn lemma_failure_raises_its_text(outcomes: Seq<Result<(), Seq<char>>>, k: int)
    requires
        0 <= k < 4,
        k < outcomes.len(),
        forall|i: int| 0 <= i < k ==> outcomes[i] is Ok,
        outcomes[k] is Err,
    ensures
        result_of(replay(outcomes)) matches Some(result) && reply_of(result) == (ReplyView {
            value: Seq::empty(),
            exception: Some(outcomes[k]->Err_0),
        }),
{
    lemma_first_failure_wins(outcomes, k);
}

} // verus!
