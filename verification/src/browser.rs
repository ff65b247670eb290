//! Opening a page outside the window: in Chrome where that works, else in
//! the default browser.
//!
//! The opener names one run of the system's `open` command at a time and is
//! told how the run went.

use crate::locator::spec_texts;
use vstd::prelude::*;
use vstd::string::*;

verus! {

/// The command that opens addresses and applications.
pub const OPEN_PROGRAM: &'static str = "open";

/// The opener's state: the attempt that is due, with the address to open,
/// or the result.
#[derive(Debug, PartialEq, Eq)]
pub enum BrowserOpener {
    Chrome(String),
    Fallback(String),
    Done(Result<(), String>),
}

/// A `BrowserOpener` as a mathematical value.
pub ghost enum BrowserOpenerView {
    Chrome(Seq<char>),
    Fallback(Seq<char>),
    Done(Result<(), Seq<char>>),
}

impl View for BrowserOpener {
    type V = BrowserOpenerView;

    open spec fn view(&self) -> BrowserOpenerView {
        match *self {
            BrowserOpener::Chrome(url) => BrowserOpenerView::Chrome(url@),
            BrowserOpener::Fallback(url) => BrowserOpenerView::Fallback(url@),
            BrowserOpener::Done(Ok(_)) => BrowserOpenerView::Done(Ok(())),
            BrowserOpener::Done(Err(message)) => BrowserOpenerView::Done(Err(message@)),
        }
    }
}

/// What the opener asks of the host, or its result.
#[derive(Debug, PartialEq, Eq)]
pub enum OpenAction {
    /// Run the `open` command with these arguments and wait for it.
    Run(Vec<String>),
    /// Nothing more to ask.
    Done(Result<(), String>),
}

/// An `OpenAction` as a mathematical value.
pub ghost enum OpenActionView {
    Run(Seq<Seq<char>>),
    Done(Result<(), Seq<char>>),
}

impl View for OpenAction {
    type V = OpenActionView;

    open spec fn view(&self) -> OpenActionView {
        match *self {
            OpenAction::Run(args) => OpenActionView::Run(spec_texts(args@)),
            OpenAction::Done(Ok(_)) => OpenActionView::Done(Ok(())),
            OpenAction::Done(Err(message)) => OpenActionView::Done(Err(message@)),
        }
    }
}

/// How a run went: whether the command reported success, or why it could
/// not be run at all.
pub open spec fn spec_run_view(outcome: Result<bool, String>) -> Result<bool, Seq<char>> {
    match outcome {
        Ok(success) => Ok(success),
        Err(detail) => Err(detail@),
    }
}

/// The opener's first state for the address `url`.
pub open spec fn spec_new(url: Seq<char>) -> BrowserOpenerView {
    BrowserOpenerView::Chrome(url)
}

/// What the opener in state `b` asks next.
pub open spec fn spec_action(b: BrowserOpenerView) -> OpenActionView {
    match b {
        BrowserOpenerView::Chrome(url) => OpenActionView::Run(
            seq!["-a"@, "Google Chrome"@, url],
        ),
        BrowserOpenerView::Fallback(url) => OpenActionView::Run(seq![url]),
        BrowserOpenerView::Done(result) => OpenActionView::Done(result),
    }
}

/// The state after a run: success ends the work; a run that could not be
/// made ends it with that failure; Chrome's refusal is followed by the
/// default browser, whose refusal is final.
pub open spec fn spec_step(
    b: BrowserOpenerView,
    outcome: Result<bool, Seq<char>>,
) -> BrowserOpenerView {
    match b {
        BrowserOpenerView::Chrome(url) => match outcome {
            Ok(true) => BrowserOpenerView::Done(Ok(())),
            Ok(false) => BrowserOpenerView::Fallback(url),
            Err(detail) => BrowserOpenerView::Done(
                Err("Failed to execute 'open -a Google Chrome': "@ + detail),
            ),
        },
        BrowserOpenerView::Fallback(_) => match outcome {
            Ok(true) => BrowserOpenerView::Done(Ok(())),
            Ok(false) => BrowserOpenerView::Done(
                Err("Could not open URL in Chrome or fallback browser"@),
            ),
            Err(detail) => BrowserOpenerView::Done(
                Err("Failed to open URL with default browser: "@ + detail),
            ),
        },
        BrowserOpenerView::Done(result) => BrowserOpenerView::Done(result),
    }
}

/// A copy of a result.
fn duplicate_result(result: &Result<(), String>) -> (copy: Result<(), String>)
    ensures
        BrowserOpener::Done(copy)@ == BrowserOpener::Done(*result)@,
{
    match result {
        Ok(_) => Ok(()),
        Err(message) => Err(message.clone()),
    }
}

impl BrowserOpener {
    /// The opener's first state for the address `url`.
    pub fn new(url: &str) -> (opener: BrowserOpener)
        ensures
            opener@ == spec_new(url@),
    {
        BrowserOpener::Chrome(url.to_owned())
    }

    /// What the opener asks next.
    pub fn action(&self) -> (action: OpenAction)
        ensures
            action@ == spec_action(self@),
    {
        match self {
            BrowserOpener::Chrome(url) => {
                let mut args: Vec<String> = Vec::new();
                args.push("-a".to_owned());
                args.push("Google Chrome".to_owned());
                args.push(url.clone());
                assert(spec_texts(args@) =~= seq!["-a"@, "Google Chrome"@, url@]);
                OpenAction::Run(args)
            },
            BrowserOpener::Fallback(url) => {
                let mut args: Vec<String> = Vec::new();
                args.push(url.clone());
                assert(spec_texts(args@) =~= seq![url@]);
                OpenAction::Run(args)
            },
            BrowserOpener::Done(result) => OpenAction::Done(duplicate_result(result)),
        }
    }

    /// The state after a run of the command.
    pub fn step(self, outcome: Result<bool, String>) -> (next: BrowserOpener)
        ensures
            next@ == spec_step(self@, spec_run_view(outcome)),
    {
        match self {
            BrowserOpener::Chrome(url) => match outcome {
                Ok(true) => BrowserOpener::Done(Ok(())),
                Ok(false) => BrowserOpener::Fallback(url),
                Err(detail) => {
                    let mut message = "Failed to execute 'open -a Google Chrome': ".to_owned();
                    message.append(detail.as_str());
                    BrowserOpener::Done(Err(message))
                },
            },
            BrowserOpener::Fallback(_) => match outcome {
                Ok(true) => BrowserOpener::Done(Ok(())),
                Ok(false) => BrowserOpener::Done(
                    Err("Could not open URL in Chrome or fallback browser".to_owned()),
                ),
                Err(detail) => {
                    let mut message = "Failed to open URL with default browser: ".to_owned();
                    message.append(detail.as_str());
                    BrowserOpener::Done(Err(message))
                },
            },
            BrowserOpener::Done(result) => BrowserOpener::Done(result),
        }
    }
}

/// The opener is done after two runs at most, and succeeds exactly when the
/// first run succeeds, or the first reports a refusal and the second
/// succeeds.
pub proof fn lemma_two_runs_at_most(
    url: Seq<char>,
    first: Result<bool, Seq<char>>,
    second: Result<bool, Seq<char>>,
)
    ensures
        spec_step(spec_step(spec_new(url), first), second) is Done,
        spec_step(spec_step(spec_new(url), first), second) == BrowserOpenerView::Done(Ok(()))
            <==> first == Ok::<bool, Seq<char>>(true) || (first == Ok::<bool, Seq<char>>(false)
            && second == Ok::<bool, Seq<char>>(true)),
{
}

} // verus!
