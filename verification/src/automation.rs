//! One run of the browser automation, as a sequence of commands.
//!
//! A run pastes a text into the form: it attaches to the browser, opens a
//! session, loads the page, finds the input, clears it, types the text, finds
//! the button and clicks it. The caller carries out one [`Command`] at a time
//! and reports its [`Outcome`]; [`Automation::advance`] answers with the next
//! stage or with the result of the run. The first failure ends the run:
//! nothing is tried twice.

use crate::endpoints::{BUTTON_ID, DEBUGGER_ADDRESS, INPUT_ID, TARGET_PAGE, WEBDRIVER_SERVER};
use vstd::prelude::*;

verus! {

/// The steps of a run, in the order in which they are carried out.
#[derive(Clone, Copy, Debug, PartialEq, Eq, Structural)]
pub enum Stage {
    /// Build browser capabilities that attach to the running browser.
    Attach,
    /// Open a session on the WebDriver server.
    Connect,
    /// Load the page that holds the form.
    Navigate,
    /// Locate the input control.
    FindInput,
    /// Empty the input control.
    ClearInput,
    /// Type the text into the input control.
    EnterText,
    /// Locate the submit button.
    FindButton,
    /// Click the submit button.
    ClickButton,
}

impl Stage {
    /// Position of the stage in a run, counted from zero.
    pub open spec fn ordinal(self) -> nat {
        match self {
            Stage::Attach => 0,
            Stage::Connect => 1,
            Stage::Navigate => 2,
            Stage::FindInput => 3,
            Stage::ClearInput => 4,
            Stage::EnterText => 5,
            Stage::FindButton => 6,
            Stage::ClickButton => 7,
        }
    }

    /// The stage at position `ordinal`; positions past the end give the last stage.
    pub open spec fn at(ordinal: nat) -> Stage {
        if ordinal == 0 {
            Stage::Attach
        } else if ordinal == 1 {
            Stage::Connect
        } else if ordinal == 2 {
            Stage::Navigate
        } else if ordinal == 3 {
            Stage::FindInput
        } else if ordinal == 4 {
            Stage::ClearInput
        } else if ordinal == 5 {
            Stage::EnterText
        } else if ordinal == 6 {
            Stage::FindButton
        } else {
            Stage::ClickButton
        }
    }

    /// The stage that follows this one, if any.
    pub open spec fn following(self) -> Option<Stage> {
        if self.ordinal() + 1 < STAGES {
            Some(Stage::at(self.ordinal() + 1))
        } else {
            None
        }
    }

    /// What went wrong when this stage fails, in words.
    pub open spec fn context_text(self) -> Seq<char> {
        match self {
            Stage::Attach => "Failed to set debugger address for Chrome options"@,
            Stage::Connect => "Failed to connect to chromedriver. Is it running on port 9515?"@,
            Stage::Navigate => "Failed to navigate to URL: "@ + TARGET_PAGE@,
            Stage::FindInput => "Could not find input field with ID '"@ + INPUT_ID@ + "'"@,
            Stage::ClearInput => "Failed to clear input field"@,
            Stage::EnterText => "Failed to send keys to input field"@,
            Stage::FindButton => "Could not find button with ID '"@ + BUTTON_ID@ + "'"@,
            Stage::ClickButton => "Failed to click the '"@ + BUTTON_ID@ + "' button"@,
        }
    }

    /// The stage that follows this one; `None` after the click.
    pub fn next(self) -> (next: Option<Stage>)
        ensures
            next == self.following(),
    {
        match self {
            Stage::Attach => Some(Stage::Connect),
            Stage::Connect => Some(Stage::Navigate),
            Stage::Navigate => Some(Stage::FindInput),
            Stage::FindInput => Some(Stage::ClearInput),
            Stage::ClearInput => Some(Stage::EnterText),
            Stage::EnterText => Some(Stage::FindButton),
            Stage::FindButton => Some(Stage::ClickButton),
            Stage::ClickButton => None,
        }
    }

    /// The description of a failure of this stage.
    pub fn context(self) -> (text: String)
        ensures
            text@ == self.context_text(),
    {
        match self {
            Stage::Attach => "Failed to set debugger address for Chrome options".to_owned(),
            Stage::Connect => "Failed to connect to chromedriver. Is it running on port 9515?".to_owned(),
            Stage::Navigate => "Failed to navigate to URL: ".to_owned().concat(TARGET_PAGE),
            Stage::FindInput => "Could not find input field with ID '".to_owned().concat(
                INPUT_ID,
            ).concat("'"),
            Stage::ClearInput => "Failed to clear input field".to_owned(),
            Stage::EnterText => "Failed to send keys to input field".to_owned(),
            Stage::FindButton => "Could not find button with ID '".to_owned().concat(
                BUTTON_ID,
            ).concat("'"),
            Stage::ClickButton => "Failed to click the '".to_owned().concat(BUTTON_ID).concat(
                "' button",
            ),
        }
    }
}

/// Number of stages in a run.
pub const STAGES: usize = 8;

/// What the caller is asked to do at a stage.
#[derive(Debug, PartialEq, Eq)]
pub enum Command {
    /// Build capabilities for a browser whose remote debugger listens at `debugger`.
    Attach { debugger: String },
    /// Open a session on the WebDriver server at `server` with those capabilities.
    Connect { server: String },
    /// Load `url` in the session.
    Navigate { url: String },
    /// Find the element whose `id` attribute is `id`; it becomes the input.
    FindInput { id: String },
    /// Clear the input.
    ClearInput,
    /// Type `text` into the input.
    EnterText { text: String },
    /// Find the element whose `id` attribute is `id`; it becomes the button.
    FindButton { id: String },
    /// Click the button.
    ClickButton,
}

/// A [`Command`] as a mathematical value.
pub enum CommandView {
    Attach { debugger: Seq<char> },
    Connect { server: Seq<char> },
    Navigate { url: Seq<char> },
    FindInput { id: Seq<char> },
    ClearInput,
    EnterText { text: Seq<char> },
    FindButton { id: Seq<char> },
    ClickButton,
}

impl View for Command {
    type V = CommandView;

    open spec fn view(&self) -> CommandView {
        match self {
            Command::Attach { debugger } => CommandView::Attach { debugger: debugger@ },
            Command::Connect { server } => CommandView::Connect { server: server@ },
            Command::Navigate { url } => CommandView::Navigate { url: url@ },
            Command::FindInput { id } => CommandView::FindInput { id: id@ },
            Command::ClearInput => CommandView::ClearInput,
            Command::EnterText { text } => CommandView::EnterText { text: text@ },
            Command::FindButton { id } => CommandView::FindButton { id: id@ },
            Command::ClickButton => CommandView::ClickButton,
        }
    }
}

/// How a command ended, as the caller reports it.
#[derive(Debug, PartialEq, Eq)]
pub enum Outcome {
    /// The command was carried out.
    Done,
    /// The command failed; the text says why.
    Failed(String),
}

/// An [`Outcome`] as a mathematical value.
pub enum OutcomeView {
    Done,
    Failed(Seq<char>),
}

impl View for Outcome {
    type V = OutcomeView;

    open spec fn view(&self) -> OutcomeView {
        match self {
            Outcome::Done => OutcomeView::Done,
            Outcome::Failed(cause) => OutcomeView::Failed(cause@),
        }
    }
}

/// Why a run ended early: the stage that failed and the cause the caller gave.
#[derive(Debug, PartialEq, Eq)]
pub struct AutomationError {
    pub stage: Stage,
    pub cause: String,
}

/// An [`AutomationError`] as a mathematical value.
pub struct AutomationErrorView {
    pub stage: Stage,
    pub cause: Seq<char>,
}

impl AutomationErrorView {
    /// The stage's description, a colon and the cause.
    pub open spec fn message(self) -> Seq<char> {
        self.stage.context_text() + ": "@ + self.cause
    }
}

impl View for AutomationError {
    type V = AutomationErrorView;

    open spec fn view(&self) -> AutomationErrorView {
        AutomationErrorView { stage: self.stage, cause: self.cause@ }
    }
}

impl AutomationError {
    /// One line that names the failed stage and the cause.
    pub fn message(&self) -> (line: String)
        ensures
            line@ == self@.message(),
    {
        self.stage.context().concat(": ").concat(self.cause.as_str())
    }
}

/// A run in progress: the text to paste and the stage whose command is due.
#[derive(Debug, PartialEq, Eq)]
pub struct Automation {
    pub text: String,
    pub stage: Stage,
}

/// An [`Automation`] as a mathematical value.
pub struct AutomationView {
    pub text: Seq<char>,
    pub stage: Stage,
}

impl View for Automation {
    type V = AutomationView;

    open spec fn view(&self) -> AutomationView {
        AutomationView { text: self.text@, stage: self.stage }
    }
}

/// A run after an outcome was reported: still going, or over.
#[derive(Debug, PartialEq, Eq)]
pub enum Turn {
    /// The run goes on with the command of the stage it now stands at.
    Continue(Automation),
    /// The run is over, with its result.
    Finished(Result<(), AutomationError>),
}

/// A [`Turn`] as a mathematical value.
pub enum TurnView {
    Continue(AutomationView),
    Finished(Result<(), AutomationErrorView>),
}

impl View for Turn {
    type V = TurnView;

    open spec fn view(&self) -> TurnView {
        match self {
            Turn::Continue(run) => TurnView::Continue(run@),
            Turn::Finished(Ok(())) => TurnView::Finished(Ok(())),
            Turn::Finished(Err(error)) => TurnView::Finished(Err(error@)),
        }
    }
}

/// The command of `stage` in a run that pastes `text`.
pub open spec fn command_for(stage: Stage, text: Seq<char>) -> CommandView {
    match stage {
        Stage::Attach => CommandView::Attach { debugger: DEBUGGER_ADDRESS@ },
        Stage::Connect => CommandView::Connect { server: WEBDRIVER_SERVER@ },
        Stage::Navigate => CommandView::Navigate { url: TARGET_PAGE@ },
        Stage::FindInput => CommandView::FindInput { id: INPUT_ID@ },
        Stage::ClearInput => CommandView::ClearInput,
        Stage::EnterText => CommandView::EnterText { text },
        Stage::FindButton => CommandView::FindButton { id: BUTTON_ID@ },
        Stage::ClickButton => CommandView::ClickButton,
    }
}

/// Where `run` stands once the command of its stage ended with `outcome`: a
/// failure ends it with the stage and the cause, success moves it to the
/// following stage, and success of the last stage ends it well.
pub open spec fn turn_after(run: AutomationView, outcome: OutcomeView) -> TurnView {
    match outcome {
        OutcomeView::Failed(cause) => TurnView::Finished(
            Err(AutomationErrorView { stage: run.stage, cause }),
        ),
        OutcomeView::Done => match run.stage.following() {
            Some(stage) => TurnView::Continue(AutomationView { text: run.text, stage }),
            None => TurnView::Finished(Ok(())),
        },
    }
}

impl Automation {
    /// A run that will paste `text`, standing at its first stage.
    pub fn new(text: &str) -> (run: Automation)
        ensures
            run@ == (AutomationView { text: text@, stage: Stage::Attach }),
    {
        Automation { text: text.to_owned(), stage: Stage::Attach }
    }

    /// The command that is due.
    pub fn command(&self) -> (command: Command)
        ensures
            command@ == command_for(self.stage, self.text@),
    {
        match self.stage {
            Stage::Attach => Command::Attach { debugger: DEBUGGER_ADDRESS.to_owned() },
            Stage::Connect => Command::Connect { server: WEBDRIVER_SERVER.to_owned() },
            Stage::Navigate => Command::Navigate { url: TARGET_PAGE.to_owned() },
            Stage::FindInput => Command::FindInput { id: INPUT_ID.to_owned() },
            Stage::ClearInput => Command::ClearInput,
            Stage::EnterText => Command::EnterText { text: self.text.clone() },
            Stage::FindButton => Command::FindButton { id: BUTTON_ID.to_owned() },
            Stage::ClickButton => Command::ClickButton,
        }
    }

    /// Takes the outcome of the command that was due and says how the run goes on.
    pub fn advance(self, outcome: Outcome) -> (turn: Turn)
        ensures
            turn@ == turn_after(self@, outcome@),
    {
        match outcome {
            Outcome::Failed(cause) => Turn::Finished(
                Err(AutomationError { stage: self.stage, cause }),
            ),
            Outcome::Done => match self.stage.next() {
                Some(stage) => Turn::Continue(Automation { text: self.text, stage }),
                None => Turn::Finished(Ok(())),
            },
        }
    }
}

} // verus!
