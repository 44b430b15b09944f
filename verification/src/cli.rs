//! The line-oriented front end: what a line of input means, and when the
//! dialogue ends.
//!
//! Reading lines and sending requests is the driver's part. This module
//! decides what each line leads to.

use vstd::prelude::*;
use vstd::string::*;
use libp2p::identity::Keypair;
use crate::action::{Action, ActionView};
use crate::words::{split_words, words};

verus! {

/// What a line of input leads to.
#[derive(Clone, Debug, PartialEq, Eq)]
pub enum CliOutcome {
    /// The line holds no word.
    NoCommand,
    /// The line is a request for the runtime.
    Submit(Action),
    /// The line names a command and leaves out what it needs.
    Incomplete(String),
    /// The first word of the line is no command.
    Unknown(String),
}

pub enum CliOutcomeView {
    NoCommand,
    Submit(ActionView),
    Incomplete(Seq<char>),
    Unknown(Seq<char>),
}

impl View for CliOutcome {
    type V = CliOutcomeView;

    open spec fn view(&self) -> CliOutcomeView {
        match self {
            CliOutcome::NoCommand => CliOutcomeView::NoCommand,
            CliOutcome::Submit(action) => CliOutcomeView::Submit(action@),
            CliOutcome::Incomplete(command) => CliOutcomeView::Incomplete(command@),
            CliOutcome::Unknown(command) => CliOutcomeView::Unknown(command@),
        }
    }
}

/// What a line with these words means.
///
/// `bootstrap`, followed by an identifier and a location, asks for a
/// `Bootstrap` with these two texts, which are passed on unread; further
/// words are ignored. `bootstrap` with fewer words is incomplete. Any other
/// first word is unknown.
pub open spec fn interpret(words: Seq<Seq<char>>) -> CliOutcomeView {
    if words.len() == 0 {
        CliOutcomeView::NoCommand
    } else if words[0] == "bootstrap"@ {
        if words.len() >= 3 {
            CliOutcomeView::Submit(ActionView::Bootstrap(words[1], words[2]))
        } else {
            CliOutcomeView::Incomplete(words[0])
        }
    } else {
        CliOutcomeView::Unknown(words[0])
    }
}

/// What the operator is told of an outcome: nothing where a request goes to
/// the runtime.
pub open spec fn report_text(outcome: CliOutcomeView) -> Option<Seq<char>> {
    match outcome {
        CliOutcomeView::NoCommand => Some("no command given"@),
        CliOutcomeView::Submit(_) => None,
        CliOutcomeView::Incomplete(command) => Some("missing argument: "@ + command),
        CliOutcomeView::Unknown(command) => Some("unknown command: "@ + command),
    }
}

/// The model of an optional text.
pub open spec fn text_view(text: Option<String>) -> Option<Seq<char>> {
    match text {
        Some(text) => Some(text@),
        None => None,
    }
}

impl CliOutcome {
    /// What the operator is told of the outcome, if anything.
    pub fn report(&self) -> (line: Option<String>)
        ensures
            text_view(line) == report_text(self@),
    {
        match self {
            CliOutcome::NoCommand => Some(String::from_str("no command given")),
            CliOutcome::Submit(_) => None,
            CliOutcome::Incomplete(command) => {
                let mut line = String::from_str("missing argument: ");
                line.append(command.as_str());
                Some(line)
            },
            CliOutcome::Unknown(command) => {
                let mut line = String::from_str("unknown command: ");
                line.append(command.as_str());
                Some(line)
            },
        }
    }
}

/// What came of trying to read a line.
#[derive(Clone, Debug, PartialEq, Eq)]
pub enum ReadOutcome {
    /// A line, without its end.
    Line(String),
    /// The operator interrupted the input.
    Interrupted,
    /// The input is at its end.
    EndOfInput,
    /// Reading failed, for this reason.
    Failed(String),
}

pub enum ReadOutcomeView {
    Line(Seq<char>),
    Interrupted,
    EndOfInput,
    Failed(Seq<char>),
}

impl View for ReadOutcome {
    type V = ReadOutcomeView;

    open spec fn view(&self) -> ReadOutcomeView {
        match self {
            ReadOutcome::Line(line) => ReadOutcomeView::Line(line@),
            ReadOutcome::Interrupted => ReadOutcomeView::Interrupted,
            ReadOutcome::EndOfInput => ReadOutcomeView::EndOfInput,
            ReadOutcome::Failed(reason) => ReadOutcomeView::Failed(reason@),
        }
    }
}

/// One round of the dialogue: what to show, what the line led to, and, where
/// the dialogue ends, the exit code of the front end.
#[derive(Clone, Debug, PartialEq, Eq)]
pub struct ReplStep {
    pub echo: String,
    pub outcome: Option<CliOutcome>,
    pub exit: Option<i32>,
}

pub struct ReplStepView {
    pub echo: Seq<char>,
    pub outcome: Option<CliOutcomeView>,
    pub exit: Option<i32>,
}

impl View for ReplStep {
    type V = ReplStepView;

    open spec fn view(&self) -> ReplStepView {
        ReplStepView {
            echo: self.echo@,
            outcome: match self.outcome {
                Some(outcome) => Some(outcome@),
                None => None,
            },
            exit: self.exit,
        }
    }
}

/// The round that a read leads to.
///
/// A line is echoed and interpreted, and the dialogue goes on, whatever the
/// line holds. An interrupt, the end of the input and a failure are named
/// and end the dialogue cleanly, with exit code 0.
pub open spec fn round(read: ReadOutcomeView) -> ReplStepView {
    match read {
        ReadOutcomeView::Line(line) => ReplStepView {
            echo: "Line: "@ + line,
            outcome: Some(interpret(words(line))),
            exit: None,
        },
        ReadOutcomeView::Interrupted => ReplStepView {
            echo: "CTRL-C"@,
            outcome: None,
            exit: Some(0),
        },
        ReadOutcomeView::EndOfInput => ReplStepView {
            echo: "CTRL-D"@,
            outcome: None,
            exit: Some(0),
        },
        ReadOutcomeView::Failed(reason) => ReplStepView {
            echo: "Error: "@ + reason,
            outcome: None,
            exit: Some(0),
        },
    }
}

/// The command-line front end of a node.
pub struct CommandLineInterface {
    keypair: Keypair,
}

impl CommandLineInterface {
    /// The credential that the front end was made with.
    pub closed spec fn credential(&self) -> Keypair {
        self.keypair
    }

    /// A front end for the node with this credential.
    pub fn new(keypair: Keypair) -> (cli: CommandLineInterface)
        ensures
            cli.credential() == keypair,
    {
        CommandLineInterface { keypair }
    }

    /// The node's credential.
    pub fn keypair(&self) -> (keypair: &Keypair)
        ensures
            *keypair == self.credential(),
    {
        &self.keypair
    }

    /// Decides what a line of input leads to.
    pub fn handle_cmd(&self, line: &str) -> (outcome: CliOutcome)
        ensures
            outcome@ == interpret(words(line@)),
    {
        let found = split_words(line);
        if found.len() == 0 {
            return CliOutcome::NoCommand;
        }
        assert(found.deep_view()[0] == found[0]@);
        let bootstrap = String::from_str("bootstrap");
        if found[0] == bootstrap {
            if found.len() >= 3 {
                assert(found.deep_view()[1] == found[1]@);
                assert(found.deep_view()[2] == found[2]@);
                CliOutcome::Submit(Action::Bootstrap(found[1].clone(), found[2].clone()))
            } else {
                CliOutcome::Incomplete(found[0].clone())
            }
        } else {
            CliOutcome::Unknown(found[0].clone())
        }
    }

    /// Decides on one round of the dialogue.
    pub fn on_read(&self, read: ReadOutcome) -> (step: ReplStep)
        ensures
            step@ == round(read@),
    {
        match read {
            ReadOutcome::Line(line) => {
                let outcome = self.handle_cmd(line.as_str());
                let mut echo = String::from_str("Line: ");
                echo.append(line.as_str());
                ReplStep { echo, outcome: Some(outcome), exit: None }
            },
            ReadOutcome::Interrupted => ReplStep {
                echo: String::from_str("CTRL-C"),
                outcome: None,
                exit: Some(0),
            },
            ReadOutcome::EndOfInput => ReplStep {
                echo: String::from_str("CTRL-D"),
                outcome: None,
                exit: Some(0),
            },
            ReadOutcome::Failed(reason) => {
                let mut echo = String::from_str("Error: ");
                echo.append(reason.as_str());
                ReplStep { echo, outcome: None, exit: Some(0) }
            },
        }
    }
}

} // verus!
