//! The exchange with the command channel. The channel takes one command at a
//! time and answers with success or an error. A [`Dispatch`] holds the
//! commands of one event and decides, from the answers so far, what is sent
//! next and how the event ends: the commands go out in order, and the first
//! error ends the exchange.

use crate::text::texts;
use vstd::prelude::*;
use vstd::string::*;

verus! {

/// What the channel reported when it failed to run a command.
#[derive(Debug)]
pub struct ChannelError {
    pub message: String,
}

/// Why an event did not run to its end.
#[derive(Debug)]
pub enum SwayError {
    /// The channel failed to run a command.
    Channel(ChannelError),
    /// The selection model has no entry in its second place, which is the
    /// one that stands for the left button.
    MissingLeftEntity,
}

/// What the channel answers to one command.
pub type Answer = Result<(), ChannelError>;

impl ChannelError {
    /// An error with the given report.
    pub fn new(message: &str) -> (error: ChannelError)
        ensures
            error.message@ == message@,
    {
        ChannelError { message: String::from_str(message) }
    }

    /// A second value that holds the same report.
    pub fn duplicate(&self) -> (copy: ChannelError)
        ensures
            copy == *self,
    {
        ChannelError { message: self.message.clone() }
    }
}

impl SwayError {
    /// What this error says when it is shown.
    pub open spec fn message_text(self) -> Seq<char> {
        match self {
            SwayError::Channel(error) => error.message@,
            SwayError::MissingLeftEntity => "Could not get left entity"@,
        }
    }

    /// What to show for this error.
    pub fn message(&self) -> (text: String)
        ensures
            text@ == self.message_text(),
    {
        match self {
            SwayError::Channel(error) => error.message.clone(),
            SwayError::MissingLeftEntity => String::from_str("Could not get left entity"),
        }
    }
}

/// An exchange as it stands: the commands of the event in the order in which
/// they are sent, how many of them the channel has run without an error, and
/// the error that ended the exchange, if one did. The accepted commands are
/// the first so many; the error, if there is one, answered the command
/// behind them.
pub struct Exchange {
    pub commands: Seq<Seq<char>>,
    pub accepted: nat,
    pub failure: Option<ChannelError>,
}

impl Exchange {
    /// The exchange before anything is sent.
    pub open spec fn start(commands: Seq<Seq<char>>) -> Exchange {
        Exchange { commands, accepted: 0, failure: None }
    }

    /// No more commands are accepted than there are, and an error leaves
    /// the command that it answered unaccepted.
    pub open spec fn consistent(self) -> bool {
        &&& self.accepted <= self.commands.len()
        &&& self.failure is Some ==> self.accepted < self.commands.len()
    }

    /// Whether a command is still to be sent.
    pub open spec fn pending(self) -> bool {
        self.failure is None && self.accepted < self.commands.len()
    }

    /// The command to send now, if the exchange is not over.
    pub open spec fn next(self) -> Option<Seq<char>> {
        if self.pending() {
            Some(self.commands[self.accepted as int])
        } else {
            None
        }
    }

    /// The exchange after the channel's answer to the command that was
    /// sent: success makes the command behind it the next, an error ends
    /// the exchange. An answer that no command is waiting for changes
    /// nothing.
    pub open spec fn record(self, answer: Answer) -> Exchange {
        if !self.pending() {
            self
        } else {
            match answer {
                Ok(_) => Exchange { accepted: self.accepted + 1, ..self },
                Err(error) => Exchange { failure: Some(error), ..self },
            }
        }
    }

    /// The exchange after a row of answers, each to the command that was
    /// sent when it came.
    pub open spec fn run(self, answers: Seq<Answer>) -> Exchange
        decreases answers.len(),
    {
        if answers.len() == 0 {
            self
        } else {
            self.run(answers.drop_last()).record(answers.last())
        }
    }

    /// How the event ends: not at all while a command is pending, with the
    /// channel's error if there was one, and well otherwise.
    pub open spec fn outcome(self) -> Option<Result<(), SwayError>> {
        if self.pending() {
            None
        } else {
            match self.failure {
                Some(error) => Some(Err(SwayError::Channel(error))),
                None => Some(Ok(())),
            }
        }
    }

    /// The commands that the channel was handed so far: the accepted ones
    /// and, behind them, the one that failed.
    pub open spec fn sent(self) -> Seq<Seq<char>> {
        if self.failure is Some {
            self.commands.take(self.accepted as int + 1)
        } else {
            self.commands.take(self.accepted as int)
        }
    }

    /// An exchange without commands is over before it starts, and it ends
    /// well.
    pub proof fn lemma_nothing_to_send()
        ensures
            Exchange::start(Seq::empty()).outcome() == Some(Ok::<(), SwayError>(())),
            Exchange::start(Seq::empty()).sent() == Seq::<Seq<char>>::empty(),
    {
    }

    /// An exchange that is over stays as it is, whatever answers come.
    pub proof fn lemma_over_is_final(self, answers: Seq<Answer>)
        requires
            !self.pending(),
        ensures
            self.run(answers) == self,
        decreases answers.len(),
    {
        if answers.len() > 0 {
            self.lemma_over_is_final(answers.drop_last());
        }
    }

    /// Running through two rows of answers, one after the other, is
    /// running through both as one row.
    pub proof fn lemma_run_in_parts(self, first: Seq<Answer>, second: Seq<Answer>)
        ensures
            self.run(first + second) == self.run(first).run(second),
        decreases second.len(),
    {
        if second.len() > 0 {
            assert((first + second).drop_last() == first + second.drop_last());
            self.lemma_run_in_parts(first, second.drop_last());
        }
    }

    /// While the channel accepts, the commands go out in order: after as
    /// many successes as fit, that many more commands are accepted, no
    /// error stands, and the channel was handed the commands up to there.
    pub proof fn lemma_run_accepted(self, answers: Seq<Answer>)
        requires
            self.consistent(),
            self.failure is None,
            self.accepted + answers.len() <= self.commands.len(),
            forall|i: int| 0 <= i < answers.len() ==> (#[trigger] answers[i]) is Ok,
        ensures
            self.run(answers) == (Exchange {
                accepted: self.accepted + answers.len(),
                ..self
            }),
            self.run(answers).sent() == self.commands.take(
                self.accepted as int + answers.len(),
            ),
        decreases answers.len(),
    {
        if answers.len() > 0 {
            self.lemma_run_accepted(answers.drop_last());
        }
    }

    /// An exchange in which the channel accepts every command ends well
    /// once the last command is accepted, and every command was sent.
    pub proof fn lemma_all_accepted_ends_well(commands: Seq<Seq<char>>, answers: Seq<Answer>)
        requires
            answers.len() == commands.len(),
            forall|i: int| 0 <= i < answers.len() ==> (#[trigger] answers[i]) is Ok,
        ensures
            Exchange::start(commands).run(answers).outcome() == Some(Ok::<(), SwayError>(())),
            Exchange::start(commands).run(answers).sent() == commands,
    {
        Exchange::start(commands).lemma_run_accepted(answers);
    }

    /// The first error ends the exchange. Where the channel accepts
    /// `accepted` commands and fails at the one behind them, the outcome is
    /// that error whatever answers follow, the channel was handed the
    /// commands up to the failed one, and none behind it.
    pub proof fn lemma_first_error_ends(
        commands: Seq<Seq<char>>,
        accepted: Seq<Answer>,
        error: ChannelError,
        later: Seq<Answer>,
    )
        requires
            accepted.len() < commands.len(),
            forall|i: int| 0 <= i < accepted.len() ==> (#[trigger] accepted[i]) is Ok,
        ensures
            Exchange::start(commands).run(accepted + seq![Err(error)] + later).outcome() == Some(
                Err::<(), SwayError>(SwayError::Channel(error)),
            ),
            Exchange::start(commands).run(accepted + seq![Err(error)] + later).sent()
                == commands.take(accepted.len() as int + 1),
            Exchange::start(commands).run(accepted + seq![Err(error)] + later).accepted
                == accepted.len(),
    {
        let start = Exchange::start(commands);
        let failed: Seq<Answer> = seq![Err(error)];
        start.lemma_run_accepted(accepted);
        start.lemma_run_in_parts(accepted, failed);
        start.lemma_run_in_parts(accepted + failed, later);
        let before = start.run(accepted);
        assert(before.run(failed.drop_last()) == before);
        before.run(failed).lemma_over_is_final(later);
    }
}

/// The commands of one event and how far the channel has got with them.
#[derive(Debug)]
pub struct Dispatch {
    commands: Vec<String>,
    accepted: usize,
    failure: Option<ChannelError>,
}

impl View for Dispatch {
    type V = Exchange;

    closed spec fn view(&self) -> Exchange {
        Exchange {
            commands: texts(self.commands@),
            accepted: self.accepted as nat,
            failure: self.failure,
        }
    }
}

impl Dispatch {
    #[verifier::type_invariant]
    spec fn within_bounds(self) -> bool {
        &&& self.accepted <= self.commands.len()
        &&& self.failure is Some ==> self.accepted < self.commands.len()
    }

    /// Starts the exchange for the given commands. Nothing is sent yet.
    pub fn new(commands: Vec<String>) -> (dispatch: Dispatch)
        ensures
            dispatch@ == Exchange::start(texts(commands@)),
    {
        Dispatch { commands, accepted: 0, failure: None }
    }

    /// The command to send now, or `None` when the exchange is over.
    pub fn next_command(&self) -> (command: Option<&String>)
        ensures
            self@.consistent(),
            match self@.next() {
                Some(text) => command is Some && command.unwrap()@ == text,
                None => command is None,
            },
    {
        proof {
            use_type_invariant(self);
        }
        if self.failure.is_none() && self.accepted < self.commands.len() {
            Some(&self.commands[self.accepted])
        } else {
            None
        }
    }

    /// Takes the channel's answer to the command that `next_command` gave.
    /// Success moves on to the next command; an error ends the exchange.
    pub fn record(&mut self, answer: Answer)
        ensures
            final(self)@ == old(self)@.record(answer),
            final(self)@.consistent(),
    {
        proof {
            use_type_invariant(&*self);
        }
        if self.failure.is_none() && self.accepted < self.commands.len() {
            match answer {
                Ok(_) => {
                    self.accepted = self.accepted + 1;
                },
                Err(error) => {
                    self.failure = Some(error);
                },
            }
        }
    }

    /// How the event ended, or `None` while a command is pending.
    pub fn outcome(&self) -> (outcome: Option<Result<(), SwayError>>)
        ensures
            self@.consistent(),
            outcome == self@.outcome(),
    {
        proof {
            use_type_invariant(self);
        }
        match &self.failure {
            Some(error) => Some(Err(SwayError::Channel(error.duplicate()))),
            None => if self.accepted < self.commands.len() {
                None
            } else {
                Some(Ok(()))
            },
        }
    }

    /// The number of commands of the event.
    pub fn len(&self) -> (count: usize)
        ensures
            count == self@.commands.len(),
    {
        self.commands.len()
    }

    /// The number of commands that the channel has run without an error.
    pub fn accepted_count(&self) -> (count: usize)
        ensures
            self@.consistent(),
            count == self@.accepted,
    {
        proof {
            use_type_invariant(self);
        }
        self.accepted
    }

    /// The command in place `index`, or `None` beyond the last.
    pub fn command(&self, index: usize) -> (command: Option<&String>)
        ensures
            command is Some <==> index < self@.commands.len(),
            command is Some ==> command.unwrap()@ == self@.commands[index as int],
    {
        if index < self.commands.len() {
            Some(&self.commands[index])
        } else {
            None
        }
    }
}

} // verus!
