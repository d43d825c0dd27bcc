use crate::text::same_text;
use vstd::prelude::*;
use vstd::string::*;

verus! {

/// Where the worker stands in its life cycle. The position of a state in
/// this order is the number that stands for it in the shared record.
#[derive(Debug, Clone, Copy, PartialEq, Eq, Structural)]
pub enum ServerState {
    WaitingForCommand,
    WaitingForArgs,
    DetectingGesture,
    PingAcknowledged,
    DetectionComplete,
    Exited,
}

impl ServerState {
    /// The number that stands for the state in the shared record.
    pub open spec fn spec_ordinal(self) -> int {
        match self {
            ServerState::WaitingForCommand => 0,
            ServerState::WaitingForArgs => 1,
            ServerState::DetectingGesture => 2,
            ServerState::PingAcknowledged => 3,
            ServerState::DetectionComplete => 4,
            ServerState::Exited => 5,
        }
    }

    /// The state that a number stands for; waiting for a command where the
    /// number stands for none.
    pub open spec fn spec_from_ordinal(ordinal: int) -> ServerState {
        if ordinal == 1 {
            ServerState::WaitingForArgs
        } else if ordinal == 2 {
            ServerState::DetectingGesture
        } else if ordinal == 3 {
            ServerState::PingAcknowledged
        } else if ordinal == 4 {
            ServerState::DetectionComplete
        } else if ordinal == 5 {
            ServerState::Exited
        } else {
            ServerState::WaitingForCommand
        }
    }

    /// The name of the state in text.
    pub open spec fn spec_name(self) -> Seq<char> {
        match self {
            ServerState::WaitingForCommand => "WAITING_FOR_COMMAND"@,
            ServerState::WaitingForArgs => "WAITING_FOR_ARGS"@,
            ServerState::DetectingGesture => "DETECTING_GESTURE"@,
            ServerState::PingAcknowledged => "PING_ACKNOWLEDGED"@,
            ServerState::DetectionComplete => "DETECTION_COMPLETE"@,
            ServerState::Exited => "EXITED"@,
        }
    }

    /// The state that a piece of text names; waiting for a command where it
    /// names none.
    pub open spec fn spec_from_string(text: Seq<char>) -> ServerState {
        if text == "WAITING_FOR_ARGS"@ {
            ServerState::WaitingForArgs
        } else if text == "DETECTING_GESTURE"@ {
            ServerState::DetectingGesture
        } else if text == "PING_ACKNOWLEDGED"@ {
            ServerState::PingAcknowledged
        } else if text == "DETECTION_COMPLETE"@ {
            ServerState::DetectionComplete
        } else if text == "EXITED"@ {
            ServerState::Exited
        } else {
            ServerState::WaitingForCommand
        }
    }

    pub fn java_ordinal(&self) -> (r: i64)
        ensures
            r == self.spec_ordinal(),
    {
        match self {
            ServerState::WaitingForCommand => 0,
            ServerState::WaitingForArgs => 1,
            ServerState::DetectingGesture => 2,
            ServerState::PingAcknowledged => 3,
            ServerState::DetectionComplete => 4,
            ServerState::Exited => 5,
        }
    }

    pub fn from_java_ordinal(ordinal: i64) -> (r: Self)
        ensures
            r == Self::spec_from_ordinal(ordinal as int),
    {
        match ordinal {
            0 => ServerState::WaitingForCommand,
            1 => ServerState::WaitingForArgs,
            2 => ServerState::DetectingGesture,
            3 => ServerState::PingAcknowledged,
            4 => ServerState::DetectionComplete,
            5 => ServerState::Exited,
            _ => ServerState::WaitingForCommand,
        }
    }

    pub fn from_string(string: &str) -> (r: Self)
        ensures
            r == Self::spec_from_string(string@),
    {
        if same_text(string, "WAITING_FOR_ARGS") {
            ServerState::WaitingForArgs
        } else if same_text(string, "DETECTING_GESTURE") {
            ServerState::DetectingGesture
        } else if same_text(string, "PING_ACKNOWLEDGED") {
            ServerState::PingAcknowledged
        } else if same_text(string, "DETECTION_COMPLETE") {
            ServerState::DetectionComplete
        } else if same_text(string, "EXITED") {
            ServerState::Exited
        } else {
            ServerState::WaitingForCommand
        }
    }

    pub fn name(&self) -> (r: String)
        ensures
            r@ == self.spec_name(),
    {
        match self {
            ServerState::WaitingForCommand => String::from_str("WAITING_FOR_COMMAND"),
            ServerState::WaitingForArgs => String::from_str("WAITING_FOR_ARGS"),
            ServerState::DetectingGesture => String::from_str("DETECTING_GESTURE"),
            ServerState::PingAcknowledged => String::from_str("PING_ACKNOWLEDGED"),
            ServerState::DetectionComplete => String::from_str("DETECTION_COMPLETE"),
            ServerState::Exited => String::from_str("EXITED"),
        }
    }

    /// A state is found again from its number, which lies between 0 and 5.
    pub proof fn lemma_from_ordinal_of_ordinal(self)
        ensures
            0 <= self.spec_ordinal() <= 5,
            Self::spec_from_ordinal(self.spec_ordinal()) == self,
    {
    }

    /// A number between 0 and 5 is found again from its state.
    pub proof fn lemma_ordinal_of_from_ordinal(ordinal: int)
        requires
            0 <= ordinal <= 5,
        ensures
            Self::spec_from_ordinal(ordinal).spec_ordinal() == ordinal,
    {
    }

    /// A state is found again from its name.
    pub proof fn lemma_from_string_of_name(self)
        ensures
            Self::spec_from_string(self.spec_name()) == self,
    {
        reveal_strlit("WAITING_FOR_COMMAND");
        reveal_strlit("WAITING_FOR_ARGS");
        reveal_strlit("DETECTING_GESTURE");
        reveal_strlit("PING_ACKNOWLEDGED");
        reveal_strlit("DETECTION_COMPLETE");
        reveal_strlit("EXITED");
        assert("WAITING_FOR_COMMAND"@.len() == 19);
        assert("WAITING_FOR_ARGS"@.len() == 16);
        assert("DETECTING_GESTURE"@.len() == 17);
        assert("PING_ACKNOWLEDGED"@.len() == 17);
        assert("DETECTION_COMPLETE"@.len() == 18);
        assert("EXITED"@.len() == 6);
        assert("DETECTING_GESTURE"@[0] != "PING_ACKNOWLEDGED"@[0]);
    }
}

} // verus!
