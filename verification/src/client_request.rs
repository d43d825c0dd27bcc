use crate::text::same_text;
use vstd::prelude::*;
use vstd::string::*;

verus! {

/// What the requester asks of the worker. The position of a request in this
/// order is the number that stands for it in the shared record.
#[derive(Debug, Clone, Copy, PartialEq, Eq, Structural)]
pub enum ClientRequest {
    Uninitialized,
    Ping,
    Begin,
    Detect,
    ClearAcknowledgement,
    Halt,
}

impl ClientRequest {
    /// The number that stands for the request in the shared record.
    pub open spec fn spec_ordinal(self) -> int {
        match self {
            ClientRequest::Uninitialized => 0,
            ClientRequest::Ping => 1,
            ClientRequest::Begin => 2,
            ClientRequest::Detect => 3,
            ClientRequest::ClearAcknowledgement => 4,
            ClientRequest::Halt => 5,
        }
    }

    /// The request that a number stands for; no request where the number
    /// stands for none.
    pub open spec fn spec_from_ordinal(ordinal: int) -> ClientRequest {
        if ordinal == 1 {
            ClientRequest::Ping
        } else if ordinal == 2 {
            ClientRequest::Begin
        } else if ordinal == 3 {
            ClientRequest::Detect
        } else if ordinal == 4 {
            ClientRequest::ClearAcknowledgement
        } else if ordinal == 5 {
            ClientRequest::Halt
        } else {
            ClientRequest::Uninitialized
        }
    }

    /// The name of the request in text.
    pub open spec fn spec_name(self) -> Seq<char> {
        match self {
            ClientRequest::Uninitialized => "UNINITIALIZED"@,
            ClientRequest::Ping => "PING"@,
            ClientRequest::Begin => "BEGIN"@,
            ClientRequest::Detect => "DETECT"@,
            ClientRequest::ClearAcknowledgement => "CLEAR_ACKNOWLEDGEMENT"@,
            ClientRequest::Halt => "HALT"@,
        }
    }

    /// The request that a piece of text names; no request where it names
    /// none.
    pub open spec fn spec_from_string(text: Seq<char>) -> ClientRequest {
        if text == "PING"@ {
            ClientRequest::Ping
        } else if text == "BEGIN"@ {
            ClientRequest::Begin
        } else if text == "DETECT"@ {
            ClientRequest::Detect
        } else if text == "CLEAR_ACKNOWLEDGEMENT"@ {
            ClientRequest::ClearAcknowledgement
        } else if text == "HALT"@ {
            ClientRequest::Halt
        } else {
            ClientRequest::Uninitialized
        }
    }

    pub fn java_ordinal(&self) -> (r: i64)
        ensures
            r == self.spec_ordinal(),
    {
        match self {
            ClientRequest::Uninitialized => 0,
            ClientRequest::Ping => 1,
            ClientRequest::Begin => 2,
            ClientRequest::Detect => 3,
            ClientRequest::ClearAcknowledgement => 4,
            ClientRequest::Halt => 5,
        }
    }

    pub fn java_value_of(ordinal: i64) -> (r: Self)
        ensures
            r == Self::spec_from_ordinal(ordinal as int),
    {
        Self::from_java_ordinal(ordinal)
    }

    pub fn from_string(string: &str) -> (r: Self)
        ensures
            r == Self::spec_from_string(string@),
    {
        if same_text(string, "PING") {
            ClientRequest::Ping
        } else if same_text(string, "BEGIN") {
            ClientRequest::Begin
        } else if same_text(string, "DETECT") {
            ClientRequest::Detect
        } else if same_text(string, "CLEAR_ACKNOWLEDGEMENT") {
            ClientRequest::ClearAcknowledgement
        } else if same_text(string, "HALT") {
            ClientRequest::Halt
        } else {
            ClientRequest::Uninitialized
        }
    }

    pub fn name(&self) -> (r: String)
        ensures
            r@ == self.spec_name(),
    {
        match self {
            ClientRequest::Uninitialized => String::from_str("UNINITIALIZED"),
            ClientRequest::Ping => String::from_str("PING"),
            ClientRequest::Begin => String::from_str("BEGIN"),
            ClientRequest::Detect => String::from_str("DETECT"),
            ClientRequest::ClearAcknowledgement => String::from_str("CLEAR_ACKNOWLEDGEMENT"),
            ClientRequest::Halt => String::from_str("HALT"),
        }
    }

    pub fn from_java_ordinal(ordinal: i64) -> (r: Self)
        ensures
            r == Self::spec_from_ordinal(ordinal as int),
    {
        match ordinal {
            0 => ClientRequest::Uninitialized,
            1 => ClientRequest::Ping,
            2 => ClientRequest::Begin,
            3 => ClientRequest::Detect,
            4 => ClientRequest::ClearAcknowledgement,
            5 => ClientRequest::Halt,
            _ => ClientRequest::Uninitialized,
        }
    }

    /// A request is found again from its number, which lies between 0 and 5.
    pub proof fn lemma_from_ordinal_of_ordinal(self)
        ensures
            0 <= self.spec_ordinal() <= 5,
            Self::spec_from_ordinal(self.spec_ordinal()) == self,
    {
    }

    /// A number between 0 and 5 is found again from its request.
    pub proof fn lemma_ordinal_of_from_ordinal(ordinal: int)
        requires
            0 <= ordinal <= 5,
        ensures
            Self::spec_from_ordinal(ordinal).spec_ordinal() == ordinal,
    {
    }

    /// A request is found again from its name.
    pub proof fn lemma_from_string_of_name(self)
        ensures
            Self::spec_from_string(self.spec_name()) == self,
    {
        reveal_strlit("UNINITIALIZED");
        reveal_strlit("PING");
        reveal_strlit("BEGIN");
        reveal_strlit("DETECT");
        reveal_strlit("CLEAR_ACKNOWLEDGEMENT");
        reveal_strlit("HALT");
        assert("UNINITIALIZED"@.len() == 13);
        assert("PING"@.len() == 4);
        assert("BEGIN"@.len() == 5);
        assert("DETECT"@.len() == 6);
        assert("CLEAR_ACKNOWLEDGEMENT"@.len() == 21);
        assert("HALT"@.len() == 4);
        assert("PING"@[0] != "HALT"@[0]);
    }
}

} // verus!
