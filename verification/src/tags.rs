//! The enumerated fields of the messages, each a closed set of tags.

use vstd::prelude::*;

verus! {

/// Which of the two message kinds a document is.
#[derive(Clone, Copy, Debug, PartialEq, Eq)]
pub enum ReType {
    Request,
    Response,
}

/// The operation a request asks for.
#[derive(Clone, Copy, Debug, PartialEq, Eq)]
pub enum Action {
    Login,
    SendMessage,
}

/// How the content bytes of a request are to be read.
#[derive(Clone, Copy, Debug, PartialEq, Eq)]
pub enum MsgType {
    Text,
    Image,
    File,
}

/// The outcome a response reports.
#[derive(Clone, Copy, Debug, PartialEq, Eq)]
pub enum Status {
    Success,
    Error,
}

/// The delivery state a response reports.
#[derive(Clone, Copy, Debug, PartialEq, Eq)]
pub enum MsgStatus {
    Delivered,
    Read,
    Undelivered,
}

impl ReType {
    /// The string that stands for this kind in a document.
    pub open spec fn tag(self) -> Seq<char> {
        match self {
            ReType::Request => "Request"@,
            ReType::Response => "Response"@,
        }
    }

    /// The kind that a string stands for, if any.
    pub open spec fn of_tag(s: Seq<char>) -> Option<ReType> {
        if s == "Request"@ {
            Some(ReType::Request)
        } else if s == "Response"@ {
            Some(ReType::Response)
        } else {
            None
        }
    }

    /// The tag as a string.
    pub fn name(&self) -> (r: &'static str)
        ensures
            r@ == self.tag(),
    {
        match self {
            ReType::Request => "Request",
            ReType::Response => "Response",
        }
    }

    /// Reads a tag; `None` for a string outside the closed set.
    pub fn from_name(s: &str) -> (r: Option<ReType>)
        ensures
            r == ReType::of_tag(s@),
    {
        let owned = s.to_owned();
        if owned == "Request".to_owned() {
            Some(ReType::Request)
        } else if owned == "Response".to_owned() {
            Some(ReType::Response)
        } else {
            None
        }
    }

    /// Every kind is read back from its own tag, and a string is the tag
    /// of the kind it is read as.
    pub proof fn lemma_tag_round_trip(k: ReType, s: Seq<char>)
        ensures
            ReType::of_tag(k.tag()) == Some(k),
            ReType::of_tag(s) == Some(k) ==> s == k.tag(),
    {
        reveal_strlit("Request");
        reveal_strlit("Response");
        assert("Request"@.len() == 7 && "Response"@.len() == 8);
    }
}

impl Action {
    /// The string that stands for this action in a document.
    pub open spec fn tag(self) -> Seq<char> {
        match self {
            Action::Login => "Login"@,
            Action::SendMessage => "SendMessage"@,
        }
    }

    /// The action that a string stands for, if any.
    pub open spec fn of_tag(s: Seq<char>) -> Option<Action> {
        if s == "Login"@ {
            Some(Action::Login)
        } else if s == "SendMessage"@ {
            Some(Action::SendMessage)
        } else {
            None
        }
    }

    /// The tag as a string.
    pub fn name(&self) -> (r: &'static str)
        ensures
            r@ == self.tag(),
    {
        match self {
            Action::Login => "Login",
            Action::SendMessage => "SendMessage",
        }
    }

    /// Reads a tag; `None` for a string outside the closed set.
    pub fn from_name(s: &str) -> (r: Option<Action>)
        ensures
            r == Action::of_tag(s@),
    {
        let owned = s.to_owned();
        if owned == "Login".to_owned() {
            Some(Action::Login)
        } else if owned == "SendMessage".to_owned() {
            Some(Action::SendMessage)
        } else {
            None
        }
    }

    /// Every action is read back from its own tag, and a string is the tag
    /// of the action it is read as.
    pub proof fn lemma_tag_round_trip(k: Action, s: Seq<char>)
        ensures
            Action::of_tag(k.tag()) == Some(k),
            Action::of_tag(s) == Some(k) ==> s == k.tag(),
    {
        reveal_strlit("Login");
        reveal_strlit("SendMessage");
        assert("Login"@.len() == 5 && "SendMessage"@.len() == 11);
    }
}

impl MsgType {
    /// The string that stands for this content type in a document.
    pub open spec fn tag(self) -> Seq<char> {
        match self {
            MsgType::Text => "Text"@,
            MsgType::Image => "Image"@,
            MsgType::File => "File"@,
        }
    }

    /// The content type that a string stands for, if any.
    pub open spec fn of_tag(s: Seq<char>) -> Option<MsgType> {
        if s == "Text"@ {
            Some(MsgType::Text)
        } else if s == "Image"@ {
            Some(MsgType::Image)
        } else if s == "File"@ {
            Some(MsgType::File)
        } else {
            None
        }
    }

    /// The tag as a string.
    pub fn name(&self) -> (r: &'static str)
        ensures
            r@ == self.tag(),
    {
        match self {
            MsgType::Text => "Text",
            MsgType::Image => "Image",
            MsgType::File => "File",
        }
    }

    /// Reads a tag; `None` for a string outside the closed set.
    pub fn from_name(s: &str) -> (r: Option<MsgType>)
        ensures
            r == MsgType::of_tag(s@),
    {
        let owned = s.to_owned();
        if owned == "Text".to_owned() {
            Some(MsgType::Text)
        } else if owned == "Image".to_owned() {
            Some(MsgType::Image)
        } else if owned == "File".to_owned() {
            Some(MsgType::File)
        } else {
            None
        }
    }

    /// Every content type is read back from its own tag, and a string is the tag
    /// of the content type it is read as.
    pub proof fn lemma_tag_round_trip(k: MsgType, s: Seq<char>)
        ensures
            MsgType::of_tag(k.tag()) == Some(k),
            MsgType::of_tag(s) == Some(k) ==> s == k.tag(),
    {
        reveal_strlit("Text");
        reveal_strlit("Image");
        reveal_strlit("File");
        assert("Text"@.len() == 4 && "Image"@.len() == 5 && "File"@.len() == 4);
        assert("Text"@[0] == 'T' && "File"@[0] == 'F');
    }
}

impl Status {
    /// The string that stands for this outcome in a document.
    pub open spec fn tag(self) -> Seq<char> {
        match self {
            Status::Success => "Success"@,
            Status::Error => "Error"@,
        }
    }

    /// The outcome that a string stands for, if any.
    pub open spec fn of_tag(s: Seq<char>) -> Option<Status> {
        if s == "Success"@ {
            Some(Status::Success)
        } else if s == "Error"@ {
            Some(Status::Error)
        } else {
            None
        }
    }

    /// The tag as a string.
    pub fn name(&self) -> (r: &'static str)
        ensures
            r@ == self.tag(),
    {
        match self {
            Status::Success => "Success",
            Status::Error => "Error",
        }
    }

    /// Reads a tag; `None` for a string outside the closed set.
    pub fn from_name(s: &str) -> (r: Option<Status>)
        ensures
            r == Status::of_tag(s@),
    {
        let owned = s.to_owned();
        if owned == "Success".to_owned() {
            Some(Status::Success)
        } else if owned == "Error".to_owned() {
            Some(Status::Error)
        } else {
            None
        }
    }

    /// Every outcome is read back from its own tag, and a string is the tag
    /// of the outcome it is read as.
    pub proof fn lemma_tag_round_trip(k: Status, s: Seq<char>)
        ensures
            Status::of_tag(k.tag()) == Some(k),
            Status::of_tag(s) == Some(k) ==> s == k.tag(),
    {
        reveal_strlit("Success");
        reveal_strlit("Error");
        assert("Success"@.len() == 7 && "Error"@.len() == 5);
    }
}

impl MsgStatus {
    /// The string that stands for this delivery state in a document.
    pub open spec fn tag(self) -> Seq<char> {
        match self {
            MsgStatus::Delivered => "Delivered"@,
            MsgStatus::Read => "Read"@,
            MsgStatus::Undelivered => "Undelivered"@,
        }
    }

    /// The delivery state that a string stands for, if any.
    pub open spec fn of_tag(s: Seq<char>) -> Option<MsgStatus> {
        if s == "Delivered"@ {
            Some(MsgStatus::Delivered)
        } else if s == "Read"@ {
            Some(MsgStatus::Read)
        } else if s == "Undelivered"@ {
            Some(MsgStatus::Undelivered)
        } else {
            None
        }
    }

    /// The tag as a string.
    pub fn name(&self) -> (r: &'static str)
        ensures
            r@ == self.tag(),
    {
        match self {
            MsgStatus::Delivered => "Delivered",
            MsgStatus::Read => "Read",
            MsgStatus::Undelivered => "Undelivered",
        }
    }

    /// Reads a tag; `None` for a string outside the closed set.
    pub fn from_name(s: &str) -> (r: Option<MsgStatus>)
        ensures
            r == MsgStatus::of_tag(s@),
    {
        let owned = s.to_owned();
        if owned == "Delivered".to_owned() {
            Some(MsgStatus::Delivered)
        } else if owned == "Read".to_owned() {
            Some(MsgStatus::Read)
        } else if owned == "Undelivered".to_owned() {
            Some(MsgStatus::Undelivered)
        } else {
            None
        }
    }

    /// Every delivery state is read back from its own tag, and a string is the tag
    /// of the delivery state it is read as.
    pub proof fn lemma_tag_round_trip(k: MsgStatus, s: Seq<char>)
        ensures
            MsgStatus::of_tag(k.tag()) == Some(k),
            MsgStatus::of_tag(s) == Some(k) ==> s == k.tag(),
    {
        reveal_strlit("Delivered");
        reveal_strlit("Read");
        reveal_strlit("Undelivered");
        assert("Delivered"@.len() == 9 && "Read"@.len() == 4 && "Undelivered"@.len() == 11);
    }
}

} // verus!
