//! The main board: opening its interfaces, and which of them messages go over.

use crate::message::{Interface, JetsonToMcu, McuPayload};
use vstd::prelude::*;

verus! {

/// What an operation needs done before it can go on.
#[derive(Debug, Clone, Copy, PartialEq, Eq, Structural)]
pub enum Action {
    /// Send a message to the main microcontroller and hand in the reply.
    Send { over: Interface, payload: JetsonToMcu },
    /// Wait for this many milliseconds.
    Sleep { ms: u64 },
    /// Hand in what the message queue yields, one message after the other, for
    /// as long as the operation listens, but no longer than this many milliseconds.
    Listen { timeout_ms: u64 },
    /// Nothing: the operation has its result.
    Finished,
}

/// A message that cannot be sent to the main board: it is not for its microcontroller.
#[derive(Debug, PartialEq, Eq)]
pub struct NotToMain(pub McuPayload);

impl NotToMain {
    /// The message in `Debug` form.
    pub open spec fn payload_words(self) -> Seq<char> {
        match self.0 {
            McuPayload::FromMain { text, .. } => "FromMain("@ + text@ + ")"@,
            McuPayload::Security { text } => text@,
            McuPayload::ToMain(_) => ""@,
        }
    }

    /// The error in words.
    pub fn message(&self) -> (r: String)
        requires
            !(self.0 is ToMain),
        ensures
            r@ == "Message not targeted to security board: "@ + self.payload_words(),
    {
        let payload = match &self.0 {
            McuPayload::FromMain { text, .. } => "FromMain(".to_owned().concat(text.as_str()).concat(
                ")",
            ),
            McuPayload::Security { text } => "".to_owned().concat(text.as_str()),
            McuPayload::ToMain(_) => "".to_owned(),
        };
        proof {
            reveal_strlit("");
            assert(payload@ =~= self.payload_words());
        }
        "Message not targeted to security board: ".to_owned().concat(payload.as_str())
    }
}

/// The main board, by the interface that its messages go over.
#[derive(Debug, Clone, Copy, PartialEq, Eq, Structural)]
pub struct MainBoard {
    /// Messages go over CAN-FD; if not, over ISO-TP.
    pub canfd: bool,
}

impl MainBoard {
    /// The interface that messages go over unless an operation says otherwise.
    pub open spec fn preferred(self) -> Interface {
        if self.canfd {
            Interface::CanFd
        } else {
            Interface::IsoTp
        }
    }

    /// A message over the preferred interface.
    pub open spec fn sends(self, payload: JetsonToMcu) -> Action {
        Action::Send { over: self.preferred(), payload }
    }

    /// The interface that messages go over unless an operation says otherwise.
    pub fn interface(&self) -> (r: Interface)
        ensures
            r == self.preferred(),
    {
        if self.canfd {
            Interface::CanFd
        } else {
            Interface::IsoTp
        }
    }

    /// How to send a message to the main microcontroller over the preferred
    /// interface. Any other message is handed back.
    pub fn send(&self, payload: McuPayload) -> (r: Result<Action, NotToMain>)
        ensures
            r == (match payload {
                McuPayload::ToMain(message) => Ok::<Action, NotToMain>(self.sends(message)),
                other => Err(NotToMain(other)),
            }),
    {
        match payload {
            McuPayload::ToMain(message) => Ok(
                Action::Send { over: self.interface(), payload: message },
            ),
            other => Err(NotToMain(other)),
        }
    }
}

/// The CAN bus that the main board is on.
pub const CAN_BUS: &'static str = "can0";

/// A device on the CAN bus.
#[derive(Debug, Clone, Copy, PartialEq, Eq, Structural)]
pub enum Device {
    Main,
}

/// A node of the ISO-TP protocol.
#[derive(Debug, Clone, Copy, PartialEq, Eq, Structural)]
pub enum IsoTpNodeIdentifier {
    JetsonApp7,
    MainMcu,
}

/// An interface to open on the bus [`CAN_BUS`].
#[derive(Debug, Clone, Copy, PartialEq, Eq, Structural)]
pub enum CanInterface {
    /// CAN-FD frames to and from a device.
    Raw { device: Device },
    /// ISO-TP from one node to another.
    IsoTp { source: IsoTpNodeIdentifier, destination: IsoTpNodeIdentifier },
}

/// Why the main board cannot be used.
#[derive(Debug, Clone, Copy, PartialEq, Eq, Structural)]
pub enum BuildError {
    /// The interface for CAN-FD could not be opened.
    Raw,
    /// The interface for ISO-TP could not be opened.
    IsoTp,
}

impl BuildError {
    /// The error in words.
    pub open spec fn words(self) -> Seq<char> {
        match self {
            BuildError::Raw => "Failed to create CanRawMessaging for MainBoard"@,
            BuildError::IsoTp => "Failed to create CanIsoTpMessaging for MainBoard"@,
        }
    }

    /// The error in words.
    pub fn message(&self) -> (r: String)
        ensures
            r@ == self.words(),
    {
        match self {
            BuildError::Raw => "Failed to create CanRawMessaging for MainBoard".to_owned(),
            BuildError::IsoTp => "Failed to create CanIsoTpMessaging for MainBoard".to_owned(),
        }
    }
}

/// The opening of the interfaces of the main board, one after the other.
#[derive(Debug, Clone, Copy, PartialEq, Eq, Structural)]
pub enum MainBoardBuilder {
    /// Neither interface is open.
    OpenRaw,
    /// The interface for CAN-FD is open.
    OpenIsoTp,
    /// Both interfaces are open.
    Ready,
}

impl MainBoard {
    /// Starts to open the interfaces of the main board.
    pub fn builder() -> (r: MainBoardBuilder)
        ensures
            r == MainBoardBuilder::OpenRaw,
    {
        MainBoardBuilder::OpenRaw
    }
}

impl MainBoardBuilder {
    /// The interface to open next, if one is missing.
    pub fn interface(&self) -> (r: Option<CanInterface>)
        ensures
            r == (match *self {
                MainBoardBuilder::OpenRaw => Some(CanInterface::Raw { device: Device::Main }),
                MainBoardBuilder::OpenIsoTp => Some(
                    CanInterface::IsoTp {
                        source: IsoTpNodeIdentifier::JetsonApp7,
                        destination: IsoTpNodeIdentifier::MainMcu,
                    },
                ),
                MainBoardBuilder::Ready => None,
            }),
    {
        match self {
            MainBoardBuilder::OpenRaw => Some(CanInterface::Raw { device: Device::Main }),
            MainBoardBuilder::OpenIsoTp => Some(
                CanInterface::IsoTp {
                    source: IsoTpNodeIdentifier::JetsonApp7,
                    destination: IsoTpNodeIdentifier::MainMcu,
                },
            ),
            MainBoardBuilder::Ready => None,
        }
    }

    /// Takes whether the interface could be opened.
    pub fn on_open(self, opened: bool) -> (r: Result<MainBoardBuilder, BuildError>)
        requires
            self != MainBoardBuilder::Ready,
        ensures
            opened ==> r == Ok::<MainBoardBuilder, BuildError>(
                if self == MainBoardBuilder::OpenRaw {
                    MainBoardBuilder::OpenIsoTp
                } else {
                    MainBoardBuilder::Ready
                },
            ),
            !opened ==> r == Err::<MainBoardBuilder, BuildError>(
                if self == MainBoardBuilder::OpenRaw {
                    BuildError::Raw
                } else {
                    BuildError::IsoTp
                },
            ),
    {
        match self {
            MainBoardBuilder::OpenRaw => if opened {
                Ok(MainBoardBuilder::OpenIsoTp)
            } else {
                Err(BuildError::Raw)
            },
            _ => if opened {
                Ok(MainBoardBuilder::Ready)
            } else {
                Err(BuildError::IsoTp)
            },
        }
    }

    /// The main board, once both interfaces are open. Messages then go over
    /// CAN-FD, or over ISO-TP.
    pub fn build(self, canfd: bool) -> (r: MainBoard)
        requires
            self == MainBoardBuilder::Ready,
        ensures
            r.canfd == canfd,
            r.preferred() == if canfd {
                Interface::CanFd
            } else {
                Interface::IsoTp
            },
    {
        MainBoard { canfd }
    }
}

/// A board that was built for CAN-FD sends over CAN-FD, and any other over
/// ISO-TP; what it sends is the message that it was given.
pub proof fn law_messages_go_out_unchanged(
    canfd: bool,
    board: MainBoard,
    message: JetsonToMcu,
    over: Interface,
    r: Result<Action, NotToMain>,
)
    requires
        call_ensures(MainBoardBuilder::build, (MainBoardBuilder::Ready, canfd), board),
        call_ensures(MainBoard::interface, (&board,), over),
        call_ensures(MainBoard::send, (&board, McuPayload::ToMain(message)), r),
    ensures
        over == Interface::CanFd <==> canfd,
        over == Interface::IsoTp <==> !canfd,
        r == Ok::<Action, NotToMain>(Action::Send { over, payload: message }),
        board.sends(message) == (Action::Send { over, payload: message }),
{
}

/// A message that is not for the main microcontroller is never sent: it comes
/// back whole, and the refusal tells its text.
pub proof fn law_other_messages_come_back(
    board: MainBoard,
    payload: McuPayload,
    r: Result<Action, NotToMain>,
    words: String,
)
    requires
        !(payload is ToMain),
        call_ensures(MainBoard::send, (&board, payload), r),
        call_ensures(NotToMain::message, (&NotToMain(payload),), words),
    ensures
        r == Err::<Action, NotToMain>(NotToMain(payload)),
        payload matches McuPayload::Security { text } ==> words@
            == "Message not targeted to security board: "@ + text@,
        payload matches McuPayload::FromMain { text, .. } ==> words@
            == "Message not targeted to security board: "@ + ("FromMain("@ + text@ + ")"@),
{
}

} // verus!
