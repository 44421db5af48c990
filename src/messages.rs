//! The application's event bus: an owned channel of messages between the
//! front-end, the logger and the macro timers.

use vstd::prelude::*;
use crate::logger::Entry;

verus! {

/// Relies on flume::Sender's `Clone`: another sender for the same channel.
pub assume_specification<T>[ <flume::Sender<T> as Clone>::clone ](
    sender: &flume::Sender<T>,
) -> flume::Sender<T>;

/// An event for the front-end to handle.
pub enum Message {
    Connect,
    Disconnect,
    Cut,
    Copy,
    Paste,
    StartRecording,
    StopRecording,
    RecordingData(String),
    ClearLogText,
    Log(Entry),
    ShowAbout,
    CloseAbout,
    SetDefaultUi,
    CloseApplication,
    RefreshSerialDevices,
    MacroClicked(String),
    DataReceived(String),
    DataForTransmit(String),
    ClearTerminalText,
}

/// Both ends of the message channel. Holding the receiving end keeps the
/// channel open, so posting to it never fails.
pub struct MessageBus {
    sender: flume::Sender<Message>,
    receiver: flume::Receiver<Message>,
}

impl MessageBus {
    /// Another sending end, for a producer on another thread.
    pub fn sender(&self) -> flume::Sender<Message> {
        self.sender.clone()
    }
}

/// A new, empty message bus.
pub fn init() -> MessageBus {
    let (sender, receiver) = flume::unbounded();
    MessageBus { sender, receiver }
}

/// Posts a message; never blocks.
pub fn send(bus: &MessageBus, message: Message) {
    let _ = bus.sender.send(message);
}

/// The oldest waiting message, if any; never blocks.
pub fn try_receive(bus: &MessageBus) -> Option<Message> {
    match bus.receiver.try_recv() {
        Ok(m) => Some(m),
        Err(_) => None,
    }
}

} // verus!
