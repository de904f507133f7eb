//! The decisions of the interface's event loop: which action answers each
//! message, and the replacement colour remembered between messages.
use crate::enums::InterfaceMessage;
use std::path::PathBuf;
use vstd::prelude::*;

verus! {

/// What the event loop does next.
#[derive(Debug, PartialEq, Eq)]
pub enum Action {
    /// Stop the event loop.
    Quit,
    /// Put every control back to its default.
    ResetControls,
    /// Decode the image at this path and show it.
    LoadImage(PathBuf),
    /// Threshold the current image, painting with this colour.
    Threshold((u8, u8, u8)),
    /// Nothing to do.
    Idle,
}

/// The state that the event loop keeps between messages.
pub struct Session {
    /// The colour that out-of-region pixels are painted with.
    pub thresh_color: (u8, u8, u8),
}

impl Session {
    /// A session that paints with red until told otherwise.
    pub fn new() -> (s: Session)
        ensures
            s.thresh_color == (255u8, 0u8, 0u8),
    {
        Session { thresh_color: (255, 0, 0) }
    }

    /// Answers one message: a colour message is remembered, a threshold
    /// request carries the remembered colour, and the others map to their
    /// actions.
    pub fn handle(&mut self, msg: InterfaceMessage) -> (a: Action)
        ensures
            match msg {
                InterfaceMessage::ThreshColor(c) => final(self).thresh_color == c && a is Idle,
                InterfaceMessage::LoadImage(p) => *final(self) == *old(self) && a == Action::LoadImage(p),
                InterfaceMessage::Reset => *final(self) == *old(self) && a is ResetControls,
                InterfaceMessage::DoThreshold => *final(self) == *old(self) && a == Action::Threshold(
                    old(self).thresh_color,
                ),
                InterfaceMessage::Quit => *final(self) == *old(self) && a is Quit,
            },
    {
        match msg {
            InterfaceMessage::ThreshColor(c) => {
                self.thresh_color = c;
                Action::Idle
            },
            InterfaceMessage::LoadImage(p) => Action::LoadImage(p),
            InterfaceMessage::Reset => Action::ResetControls,
            InterfaceMessage::DoThreshold => Action::Threshold(self.thresh_color),
            InterfaceMessage::Quit => Action::Quit,
        }
    }
}

} // verus!
