//! The events that travel to the renderer.

use crate::status::Status;
use std::fmt;
use std::sync::mpsc::Sender;
use vstd::prelude::*;
use vstd::string::to_string_from_display_ensures;

verus! {

/// An event on the channel.
#[derive(Debug)]
pub enum Signal {
    /// The marker moved on to this glyph.
    Frame(&'static str),
    /// The text beside the marker changed.
    Text(String),
    /// The line is committed with an outcome and a text.
    Next(Status, String),
    /// The renderer is to clear the line and stop; it answers on the sender.
    Exit(Sender<()>),
}

/// What an event says, without the means to answer it.
pub enum SignalView {
    Frame(Seq<char>),
    Text(Seq<char>),
    Next(Status, Seq<char>),
    Exit,
}

impl View for Signal {
    type V = SignalView;

    open spec fn view(&self) -> SignalView {
        match *self {
            Signal::Frame(glyph) => SignalView::Frame(glyph@),
            Signal::Text(text) => SignalView::Text(text@),
            Signal::Next(status, text) => SignalView::Next(status, text@),
            Signal::Exit(_) => SignalView::Exit,
        }
    }
}

impl Signal {
    /// The event that changes the text to what `text` displays as.
    pub fn text<T: fmt::Display>(text: T) -> (signal: Signal)
        ensures
            signal is Text,
            to_string_from_display_ensures::<T>(&text, signal->Text_0),
    {
        Signal::Text(text.to_string())
    }

    /// The event that commits the line with `status` and what `text`
    /// displays as.
    pub fn commit<T: fmt::Display>(status: Status, text: T) -> (signal: Signal)
        ensures
            signal is Next,
            signal->Next_0 == status,
            to_string_from_display_ensures::<T>(&text, signal->Next_1),
    {
        Signal::Next(status, text.to_string())
    }

    /// The sender on which an exit is answered.
    pub open spec fn ack(&self) -> Option<Sender<()>> {
        match *self {
            Signal::Exit(ack) => Some(ack),
            _ => None,
        }
    }
}

} // verus!
