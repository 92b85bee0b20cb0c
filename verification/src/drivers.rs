//! Ports, device descriptors, driver errors and the driver capability set.

use vstd::prelude::*;
use vstd::string::*;

use crate::Format;

verus! {

/// Mathematical value of a [`Port`].
pub struct PortView {
    pub id: Seq<char>,
    pub label: Seq<char>,
    pub path: Seq<char>,
}

/// A communication endpoint that is currently present.
#[derive(Debug, PartialEq, Eq)]
pub struct Port {
    pub id: String,
    pub label: String,
    pub path: String,
}

impl View for Port {
    type V = PortView;

    open spec fn view(&self) -> PortView {
        PortView { id: self.id@, label: self.label@, path: self.path@ }
    }
}

impl DeepView for Port {
    type V = PortView;

    open spec fn deep_view(&self) -> PortView {
        self@
    }
}

impl Clone for Port {
    fn clone(&self) -> (r: Self)
        ensures
            r@ == self@,
    {
        Port { id: self.id.clone(), label: self.label.clone(), path: self.path.clone() }
    }
}

/// Transport a device model talks over.
#[derive(Copy, Clone, Debug, PartialEq, Eq, Structural)]
pub enum PortType {
    /// The model needs no port.
    Unset,
    UsbSerial,
    /// Bluetooth serial.
    RfComm,
}

/// Mathematical value of a [`Desc`].
pub struct DescView {
    pub id: Seq<char>,
    pub label: Seq<char>,
    pub ports: Seq<PortType>,
}

/// Catalog description of a device model: it is known whether or not a
/// matching port is present.
#[derive(Debug, PartialEq, Eq)]
pub struct Desc {
    pub id: String,
    pub label: String,
    /// The kinds of port to look for.
    pub ports: Vec<PortType>,
}

impl View for Desc {
    type V = DescView;

    open spec fn view(&self) -> DescView {
        DescView { id: self.id@, label: self.label@, ports: self.ports@ }
    }
}

impl DeepView for Desc {
    type V = DescView;

    open spec fn deep_view(&self) -> DescView {
        self@
    }
}

impl Clone for Desc {
    fn clone(&self) -> (r: Self)
        ensures
            r@ == self@,
    {
        Desc { id: self.id.clone(), label: self.label.clone(), ports: self.ports.clone() }
    }
}

/// Mathematical value of an [`Error`].
pub enum ErrorView {
    Success,
    Unsupported,
    NoDriver,
    Cancelled,
    WrongArg,
    Failed(Seq<char>),
    IOError(Seq<char>),
}

impl ErrorView {
    /// The text shown to the user for this outcome.
    pub open spec fn message(self) -> Seq<char> {
        match self {
            ErrorView::Success => "Success"@,
            ErrorView::Unsupported => "Unsupported"@,
            ErrorView::NoDriver => "No driver"@,
            ErrorView::Cancelled => "Cancelled"@,
            ErrorView::WrongArg => "WrongArg"@,
            ErrorView::Failed(s) => s,
            ErrorView::IOError(s) => s,
        }
    }

    /// Outcomes that end an operation without anything to tell the user.
    pub open spec fn is_silent(self) -> bool {
        self is Success || self is Cancelled
    }
}

/// Outcome of a driver operation. `Success` is a completion value, not a
/// failure.
#[derive(Debug, PartialEq, Eq)]
pub enum Error {
    Success,
    Unsupported,
    /// No driver could be resolved from the current selection.
    NoDriver,
    /// The user gave up before any work was started.
    Cancelled,
    WrongArg,
    /// The device reported a failure; the text says which.
    Failed(String),
    /// The downloaded file could not be stored; the text is the system's.
    IOError(String),
}

impl View for Error {
    type V = ErrorView;

    open spec fn view(&self) -> ErrorView {
        match self {
            Error::Success => ErrorView::Success,
            Error::Unsupported => ErrorView::Unsupported,
            Error::NoDriver => ErrorView::NoDriver,
            Error::Cancelled => ErrorView::Cancelled,
            Error::WrongArg => ErrorView::WrongArg,
            Error::Failed(s) => ErrorView::Failed(s@),
            Error::IOError(s) => ErrorView::IOError(s@),
        }
    }
}

impl DeepView for Error {
    type V = ErrorView;

    open spec fn deep_view(&self) -> ErrorView {
        self@
    }
}

impl Clone for Error {
    fn clone(&self) -> (r: Self)
        ensures
            r@ == self@,
    {
        match self {
            Error::Success => Error::Success,
            Error::Unsupported => Error::Unsupported,
            Error::NoDriver => Error::NoDriver,
            Error::Cancelled => Error::Cancelled,
            Error::WrongArg => Error::WrongArg,
            Error::Failed(s) => Error::Failed(s.clone()),
            Error::IOError(s) => Error::IOError(s.clone()),
        }
    }
}

impl Error {
    /// The text shown to the user for this outcome.
    pub fn to_string(&self) -> (r: String)
        ensures
            r@ == self@.message(),
    {
        match self {
            Error::Success => String::from_str("Success"),
            Error::Unsupported => String::from_str("Unsupported"),
            Error::NoDriver => String::from_str("No driver"),
            Error::Cancelled => String::from_str("Cancelled"),
            Error::WrongArg => String::from_str("WrongArg"),
            Error::Failed(s) => s.clone(),
            Error::IOError(s) => s.clone(),
        }
    }

    /// Whether this outcome ends an operation without a report to the user.
    pub fn is_silent(&self) -> (r: bool)
        ensures
            r == self@.is_silent(),
    {
        match self {
            Error::Success => true,
            Error::Cancelled => true,
            _ => false,
        }
    }
}

/// What a device implementation offers. Every operation may take seconds and
/// is meant to run away from the control loop.
///
/// What a device answers is its own affair. Each operation comes with a
/// relation, chosen by the implementation, that holds of every answer it may
/// give; an implementation that promises nothing leaves it at `true`.
pub trait Driver {
    /// Whether `open` on this driver may answer `opened` and leave the
    /// driver as `after`.
    open spec fn opens(&self, opened: bool, after: &Self) -> bool {
        true
    }

    /// Whether `close` on this driver may answer `closed` and leave the
    /// driver as `after`.
    open spec fn closes(&self, closed: bool, after: &Self) -> bool {
        true
    }

    /// Whether `download` with these arguments may answer `answer`.
    open spec fn downloads(
        &self,
        format: Format,
        erase: bool,
        answer: Result<String, Error>,
    ) -> bool {
        true
    }

    /// Whether `erase` may answer `answer`.
    open spec fn erases(&self, answer: Result<(), Error>) -> bool {
        true
    }

    /// Open the device; `false` when it could not be opened.
    fn open(&mut self) -> (opened: bool)
        ensures
            old(self).opens(opened, final(self)),
    ;

    /// Close the device.
    fn close(&mut self) -> (closed: bool)
        ensures
            old(self).closes(closed, final(self)),
    ;

    /// Download the track in the given format, erasing the device afterwards
    /// when `erase` is set. Returns the path of the file that holds the data.
    fn download(&self, format: Format, erase: bool) -> (answer: Result<String, Error>)
        ensures
            self.downloads(format, erase, answer),
    ;

    /// Erase the tracks.
    fn erase(&self) -> (answer: Result<(), Error>)
        ensures
            self.erases(answer),
    ;
}

} // verus!
