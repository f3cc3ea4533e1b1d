//! The crate's error type and the text each error displays.

use vstd::prelude::*;

use crate::text::concat2;

verus! {

/// Errors of configuration handling, the secret store, the D-Bus control
/// channel and service start-up. Errors that come from the file system or
/// from TOML (de)serialization carry the outside error's message.
#[derive(Debug)]
pub enum VerbaError {
    Config(String),
    InvalidBaseUrl(String),
    MissingConfigParent(String),
    Io(String),
    TomlDeserialize(String),
    TomlSerialize(String),
    Secret(String),
    Dbus(String),
    SystemdStart(String),
}

/// A result whose error is a [`VerbaError`].
pub type Result<T> = core::result::Result<T, VerbaError>;

/// The mathematical value of a [`VerbaError`].
pub enum ErrorView {
    Config(Seq<char>),
    InvalidBaseUrl(Seq<char>),
    MissingConfigParent(Seq<char>),
    Io(Seq<char>),
    TomlDeserialize(Seq<char>),
    TomlSerialize(Seq<char>),
    Secret(Seq<char>),
    Dbus(Seq<char>),
    SystemdStart(Seq<char>),
}

impl View for VerbaError {
    type V = ErrorView;

    open spec fn view(&self) -> ErrorView {
        match self {
            VerbaError::Config(m) => ErrorView::Config(m@),
            VerbaError::InvalidBaseUrl(m) => ErrorView::InvalidBaseUrl(m@),
            VerbaError::MissingConfigParent(m) => ErrorView::MissingConfigParent(m@),
            VerbaError::Io(m) => ErrorView::Io(m@),
            VerbaError::TomlDeserialize(m) => ErrorView::TomlDeserialize(m@),
            VerbaError::TomlSerialize(m) => ErrorView::TomlSerialize(m@),
            VerbaError::Secret(m) => ErrorView::Secret(m@),
            VerbaError::Dbus(m) => ErrorView::Dbus(m@),
            VerbaError::SystemdStart(m) => ErrorView::SystemdStart(m@),
        }
    }
}

/// The view of a result whose error is a [`VerbaError`].
pub open spec fn result_view<T>(r: core::result::Result<T, VerbaError>) -> core::result::Result<T, ErrorView> {
    match r {
        Ok(v) => Ok(v),
        Err(e) => Err(e@),
    }
}

/// The text that an error displays.
pub open spec fn error_text(e: ErrorView) -> Seq<char> {
    match e {
        ErrorView::Config(m) => "configuration error: "@ + m,
        ErrorView::InvalidBaseUrl(m) => "invalid provider base URL: "@ + m,
        ErrorView::MissingConfigParent(m) => "config path has no parent directory: "@ + m,
        ErrorView::Io(m) => "I/O error: "@ + m,
        ErrorView::TomlDeserialize(m) => "TOML parse error: "@ + m,
        ErrorView::TomlSerialize(m) => "TOML serialize error: "@ + m,
        ErrorView::Secret(m) => "Secret Service error: "@ + m,
        ErrorView::Dbus(m) => "D-Bus error: "@ + m,
        ErrorView::SystemdStart(m) => "systemd user service start failed: "@ + m,
    }
}

impl VerbaError {
    /// The text this error displays.
    pub fn message(&self) -> (r: String)
        ensures
            r@ == error_text(self@),
    {
        match self {
            VerbaError::Config(m) => concat2("configuration error: ", m.as_str()),
            VerbaError::InvalidBaseUrl(m) => concat2("invalid provider base URL: ", m.as_str()),
            VerbaError::MissingConfigParent(m) => concat2(
                "config path has no parent directory: ",
                m.as_str(),
            ),
            VerbaError::Io(m) => concat2("I/O error: ", m.as_str()),
            VerbaError::TomlDeserialize(m) => concat2("TOML parse error: ", m.as_str()),
            VerbaError::TomlSerialize(m) => concat2("TOML serialize error: ", m.as_str()),
            VerbaError::Secret(m) => concat2("Secret Service error: ", m.as_str()),
            VerbaError::Dbus(m) => concat2("D-Bus error: ", m.as_str()),
            VerbaError::SystemdStart(m) => concat2("systemd user service start failed: ", m.as_str()),
        }
    }
}

} // verus!
