//! The client of a STOMP session, as seen by the library's user: its
//! `server` and `session` header values.
use vstd::prelude::*;

verus! {

/// The default value for the `server` header of the CONNECTED frame: the
/// name of this library and its version.
pub const DEFAULT_SERVER: &'static str = "little-stomper/0.3.0";

/// A representation the client and the connection between client and STOMP backend.
///
/// The specific type used is implementation specific, and can therefore hold
/// arbitrary information, which is passed to destinations when communicating
/// with them.
pub trait Client: Sync + Send + Clone {
    /// Indicates the value to return for the `server` header of the CONNECTED
    /// frame, if any. Defaults to [`DEFAULT_SERVER`].
    fn server(&self) -> (r: Option<String>)
        default_ensures
            r matches Some(s) && s@ == DEFAULT_SERVER@,
    {
        Some(DEFAULT_SERVER.to_owned())
    }

    /// Indicates the value to return for the `session` header of the
    /// CONNECTED frame, if any. Defaults to `None`.
    fn session(&self) -> (r: Option<String>)
        default_ensures
            r is None,
    {
        None
    }
}

/// A [`Client`] instance which does nothing beyond the default implementations on the trait.
#[derive(Clone)]
pub struct DefaultClient;

impl Client for DefaultClient {}

} // verus!
