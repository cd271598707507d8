//! The kind of a link power delta command.
use vstd::prelude::*;


verus! {

/// The kind of link power delta command.
#[derive(Debug, Clone, Copy, Eq, PartialEq, Structural)]
pub enum CommandOptions {
    Notification,
    Request,
    Response,
}

} // verus!
