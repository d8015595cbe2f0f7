//! The fatal error kinds of the daemon and the exit status of each.

use vstd::prelude::*;

verus! {

/// Every way the daemon can fail. None is recovered from: each ends the
/// process with its own exit status.
#[derive(Clone, Copy, Debug, PartialEq, Eq, Structural)]
pub enum Fatal {
    /// The configuration file could not be deserialized.
    ConfigDeserialize,
    /// The sample configuration could not be serialized.
    ConfigSerialize,
    /// Reading or writing the configuration file failed.
    ConfigIo,
    /// The UDP socket could not be bound.
    Bind,
    /// Receiving a datagram failed.
    Receive,
    /// A response payload could not be serialized.
    ResponseSerialize,
    /// Sending a response datagram failed.
    Send,
}

/// The exit status of each fatal error kind.
pub open spec fn exit_code_of(f: Fatal) -> i32 {
    match f {
        Fatal::ConfigDeserialize => 100,
        Fatal::Bind => 101,
        Fatal::Receive => 102,
        Fatal::ResponseSerialize => 103,
        Fatal::Send => 104,
        Fatal::ConfigSerialize => 105,
        Fatal::ConfigIo => 106,
    }
}

impl Fatal {
    /// The status the process exits with on this error.
    pub fn exit_code(&self) -> (r: i32)
        ensures
            r == exit_code_of(*self),
    {
        match self {
            Fatal::ConfigDeserialize => 100,
            Fatal::Bind => 101,
            Fatal::Receive => 102,
            Fatal::ResponseSerialize => 103,
            Fatal::Send => 104,
            Fatal::ConfigSerialize => 105,
            Fatal::ConfigIo => 106,
        }
    }
}

/// Each error kind has its own exit status, and none of them is zero, so a
/// supervisor can tell from the status alone why the daemon stopped.
pub proof fn lemma_exit_codes_distinct(a: Fatal, b: Fatal)
    ensures
        exit_code_of(a) != 0,
        exit_code_of(a) == exit_code_of(b) ==> a == b,
{
}

} // verus!
