//! Endpoint configuration as far as the runtime reads it.

use crate::error::ConfigError;
use crate::sync::semaphore::MAX_PERMITS;
use vstd::prelude::*;

verus! {

/// Which side opens the connection.
#[derive(Clone, Copy, Debug, PartialEq, Eq, Structural)]
pub enum ConnectionMode {
    /// The endpoint connects.
    Active,
    /// The endpoint listens.
    Passive,
}

/// Counts and sizes that bound the endpoint.
#[derive(Clone, Copy, Debug, PartialEq, Eq, Structural)]
pub struct EndpointLimits {
    /// Largest Message Length.
    pub max_message_length: usize,
    /// Commands in flight.
    pub command_capacity: usize,
    /// Replies in flight.
    pub reply_capacity: usize,
    /// Primaries waiting for the application.
    pub application_event_capacity: usize,
    /// Protocol errors waiting for the application.
    pub protocol_error_capacity: usize,
    /// Diagnostics waiting for the application.
    pub diagnostic_capacity: usize,
    /// Bytes of commands in flight.
    pub command_bytes: u32,
    /// Bytes of replies in flight.
    pub reply_bytes: u32,
    /// Bytes of primaries waiting for the application.
    pub primary_queue_bytes: u32,
    /// Data frames on their way to the peer.
    pub data_lane_capacity: usize,
    /// Control frames on their way to the peer.
    pub critical_lane_capacity: usize,
}

/// Byte and time budgets of one connection; times are in nanoseconds.
#[derive(Clone, Copy, Debug, PartialEq, Eq, Structural)]
pub struct RuntimePolicy {
    /// An Active endpoint selects the session by itself.
    pub auto_select: bool,
    /// Bytes of Data frames on their way to the peer.
    pub write_bytes: u32,
    /// Bytes of frames on their way from the peer.
    pub inbound_bytes: u32,
    /// Longest time of a frame from admission to completion.
    pub residence: u128,
    /// Longest time of one active write.
    pub write: u128,
    /// Longest graceful drain.
    pub drain: u128,
    /// Longest wait for the transport tasks.
    pub cleanup: u128,
    /// Longest graceful close.
    pub shutdown: u128,
}

/// Configuration of one logical endpoint.
#[derive(Clone, Copy, Debug, PartialEq, Eq, Structural)]
pub struct EndpointConfig {
    /// Which side opens the connection.
    pub mode: ConnectionMode,
    /// Counts and sizes.
    pub limits: EndpointLimits,
    /// Inter-byte timeout T8 in nanoseconds.
    pub t8: u128,
    /// Budgets of a connection.
    pub runtime: RuntimePolicy,
}

impl EndpointConfig {
    /// First capacity that is zero.
    pub open spec fn zero_capacity(self) -> Option<Seq<char>> {
        let limits = self.limits;
        if limits.command_capacity == 0 {
            Some("command_capacity"@)
        } else if limits.reply_capacity == 0 {
            Some("reply_capacity"@)
        } else if limits.application_event_capacity == 0 {
            Some("application_event_capacity"@)
        } else if limits.protocol_error_capacity == 0 {
            Some("protocol_error_capacity"@)
        } else if limits.diagnostic_capacity == 0 {
            Some("diagnostic_capacity"@)
        } else {
            None
        }
    }

    /// Every queue and budget can be represented.
    pub open spec fn representable(self) -> bool {
        let limits = self.limits;
        &&& limits.command_capacity + limits.reply_capacity + 1 <= MAX_PERMITS
        &&& limits.application_event_capacity <= MAX_PERMITS
        &&& limits.protocol_error_capacity <= MAX_PERMITS
        &&& limits.diagnostic_capacity <= MAX_PERMITS
        &&& limits.command_bytes <= MAX_PERMITS
        &&& limits.reply_bytes <= MAX_PERMITS
        &&& limits.primary_queue_bytes <= MAX_PERMITS
    }

    /// Configurations that an endpoint can be built from.
    pub open spec fn valid(self) -> bool {
        self.zero_capacity() is None && self.representable()
    }

    /// `error` names the first capacity that is zero, or says that a capacity is
    /// not representable.
    pub open spec fn refused(self, error: ConfigError) -> bool {
        match error {
            ConfigError::ZeroCapacity { field } => self.zero_capacity() == Some(field@),
            ConfigError::RuntimePolicy { description } => {
                &&& self.zero_capacity() is None
                &&& !self.representable()
                &&& description@ == "endpoint capacity is not representable"@
            },
            _ => false,
        }
    }

    /// Checks that every queue has room and every budget can be represented.
    pub fn validate(&self) -> (r: Result<(), ConfigError>)
        ensures
            match r {
                Ok(()) => self.valid(),
                Err(error) => self.refused(error),
            },
    {
        let limits = &self.limits;
        if limits.command_capacity == 0 {
            return Err(ConfigError::ZeroCapacity { field: "command_capacity" });
        }
        if limits.reply_capacity == 0 {
            return Err(ConfigError::ZeroCapacity { field: "reply_capacity" });
        }
        if limits.application_event_capacity == 0 {
            return Err(ConfigError::ZeroCapacity { field: "application_event_capacity" });
        }
        if limits.protocol_error_capacity == 0 {
            return Err(ConfigError::ZeroCapacity { field: "protocol_error_capacity" });
        }
        if limits.diagnostic_capacity == 0 {
            return Err(ConfigError::ZeroCapacity { field: "diagnostic_capacity" });
        }
        if limits.command_capacity >= MAX_PERMITS || limits.reply_capacity > MAX_PERMITS - 1
            - limits.command_capacity || limits.application_event_capacity > MAX_PERMITS
            || limits.protocol_error_capacity > MAX_PERMITS || limits.diagnostic_capacity
            > MAX_PERMITS || limits.command_bytes as usize > MAX_PERMITS
            || limits.reply_bytes as usize > MAX_PERMITS || limits.primary_queue_bytes as usize
            > MAX_PERMITS {
            return Err(
                ConfigError::RuntimePolicy {
                    description: "endpoint capacity is not representable",
                },
            );
        }
        Ok(())
    }
}

} // verus!
