//! What the consumer keeps between polls, and how each outcome of a connect or a read
//! changes it. A snapshot that fails the validity gate, or a failed read, never replaces
//! the last good one.

use vstd::prelude::*;
use crate::types::{Settings, SharedData, TransportError};

verus! {

/// What the consumer shows about its link to the producer.
#[derive(Clone, Copy, Debug, PartialEq, Eq, Structural)]
pub enum ConnectionStatus {
    NotConnected,
    /// The mapping was established; nothing has been read yet.
    Connected,
    ConnectionFailed,
    /// The last read passed the validity gate.
    Live { base_address: u64 },
    /// The last read decoded but failed the validity gate, or stored a count above the
    /// arrays' capacity.
    InvalidData,
    ReadError,
}

pub struct ClientState {
    /// The last snapshot that passed the validity gate.
    pub shared_data: SharedData,
    /// The configuration the consumer last chose.
    pub settings: Settings,
    pub status: ConnectionStatus,
}

impl ClientState {
    pub fn new() -> (r: Self)
        ensures
            r.shared_data.is_default_snapshot(),
            r.settings == Settings::spec_default(),
            r.status == ConnectionStatus::NotConnected,
    {
        ClientState {
            shared_data: SharedData::default(),
            settings: Settings::default(),
            status: ConnectionStatus::NotConnected,
        }
    }

    /// Records the outcome of a connection attempt.
    pub fn record_connect(&mut self, outcome: Result<(), TransportError>)
        ensures
            final(self).status == if outcome is Ok {
                ConnectionStatus::Connected
            } else {
                ConnectionStatus::ConnectionFailed
            },
            final(self).shared_data == old(self).shared_data,
            final(self).settings == old(self).settings,
    {
        self.status = match outcome {
            Ok(()) => ConnectionStatus::Connected,
            Err(_) => ConnectionStatus::ConnectionFailed,
        };
    }

    /// Records the outcome of one poll: a snapshot that passes the validity gate and whose
    /// counts lie within capacity replaces the kept one; any other snapshot, and a failed
    /// read, leaves it as it was. So the kept counts never exceed the capacity once they
    /// do not.
    pub fn record_read(&mut self, outcome: Result<SharedData, TransportError>)
        ensures
            final(self).settings == old(self).settings,
            old(self).shared_data.spec_counts_in_range()
                ==> final(self).shared_data.spec_counts_in_range(),
            match outcome {
                Ok(d) => if d.spec_is_valid() && d.spec_counts_in_range() {
                    &&& final(self).shared_data == d
                    &&& final(self).status == (ConnectionStatus::Live { base_address: d.g_base })
                } else {
                    &&& final(self).shared_data == old(self).shared_data
                    &&& final(self).status == ConnectionStatus::InvalidData
                },
                Err(_) => {
                    &&& final(self).shared_data == old(self).shared_data
                    &&& final(self).status == ConnectionStatus::ReadError
                },
            },
    {
        match outcome {
            Ok(d) => {
                if d.is_valid() && d.counts_in_range() {
                    self.status = ConnectionStatus::Live { base_address: d.g_base };
                    self.shared_data = d;
                } else {
                    self.status = ConnectionStatus::InvalidData;
                }
            },
            Err(_) => {
                self.status = ConnectionStatus::ReadError;
            },
        }
    }
}

} // verus!
