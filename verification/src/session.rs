//! One owner for the state of a scan session: whether a scan is running,
//! and which devices it has reported.

use crate::model::{add_item, BeaconInfo};
use crate::registry::{accepts, after_accept, cleared, BeaconRegistry};
use vstd::prelude::*;

verus! {

/// What the radio is to be told after the scan switch was flipped.
#[derive(Clone, Copy, Debug, PartialEq, Eq, Structural)]
pub enum ScanCommand {
    /// Begin scanning for advertisements.
    Start,
    /// End the running scan.
    Stop,
}

/// The scan switch and the registry of the session it controls.
pub struct ScanSession {
    is_searching: bool,
    registry: BeaconRegistry,
}

impl ScanSession {
    /// Whether a scan is meant to be running.
    pub closed spec fn searching(&self) -> bool {
        self.is_searching
    }

    /// The devices reported in the current session.
    pub closed spec fn seen(&self) -> Set<Seq<char>> {
        self.registry.seen()
    }

    /// A session that is not scanning and has reported nothing.
    pub fn new() -> (s: Self)
        ensures
            !s.searching(),
            s.seen() == cleared(),
    {
        ScanSession { is_searching: false, registry: BeaconRegistry::new() }
    }

    /// Tells whether a scan is meant to be running.
    pub fn is_searching(&self) -> (r: bool)
        ensures
            r == self.searching(),
    {
        self.is_searching
    }

    /// Flips the scan switch. Switching on begins a new session: every
    /// device seen before is forgotten and the radio is to start scanning.
    /// Switching off keeps what was seen and the radio is to stop.
    pub fn toggle(&mut self) -> (command: ScanCommand)
        ensures
            final(self).searching() == !old(self).searching(),
            command == if old(self).searching() {
                ScanCommand::Stop
            } else {
                ScanCommand::Start
            },
            final(self).seen() == if old(self).searching() {
                old(self).seen()
            } else {
                cleared()
            },
    {
        self.is_searching = !self.is_searching;
        if self.is_searching {
            self.registry.clear();
            ScanCommand::Start
        } else {
            ScanCommand::Stop
        }
    }

    /// Offers a decoded beacon to the session. It comes back, to be handed
    /// to the consumer, the first time its device is seen in the session.
    pub fn report(&mut self, beacon: BeaconInfo) -> (row: Option<BeaconInfo>)
        ensures
            row is Some <==> accepts(old(self).seen(), beacon.peripheral_id@),
            row is Some ==> row->0 == beacon,
            final(self).seen() == after_accept(old(self).seen(), beacon.peripheral_id@),
            final(self).searching() == old(self).searching(),
    {
        add_item(&mut self.registry, beacon)
    }
}

} // verus!
