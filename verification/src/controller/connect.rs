//! The handshake that turns an opened device into a connected wand.

use vstd::prelude::*;

use crate::controller::proto::zcm1::{GetAddress, GetCalibration, GetCalibrationInner};
use crate::controller::proto::{decoded, Address, Feature, Getter, ProtocolError};
use crate::controller::{Calibration, Controller};

verus! {

/// Why a wand could not be connected.
#[derive(Debug, Clone, Copy, PartialEq, Eq, Structural)]
pub enum ConnectError {
    /// A reply was not the report that was asked for.
    Protocol(ProtocolError),
    /// The three calibration chunks do not hold all three tags.
    InsufficientData,
}

/// How far the handshake with a new wand has come.
#[derive(Debug, Clone, Copy, PartialEq, Eq)]
pub enum Stage {
    /// Nothing has been read yet: the addresses are asked for.
    Address,
    /// The address is known: the first calibration chunk is asked for.
    First { address: Address },
    /// The second calibration chunk is asked for.
    Second { address: Address, first: GetCalibration },
    /// The third calibration chunk is asked for.
    Third { address: Address, first: GetCalibration, second: GetCalibration },
}

/// The handshake that connects a wand: one read of its addresses and three
/// reads of calibration chunks, in this order, all on the feature channel.
/// Each reply is handed to [`Handshake::advance`]. The first reply that is
/// refused ends the handshake, and nothing is left of the wand.
pub struct Handshake {
    pub path: String,
    pub stage: Stage,
}

/// What a reply has led to.
pub enum Progress {
    /// The handshake goes on with the next request.
    Pending(Handshake),
    /// The handshake is over and the wand is connected.
    Connected(Controller),
}

impl Handshake {
    /// The handshake with the wand at a device node, before its first
    /// request.
    pub fn start(path: String) -> (h: Handshake)
        ensures
            h.path@ == path@,
            h.stage == Stage::Address,
    {
        Handshake { path, stage: Stage::Address }
    }

    /// The buffer of the request that is due.
    pub open spec fn requested(self) -> Seq<u8> {
        match self.stage {
            Stage::Address => <Feature as Getter<GetAddress>>::requested(),
            _ => <Feature as Getter<GetCalibration>>::requested(),
        }
    }

    /// What a reply leads to at `now`.
    pub open spec fn advances(
        self,
        reply: Seq<u8>,
        now: u64,
        r: Result<Progress, ConnectError>,
    ) -> bool {
        match self.stage {
            Stage::Address => match decoded::<GetAddress>(reply) {
                Ok(report) => {
                    &&& r matches Ok(Progress::Pending(next))
                    &&& next.path@ == self.path@
                    &&& next.stage matches Stage::First { address }
                    &&& address@ == report.0
                },
                Err(e) => r == Err::<Progress, ConnectError>(ConnectError::Protocol(e)),
            },
            Stage::First { address } => match decoded::<GetCalibration>(reply) {
                Ok(chunk) => {
                    &&& r matches Ok(Progress::Pending(next))
                    &&& next.path@ == self.path@
                    &&& next.stage matches Stage::Second { address: a, first }
                    &&& a == address
                    &&& first@ == chunk
                },
                Err(e) => r == Err::<Progress, ConnectError>(ConnectError::Protocol(e)),
            },
            Stage::Second { address, first } => match decoded::<GetCalibration>(reply) {
                Ok(chunk) => {
                    &&& r matches Ok(Progress::Pending(next))
                    &&& next.path@ == self.path@
                    &&& next.stage matches Stage::Third { address: a, first: f, second }
                    &&& a == address
                    &&& f == first
                    &&& second@ == chunk
                },
                Err(e) => r == Err::<Progress, ConnectError>(ConnectError::Protocol(e)),
            },
            Stage::Third { address, first, second } => match decoded::<GetCalibration>(reply) {
                Ok(chunk) => match GetCalibration::stitched(first@, second@, chunk) {
                    Some(block) => {
                        &&& r matches Ok(Progress::Connected(controller))
                        &&& controller.device() == self.path@
                        &&& controller.address() == address@
                        &&& controller.calibration().derived(GetCalibrationInner::unpacked(block))
                        &&& controller.fresh(now)
                    },
                    None => r == Err::<Progress, ConnectError>(ConnectError::InsufficientData),
                },
                Err(e) => r == Err::<Progress, ConnectError>(ConnectError::Protocol(e)),
            },
        }
    }

    /// The buffer to hand to the device for the request that is due: as
    /// long as the reply, with the id of the report in front.
    pub fn request(&self) -> (buffer: Vec<u8>)
        ensures
            buffer@ == self.requested(),
    {
        match self.stage {
            Stage::Address => <Feature as Getter<GetAddress>>::request(),
            _ => <Feature as Getter<GetCalibration>>::request(),
        }
    }

    /// Takes in the reply to the request that was due. The last of the four
    /// replies connects the wand at `now`.
    pub fn advance(self, reply: &[u8], now: u64) -> (r: Result<Progress, ConnectError>)
        ensures
            self.advances(reply@, now, r),
    {
        let Handshake { path, stage } = self;
        match stage {
            Stage::Address => match <Feature as Getter<GetAddress>>::get(reply) {
                Ok(report) => Ok(
                    Progress::Pending(
                        Handshake { path, stage: Stage::First { address: report.controller } },
                    ),
                ),
                Err(e) => Err(ConnectError::Protocol(e)),
            },
            Stage::First { address } => match <Feature as Getter<GetCalibration>>::get(reply) {
                Ok(first) => Ok(
                    Progress::Pending(Handshake { path, stage: Stage::Second { address, first } }),
                ),
                Err(e) => Err(ConnectError::Protocol(e)),
            },
            Stage::Second { address, first } => match <Feature as Getter<GetCalibration>>::get(
                reply,
            ) {
                Ok(second) => Ok(
                    Progress::Pending(
                        Handshake { path, stage: Stage::Third { address, first, second } },
                    ),
                ),
                Err(e) => Err(ConnectError::Protocol(e)),
            },
            Stage::Third { address, first, second } => match <Feature as Getter<
                GetCalibration,
            >>::get(reply) {
                Ok(third) => match GetCalibration::stitch([&first, &second, &third]) {
                    Ok(inner) => Ok(
                        Progress::Connected(
                            Controller::new(path, address, Calibration::from(inner), now),
                        ),
                    ),
                    Err(_) => Err(ConnectError::InsufficientData),
                },
                Err(e) => Err(ConnectError::Protocol(e)),
            },
        }
    }
}

} // verus!
