//! A capture session on one CC253x dongle.
//!
//! The session makes no transfer itself. It says which command the transport
//! has to carry out next, takes the outcome, and moves on: through the
//! handshake that arms the radio, the capture, and the teardown.

use crate::devices::devices::UsbDeviceInfo;
use crate::error::SniffError;
use crate::frames::{
    carries_payload, demultiplex, is_tick, is_unknown, payload, UsbFrame, UsbTickHeader,
};
use vstd::prelude::*;

verus! {

/// Request type of a vendor request that reads from the device.
pub const VENDOR_IN: u8 = 0xc0;

/// Request type of a vendor request that writes to the device.
pub const VENDOR_OUT: u8 = 0x40;

/// Reads the firmware's identity.
pub const REQUEST_IDENTITY: u8 = 192;

/// Switches the radio's power: index 4 is on, index 0 is off.
pub const REQUEST_POWER: u8 = 197;

/// Reads the radio's state.
pub const REQUEST_STATE: u8 = 198;

/// A request that the vendor does not document and the device needs.
pub const REQUEST_PREPARE: u8 = 201;

/// Sets the channel: the channel under index 0, then zero under index 1.
pub const REQUEST_CHANNEL: u8 = 210;

/// Starts the capture.
pub const REQUEST_START: u8 = 208;

/// Stops the capture.
pub const REQUEST_STOP: u8 = 209;

/// First byte of the radio's state once it is ready.
pub const STATE_READY: u8 = 0x04;

/// Endpoint that the captured frames come from.
pub const BULK_ENDPOINT: u8 = 0x83;

/// Bytes of the buffer that control reads and bulk reads fill.
pub const BUFFER_LEN: usize = 256;

/// Milliseconds that a transfer of the handshake or the teardown may take.
pub const COMMAND_TIMEOUT_MS: u64 = 200;

/// Milliseconds that the start of the capture, or a bulk read, may take.
pub const CAPTURE_TIMEOUT_MS: u64 = 10000;

/// Microseconds to wait between two reads of the radio's state.
pub const POLL_INTERVAL_MICROS: u64 = 10000;

/// Reads of the radio's state after which a radio that is still not ready is
/// given up.
pub const MAX_READY_POLLS: u32 = 1000;

/// What a zero tick adds to the extended timestamp.
pub const TICK_WRAP: u64 = 0xFFFF_FFFF;

/// What the transport is asked to do.
#[derive(Debug, Clone, Copy, PartialEq, Eq)]
pub enum Command {
    /// Open the device, detach the kernel driver from interface 0 if one is
    /// active, select configuration 1 and claim interface 0.
    Acquire,
    /// A control transfer that reads into the session's buffer.
    ControlRead { request_type: u8, request: u8, value: u16, index: u16, timeout_ms: u64 },
    /// A control transfer that writes no byte, or one.
    ControlWrite {
        request_type: u8,
        request: u8,
        value: u16,
        index: u16,
        payload: Option<u8>,
        timeout_ms: u64,
    },
    /// Wait.
    Sleep { micros: u64 },
    /// Release interface 0.
    Release,
}

/// How a command ended.
#[derive(Debug, Clone, Copy)]
pub enum Outcome {
    /// It was carried out; the byte is the first of the session's buffer as
    /// the command left it.
    Completed(u8),
    /// The transport failed.
    Failed(rusb::Error),
}

/// Where a session stands.
#[derive(Debug, Clone, Copy, PartialEq, Eq, Structural)]
pub enum Stage {
    /// The handshake: `step` is the command that is due, `polls` the reads of
    /// the radio's state that found it not ready.
    Opening { step: u8, polls: u32 },
    /// The radio is armed and frames can be read.
    Armed,
    /// The teardown: `step` is the command that is due.
    Closing { step: u8 },
    /// Nothing is left to do.
    Closed,
}

/// Step of the handshake that acquires the device.
pub const STEP_ACQUIRE: u8 = 0;

/// Step of the handshake that reads the firmware's identity.
pub const STEP_IDENTITY: u8 = 1;

/// Step of the handshake that powers the radio on.
pub const STEP_POWER_ON: u8 = 2;

/// Step of the handshake that reads the radio's state.
pub const STEP_POLL: u8 = 3;

/// Step of the handshake that waits before the next read of the state.
pub const STEP_WAIT: u8 = 4;

/// Step of the handshake that sends the undocumented request.
pub const STEP_PREPARE: u8 = 5;

/// Step of the handshake that sends the channel.
pub const STEP_CHANNEL: u8 = 6;

/// Step of the handshake that ends the channel's selection.
pub const STEP_CHANNEL_END: u8 = 7;

/// Step of the handshake that starts the capture.
pub const STEP_START: u8 = 8;

/// Step of the teardown that stops the capture.
pub const STEP_STOP: u8 = 0;

/// Step of the teardown that powers the radio off.
pub const STEP_POWER_OFF: u8 = 1;

/// Step of the teardown that releases the interface.
pub const STEP_RELEASE: u8 = 2;

/// A vendor write without data.
pub open spec fn bare_write(request: u8, index: u16, timeout_ms: u64) -> Command {
    Command::ControlWrite {
        request_type: VENDOR_OUT,
        request,
        value: 0,
        index,
        payload: None,
        timeout_ms,
    }
}

/// A vendor read into the buffer.
pub open spec fn vendor_read(request: u8) -> Command {
    Command::ControlRead {
        request_type: VENDOR_IN,
        request,
        value: 0,
        index: 0,
        timeout_ms: COMMAND_TIMEOUT_MS,
    }
}

/// The command of each step of the handshake on `channel`.
pub open spec fn opening_command(step: u8, channel: u8) -> Command {
    if step == STEP_ACQUIRE {
        Command::Acquire
    } else if step == STEP_IDENTITY {
        vendor_read(REQUEST_IDENTITY)
    } else if step == STEP_POWER_ON {
        bare_write(REQUEST_POWER, 4, COMMAND_TIMEOUT_MS)
    } else if step == STEP_POLL {
        vendor_read(REQUEST_STATE)
    } else if step == STEP_WAIT {
        Command::Sleep { micros: POLL_INTERVAL_MICROS }
    } else if step == STEP_PREPARE {
        bare_write(REQUEST_PREPARE, 0, COMMAND_TIMEOUT_MS)
    } else if step == STEP_CHANNEL {
        Command::ControlWrite {
            request_type: VENDOR_OUT,
            request: REQUEST_CHANNEL,
            value: 0,
            index: 0,
            payload: Some(channel),
            timeout_ms: COMMAND_TIMEOUT_MS,
        }
    } else if step == STEP_CHANNEL_END {
        Command::ControlWrite {
            request_type: VENDOR_OUT,
            request: REQUEST_CHANNEL,
            value: 0,
            index: 1,
            payload: Some(0u8),
            timeout_ms: COMMAND_TIMEOUT_MS,
        }
    } else {
        bare_write(REQUEST_START, 0, CAPTURE_TIMEOUT_MS)
    }
}

/// The command of each step of the teardown.
pub open spec fn closing_command(step: u8) -> Command {
    if step == STEP_STOP {
        bare_write(REQUEST_STOP, 0, COMMAND_TIMEOUT_MS)
    } else if step == STEP_POWER_OFF {
        bare_write(REQUEST_POWER, 0, COMMAND_TIMEOUT_MS)
    } else {
        Command::Release
    }
}

impl Stage {
    /// The steps and the count of polls are within their bounds.
    pub open spec fn wf(self) -> bool {
        match self {
            Stage::Opening { step, polls } => step <= STEP_START && polls < MAX_READY_POLLS,
            Stage::Closing { step } => step <= STEP_RELEASE,
            _ => true,
        }
    }

    /// Whether a command is due.
    pub open spec fn busy(self) -> bool {
        self is Opening || self is Closing
    }

    /// The command that is due on `channel`, if any.
    pub open spec fn command(self, channel: u8) -> Option<Command> {
        match self {
            Stage::Opening { step, .. } => Some(opening_command(step, channel)),
            Stage::Closing { step } => Some(closing_command(step)),
            _ => None,
        }
    }

    /// The stage that follows when the command that is due ended in `outcome`.
    ///
    /// A failure of the handshake after the device was acquired leads to the
    /// release of the interface, and so does a radio that was polled
    /// `MAX_READY_POLLS` times and never ready. A failure of the teardown
    /// leads to the release too, unless it was the release that failed.
    pub open spec fn after(self, outcome: Outcome) -> Stage {
        match self {
            Stage::Opening { step, polls } => match outcome {
                Outcome::Failed(_) => if step == STEP_ACQUIRE {
                    Stage::Closed
                } else {
                    Stage::Closing { step: STEP_RELEASE }
                },
                Outcome::Completed(first) => if step == STEP_POLL {
                    if first == STATE_READY {
                        Stage::Opening { step: STEP_PREPARE, polls }
                    } else if polls + 1 < MAX_READY_POLLS {
                        Stage::Opening { step: STEP_WAIT, polls: (polls + 1) as u32 }
                    } else {
                        Stage::Closing { step: STEP_RELEASE }
                    }
                } else if step == STEP_WAIT {
                    Stage::Opening { step: STEP_POLL, polls }
                } else if step >= STEP_START {
                    Stage::Armed
                } else {
                    Stage::Opening { step: (step + 1) as u8, polls }
                },
            },
            Stage::Closing { step } => if step >= STEP_RELEASE {
                Stage::Closed
            } else {
                match outcome {
                    Outcome::Failed(_) => Stage::Closing { step: STEP_RELEASE },
                    Outcome::Completed(_) => Stage::Closing { step: (step + 1) as u8 },
                }
            },
            _ => self,
        }
    }

    /// What the caller is told when the command that is due ended in
    /// `outcome`: the transport's error, or that the radio never was ready.
    pub open spec fn verdict(self, outcome: Outcome) -> Result<(), SniffError> {
        match outcome {
            Outcome::Failed(e) => if self.busy() {
                Err(SniffError::Rusb(e))
            } else {
                Ok(())
            },
            Outcome::Completed(first) => match self {
                Stage::Opening { step, polls } => if step == STEP_POLL && first != STATE_READY
                    && polls + 1 >= MAX_READY_POLLS {
                    Err(SniffError::DeviceNotReady)
                } else {
                    Ok(())
                },
                _ => Ok(()),
            },
        }
    }

    /// A bound on the commands that are still to come: one for each step
    /// that is left, two for each poll that may still find the radio not
    /// ready, and the teardown.
    pub open spec fn remaining(self) -> nat {
        match self {
            Stage::Opening { step, polls } => if step < STEP_POLL {
                (13 - step + 2 * (MAX_READY_POLLS - polls)) as nat
            } else if step == STEP_POLL {
                (10 + 2 * (MAX_READY_POLLS - polls)) as nat
            } else if step == STEP_WAIT {
                (11 + 2 * (MAX_READY_POLLS - polls)) as nat
            } else {
                (13 - step) as nat
            },
            Stage::Armed => 4,
            Stage::Closing { step } => (3 - step) as nat,
            Stage::Closed => 0,
        }
    }
}

/// Every outcome of a command that is due brings the session nearer to its
/// end: the handshake cannot go on for ever, however the radio answers, and a
/// failed handshake or teardown comes to rest in `Closed`.
pub proof fn lemma_every_command_makes_progress(stage: Stage, outcome: Outcome)
    requires
        stage.wf(),
        stage.busy(),
    ensures
        stage.after(outcome).wf(),
        stage.after(outcome).remaining() < stage.remaining(),
{
}

/// A session that reported an error on the way to `Armed` has either nothing
/// acquired, or the release of the interface as its next command.
pub proof fn lemma_failed_handshake_releases(stage: Stage, outcome: Outcome, channel: u8)
    requires
        stage.wf(),
        stage is Opening,
        stage.verdict(outcome) is Err,
    ensures
        stage.after(outcome) == Stage::Closed <==> stage == (Stage::Opening {
            step: STEP_ACQUIRE,
            polls: stage->Opening_polls,
        }),
        stage.after(outcome) != Stage::Closed ==> stage.after(outcome).command(channel) == Some(
            Command::Release,
        ),
{
}

/// What a report of the tick counter makes of the extended timestamp: a zero
/// tick adds `TICK_WRAP`, any other leaves it.
pub open spec fn tick_after(timestamp_tick: u64, tick: u8) -> int {
    if tick == 0 {
        timestamp_tick + TICK_WRAP
    } else {
        timestamp_tick as int
    }
}

/// Which of the caller's two sinks a frame goes to.
#[derive(Debug, Clone, Copy)]
pub enum Delivery<'a> {
    /// An 802.15.4 frame for the sink of frames.
    Frame(&'a [u8]),
    /// A whole USB frame of unknown type for the sink of unknown frames.
    UnknownFrame(&'a [u8]),
}

/// A capture session on one channel.
#[derive(Debug)]
pub struct CC253X {
    pub channel: u8,
    /// The extended timestamp that the tick reports add up to.
    pub timestamp_tick: u64,
    pub usb_device_info: UsbDeviceInfo,
    pub stage: Stage,
}

impl CC253X {
    /// Starts a session on `channel` with the device that a scan found. The
    /// channel is taken as it is given. The session begins before the
    /// handshake: `next_command` says what to do.
    ///
    /// Fails with `NoSupportedDevices` where the scan failed or found no
    /// device, with `MissingUsbDevice` where what it found names no device.
    pub fn open(channel: u8, found: Result<Option<UsbDeviceInfo>, rusb::Error>) -> (r: Result<
        CC253X,
        SniffError,
    >)
        ensures
            match found {
                Ok(Some(u)) => if u.device is Some {
                    r == Ok::<CC253X, SniffError>(
                        CC253X {
                            channel,
                            timestamp_tick: 0,
                            usb_device_info: u,
                            stage: Stage::Opening { step: STEP_ACQUIRE, polls: 0 },
                        },
                    )
                } else {
                    r == Err::<CC253X, SniffError>(SniffError::MissingUsbDevice)
                },
                _ => r == Err::<CC253X, SniffError>(SniffError::NoSupportedDevices),
            },
    {
        match found {
            Ok(Some(u)) => {
                if u.device.is_none() {
                    return Err(SniffError::MissingUsbDevice);
                }
                Ok(
                    CC253X {
                        channel,
                        timestamp_tick: 0,
                        usb_device_info: u,
                        stage: Stage::Opening { step: STEP_ACQUIRE, polls: 0 },
                    },
                )
            },
            _ => Err(SniffError::NoSupportedDevices),
        }
    }

    /// The command that the transport has to carry out next: `None` while the
    /// radio is armed and once the session is closed.
    pub fn next_command(&self) -> (r: Option<Command>)
        ensures
            r == self.stage.command(self.channel),
            r is Some <==> self.stage.busy(),
    {
        match self.stage {
            Stage::Opening { step, .. } => {
                let timeout = COMMAND_TIMEOUT_MS;
                Some(
                    if step == STEP_ACQUIRE {
                        Command::Acquire
                    } else if step == STEP_IDENTITY {
                        Self::read(REQUEST_IDENTITY)
                    } else if step == STEP_POWER_ON {
                        Self::write(REQUEST_POWER, 4, None, timeout)
                    } else if step == STEP_POLL {
                        Self::read(REQUEST_STATE)
                    } else if step == STEP_WAIT {
                        Command::Sleep { micros: POLL_INTERVAL_MICROS }
                    } else if step == STEP_PREPARE {
                        Self::write(REQUEST_PREPARE, 0, None, timeout)
                    } else if step == STEP_CHANNEL {
                        Self::write(REQUEST_CHANNEL, 0, Some(self.channel), timeout)
                    } else if step == STEP_CHANNEL_END {
                        Self::write(REQUEST_CHANNEL, 1, Some(0), timeout)
                    } else {
                        Self::write(REQUEST_START, 0, None, CAPTURE_TIMEOUT_MS)
                    },
                )
            },
            Stage::Closing { step } => Some(
                if step == STEP_STOP {
                    Self::write(REQUEST_STOP, 0, None, COMMAND_TIMEOUT_MS)
                } else if step == STEP_POWER_OFF {
                    Self::write(REQUEST_POWER, 0, None, COMMAND_TIMEOUT_MS)
                } else {
                    Command::Release
                },
            ),
            _ => None,
        }
    }

    fn read(request: u8) -> (c: Command)
        ensures
            c == vendor_read(request),
    {
        Command::ControlRead {
            request_type: VENDOR_IN,
            request,
            value: 0,
            index: 0,
            timeout_ms: COMMAND_TIMEOUT_MS,
        }
    }

    fn write(request: u8, index: u16, payload: Option<u8>, timeout_ms: u64) -> (c: Command)
        ensures
            c == (Command::ControlWrite {
                request_type: VENDOR_OUT,
                request,
                value: 0,
                index,
                payload,
                timeout_ms,
            }),
    {
        Command::ControlWrite { request_type: VENDOR_OUT, request, value: 0, index, payload, timeout_ms }
    }

    /// Takes the outcome of the command that was due and moves to the next
    /// stage. An error says that the handshake or the teardown failed; the
    /// commands that are still due after it release what was acquired.
    pub fn advance(&mut self, outcome: Outcome) -> (r: Result<(), SniffError>)
        ensures
            r == old(self).stage.verdict(outcome),
            final(self).stage == old(self).stage.after(outcome),
            old(self).stage.wf() ==> final(self).stage.wf(),
            old(self).stage.wf() && old(self).stage.busy() ==> final(self).stage.remaining() < old(
                self,
            ).stage.remaining(),
            final(self).channel == old(self).channel,
            final(self).timestamp_tick == old(self).timestamp_tick,
            final(self).usb_device_info == old(self).usb_device_info,
    {
        match self.stage {
            Stage::Opening { step, polls } => match outcome {
                Outcome::Failed(e) => {
                    self.stage = if step == STEP_ACQUIRE {
                        Stage::Closed
                    } else {
                        Stage::Closing { step: STEP_RELEASE }
                    };
                    Err(SniffError::Rusb(e))
                },
                Outcome::Completed(first) => {
                    if step == STEP_POLL {
                        if first == STATE_READY {
                            self.stage = Stage::Opening { step: STEP_PREPARE, polls };
                        } else if polls < MAX_READY_POLLS - 1 {
                            self.stage = Stage::Opening { step: STEP_WAIT, polls: polls + 1 };
                        } else {
                            self.stage = Stage::Closing { step: STEP_RELEASE };
                            return Err(SniffError::DeviceNotReady);
                        }
                    } else if step == STEP_WAIT {
                        self.stage = Stage::Opening { step: STEP_POLL, polls };
                    } else if step >= STEP_START {
                        self.stage = Stage::Armed;
                    } else {
                        self.stage = Stage::Opening { step: step + 1, polls };
                    }
                    Ok(())
                },
            },
            Stage::Closing { step } => {
                self.stage = if step >= STEP_RELEASE {
                    Stage::Closed
                } else {
                    match outcome {
                        Outcome::Failed(_) => Stage::Closing { step: STEP_RELEASE },
                        Outcome::Completed(_) => Stage::Closing { step: step + 1 },
                    }
                };
                match outcome {
                    Outcome::Failed(e) => Err(SniffError::Rusb(e)),
                    Outcome::Completed(_) => Ok(()),
                }
            },
            _ => Ok(()),
        }
    }

    /// The stage that a session in `stage` is in once it was told to close.
    pub open spec fn closing_from(stage: Stage) -> Stage {
        match stage {
            Stage::Armed => Stage::Closing { step: STEP_STOP },
            Stage::Opening { step, .. } => if step == STEP_ACQUIRE {
                Stage::Closed
            } else if step <= STEP_POWER_ON {
                Stage::Closing { step: STEP_RELEASE }
            } else {
                Stage::Closing { step: STEP_POWER_OFF }
            },
            _ => stage,
        }
    }

    /// Begins the teardown: the commands that are due from here stop the
    /// capture, power the radio off and release the interface, as far as the
    /// session had come. On a session that is closing or closed it changes
    /// nothing.
    pub fn close(&mut self)
        ensures
            final(self).stage == Self::closing_from(old(self).stage),
            old(self).stage.wf() ==> final(self).stage.wf(),
            old(self).stage.wf() ==> final(self).stage.remaining() <= old(
                self,
            ).stage.remaining(),
            final(self).channel == old(self).channel,
            final(self).timestamp_tick == old(self).timestamp_tick,
            final(self).usb_device_info == old(self).usb_device_info,
    {
        match self.stage {
            Stage::Armed => {
                self.stage = Stage::Closing { step: STEP_STOP };
            },
            Stage::Opening { step, .. } => {
                self.stage = if step == STEP_ACQUIRE {
                    Stage::Closed
                } else if step <= STEP_POWER_ON {
                    Stage::Closing { step: STEP_RELEASE }
                } else {
                    Stage::Closing { step: STEP_POWER_OFF }
                };
            },
            _ => {},
        }
    }

    /// Takes a report of the device's tick counter.
    pub fn tick(&mut self, tick: u8)
        requires
            tick_after(old(self).timestamp_tick, tick) <= u64::MAX,
        ensures
            final(self).timestamp_tick == tick_after(old(self).timestamp_tick, tick),
            final(self).channel == old(self).channel,
            final(self).stage == old(self).stage,
            final(self).usb_device_info == old(self).usb_device_info,
    {
        if tick == 0 {
            self.timestamp_tick = self.timestamp_tick + TICK_WRAP;
        }
    }

    /// Whether the timestamp has room for what `usb_frame` would add to it:
    /// `false` only for a zero tick that would take it past the greatest
    /// 64-bit number.
    pub open spec fn has_room_for(self, usb_frame: Seq<u8>) -> bool {
        is_tick(usb_frame) ==> tick_after(
            self.timestamp_tick,
            UsbTickHeader::parse(usb_frame).tick,
        ) <= u64::MAX
    }

    /// Whether `blocking_sniff` can take `usb_frame`.
    pub fn accepts(&self, usb_frame: &[u8]) -> (r: bool)
        ensures
            r == self.has_room_for(usb_frame@),
    {
        match demultiplex(usb_frame) {
            Some(UsbFrame::Tick(tick)) => tick != 0 || self.timestamp_tick <= u64::MAX
                - TICK_WRAP,
            _ => true,
        }
    }

    /// One turn of the capture: takes what a bulk read on `BULK_ENDPOINT`
    /// gave and says what the caller has to hand to which sink.
    ///
    /// A failed read ends the capture with the transport's error. A buffer
    /// shorter than a data header is dropped, and so is a data frame that
    /// carries no 802.15.4 frame. A tick frame goes into the timestamp and
    /// nowhere else. A frame of unknown type goes whole to the sink of
    /// unknown frames, if the caller has one.
    pub fn blocking_sniff<'a>(
        &mut self,
        read: Result<&'a [u8], rusb::Error>,
        has_unknown_sink: bool,
    ) -> (r: Result<Option<Delivery<'a>>, SniffError>)
        requires
            old(self).stage is Armed,
            match read {
                Ok(buffer) => old(self).has_room_for(buffer@),
                Err(_) => true,
            },
        ensures
            final(self).channel == old(self).channel,
            final(self).stage == old(self).stage,
            final(self).usb_device_info == old(self).usb_device_info,
            match read {
                Err(e) => r == Err::<Option<Delivery<'a>>, SniffError>(SniffError::Rusb(e))
                    && final(self).timestamp_tick == old(self).timestamp_tick,
                Ok(buffer) => {
                    &&& final(self).timestamp_tick == if is_tick(buffer@) {
                        tick_after(old(self).timestamp_tick, UsbTickHeader::parse(buffer@).tick)
                    } else {
                        old(self).timestamp_tick as int
                    }
                    &&& if carries_payload(buffer@) {
                        r matches Ok(Some(Delivery::Frame(p))) && p@ == payload(buffer@)
                    } else if is_unknown(buffer@) && has_unknown_sink {
                        r matches Ok(Some(Delivery::UnknownFrame(b))) && b@ == buffer@
                    } else {
                        r == Ok::<Option<Delivery<'a>>, SniffError>(None)
                    }
                    &&& buffer@.len() < 8 ==> {
                        &&& r == Ok::<Option<Delivery<'a>>, SniffError>(None)
                        &&& final(self).timestamp_tick == old(self).timestamp_tick
                    }
                    &&& buffer@.len() >= 8 && buffer@[0] == 0 && buffer@[7] <= 5 ==> {
                        &&& r == Ok::<Option<Delivery<'a>>, SniffError>(None)
                        &&& final(self).timestamp_tick == old(self).timestamp_tick
                    }
                    &&& buffer@.len() >= 8 && buffer@[0] == 1 ==> {
                        &&& r == Ok::<Option<Delivery<'a>>, SniffError>(None)
                        &&& buffer@[3] == 0 ==> final(self).timestamp_tick == old(
                            self,
                        ).timestamp_tick + 0xFFFF_FFFF
                        &&& buffer@[3] != 0 ==> final(self).timestamp_tick == old(
                            self,
                        ).timestamp_tick
                    }
                    &&& buffer@.len() >= 8 && buffer@[0] > 1 ==> {
                        &&& final(self).timestamp_tick == old(self).timestamp_tick
                        &&& has_unknown_sink ==> (r matches Ok(Some(Delivery::UnknownFrame(b)))
                            && b@ == buffer@)
                        &&& !has_unknown_sink ==> r == Ok::<Option<Delivery<'a>>, SniffError>(
                            None,
                        )
                    }
                },
            },
    {
        match read {
            Err(e) => Err(SniffError::Rusb(e)),
            Ok(buffer) => match demultiplex(buffer) {
                Some(UsbFrame::Data(frame)) => Ok(Some(Delivery::Frame(frame))),
                Some(UsbFrame::Tick(tick)) => {
                    self.tick(tick);
                    Ok(None)
                },
                Some(UsbFrame::Unknown(whole)) => {
                    if has_unknown_sink {
                        Ok(Some(Delivery::UnknownFrame(whole)))
                    } else {
                        Ok(None)
                    }
                },
                None => Ok(None),
            },
        }
    }

    /// The product name of the session's device.
    pub fn product_name(&self) -> (s: String)
        ensures
            s@ == self.usb_device_info.product_name@,
    {
        self.usb_device_info.product_name.to_owned()
    }

    /// The manufacturer of the session's device.
    pub fn manufacturer(&self) -> (s: String)
        ensures
            s@ == self.usb_device_info.manufacturer@,
    {
        self.usb_device_info.manufacturer.to_owned()
    }
}

} // verus!
