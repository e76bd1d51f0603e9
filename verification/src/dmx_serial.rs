//! The public DMX interface: a 512-channel universe with validation,
//! mode control and pacing configuration, published through shared cells
//! to the transmission worker, and a pair of signalling channels that tie
//! the interface to that worker.
//!
//! The interface is the only writer of every shared cell, so it keeps its
//! own copy of what it last published; the contracts of the getters and
//! setters are stated over that copy. Opening the serial line and
//! spawning the worker happen outside this crate: a freshly opened
//! interface is assembled with [`DMXSerial::from_parts`] from the
//! signalling endpoints the spawner created.

use vstd::prelude::*;
use std::sync::mpsc::Receiver;
use std::sync::mpsc::Sender;
use crate::DMX_CHANNELS;
use crate::check_valid_channel;
use crate::error::DMXChannelValidityError;
use crate::error::DMXDisconnectionError;
use crate::frame::DEFAULT_MIN_BREAK_TO_BREAK_US;
use crate::thread::ArcRwLock;
use crate::thread::ReadOnly;

verus! {

/// Declares `std::sync::mpsc::Sender` so that signalling endpoints can
/// stand in fields and signatures; the type stays opaque.
#[verifier::external_type_specification]
#[verifier::external_body]
#[verifier::reject_recursive_types(T)]
pub struct ExSender<T>(Sender<T>);

/// Declares `std::sync::mpsc::Receiver` so that signalling endpoints can
/// stand in fields and signatures; the type stays opaque.
#[verifier::external_type_specification]
#[verifier::external_body]
#[verifier::reject_recursive_types(T)]
pub struct ExReceiver<T>(Receiver<T>);

/// The interface's ends of the two signalling channels to its worker:
/// `tx` carries frame triggers to the worker, `rx` carries frame
/// completions back from it.
#[verifier::reject_recursive_types(T)]
pub struct AgentCommunication<T> {
    pub tx: Sender<T>,
    pub rx: Receiver<T>,
}

impl<T> AgentCommunication<T> {
    /// Bundles the two interface-side endpoints.
    pub fn new(tx: Sender<T>, rx: Receiver<T>) -> (r: AgentCommunication<T>)
        ensures
            r.tx == tx,
            r.rx == rx,
    {
        AgentCommunication { tx, rx }
    }
}

/// What a non-blocking look at the completion channel showed.
#[derive(Debug, PartialEq, Eq, Structural, Clone, Copy)]
pub enum AgentProbe {
    /// A completion signal was pending.
    Signal,
    /// No signal was pending, but the worker still holds its end.
    NoSignal,
    /// The worker's end is gone: the worker has terminated.
    Disconnected,
}

/// Relies on `std::sync::mpsc::Sender::send`: the message is queued
/// unless the receiving end has been dropped, in which case an error
/// comes back. Which of the two happens depends on the live state of the
/// other end, so nothing is promised about the outcome.
#[verifier::external_body]
fn send_signal(tx: &Sender<()>) -> Result<(), ()> {
    tx.send(()).map_err(|_| ())
}

/// Relies on `std::sync::mpsc::Receiver::recv`: blocks until a message
/// arrives or every sender is dropped, in which case an error comes back.
/// Which of the two happens depends on the other end, so nothing is
/// promised about the outcome.
#[verifier::external_body]
fn recv_signal(rx: &Receiver<()>) -> Result<(), ()> {
    rx.recv().map_err(|_| ())
}

/// Relies on `std::sync::mpsc::Receiver::try_recv`: without blocking, it
/// tells a pending message, an empty channel and a channel whose senders
/// are all dropped apart, one variant each.
#[verifier::external_body]
fn probe_signal(rx: &Receiver<()>) -> AgentProbe {
    match rx.try_recv() {
        Ok(()) => AgentProbe::Signal,
        Err(std::sync::mpsc::TryRecvError::Empty) => AgentProbe::NoSignal,
        Err(std::sync::mpsc::TryRecvError::Disconnected) => AgentProbe::Disconnected,
    }
}

/// Maps the outcome of a signalling call to the caller-facing result: a
/// failed channel means the worker is gone, and nothing else is an error.
pub fn signal_outcome(sent: Result<(), ()>) -> (r: Result<(), DMXDisconnectionError>)
    ensures
        r is Ok <==> sent is Ok,
        sent is Err ==> r == Err::<(), DMXDisconnectionError>(DMXDisconnectionError),
{
    match sent {
        Ok(()) => Ok(()),
        Err(()) => Err(DMXDisconnectionError),
    }
}

/// Maps a probe of the completion channel to the caller-facing result:
/// only a closed channel reports a disconnection; a pending or missing
/// signal is not an error.
pub fn probe_outcome(probe: AgentProbe) -> (r: Result<(), DMXDisconnectionError>)
    ensures
        r is Err <==> probe is Disconnected,
        probe is Disconnected ==> r == Err::<(), DMXDisconnectionError>(DMXDisconnectionError),
{
    match probe {
        AgentProbe::Disconnected => Err(DMXDisconnectionError),
        AgentProbe::Signal => Ok(()),
        AgentProbe::NoSignal => Ok(()),
    }
}

/// A DMX interface: the caller-facing end of one open DMX line.
///
/// It owns the channel universe, the mode flag and the packet-time floor,
/// each held in a shared cell that the transmission worker reads, and the
/// signalling endpoints to that worker. The interface is the only writer
/// of the cells, so the values it last wrote are exactly what the worker
/// observes.
pub struct DMXSerial {
    name: String,
    channels: ArcRwLock<[u8; DMX_CHANNELS]>,
    agent: AgentCommunication<()>,
    is_sync: ArcRwLock<bool>,
    min_time_break_to_break: ArcRwLock<u64>,
    // The interface-side record of what was last written to each cell.
    cur_channels: [u8; DMX_CHANNELS],
    cur_sync: bool,
    cur_min_b2b: u64,
}

impl DMXSerial {
    /// The path the interface was opened on.
    pub closed spec fn name_view(&self) -> Seq<char> {
        self.name@
    }

    /// The 512 channel values as last set through this interface.
    pub closed spec fn channels_view(&self) -> Seq<u8> {
        self.cur_channels@
    }

    /// Whether the interface is in sync mode.
    pub closed spec fn sync_mode(&self) -> bool {
        self.cur_sync
    }

    /// The configured floor, in microseconds, on the time between frames.
    pub closed spec fn packet_time_us(&self) -> u64 {
        self.cur_min_b2b
    }

    /// The signalling endpoints of this interface.
    pub closed spec fn agent_comm(&self) -> AgentCommunication<()> {
        self.agent
    }

    /// The shared cells accept every value, so the interface can always
    /// publish to them.
    pub closed spec fn wf(&self) -> bool {
        &&& self.channels.wf()
        &&& self.is_sync.wf()
        &&& self.min_time_break_to_break.wf()
    }

    /// Assembles the interface around freshly created signalling
    /// endpoints: a zeroed universe, async mode, and the default packet
    /// time. The caller then hands the worker the read-only views and the
    /// worker-side endpoints.
    pub fn from_parts(name: String, agent: AgentCommunication<()>) -> (r: DMXSerial)
        ensures
            r.wf(),
            r.name_view() == name@,
            r.channels_view().len() == DMX_CHANNELS,
            forall|i: int| 0 <= i < DMX_CHANNELS ==> r.channels_view()[i] == 0,
            !r.sync_mode(),
            r.packet_time_us() == DEFAULT_MIN_BREAK_TO_BREAK_US,
            r.agent_comm() == agent,
    {
        let zeroed: [u8; DMX_CHANNELS] = [0; DMX_CHANNELS];
        DMXSerial {
            name,
            channels: ArcRwLock::new(zeroed),
            agent,
            is_sync: ArcRwLock::new(false),
            min_time_break_to_break: ArcRwLock::new(DEFAULT_MIN_BREAK_TO_BREAK_US),
            cur_channels: zeroed,
            cur_sync: false,
            cur_min_b2b: DEFAULT_MIN_BREAK_TO_BREAK_US,
        }
    }

    /// The path on which the interface was opened.
    pub fn name(&self) -> (r: &str)
        ensures
            r@ == self.name_view(),
    {
        self.name.as_str()
    }

    /// A read-only handle on the channel cell, for the worker.
    pub fn channel_view(&self) -> (r: ReadOnly<[u8; DMX_CHANNELS]>) {
        self.channels.read_only()
    }

    /// A read-only handle on the mode cell, for the worker.
    pub fn sync_mode_view(&self) -> (r: ReadOnly<bool>) {
        self.is_sync.read_only()
    }

    /// A read-only handle on the packet-time cell, for the worker.
    pub fn packet_time_view(&self) -> (r: ReadOnly<u64>) {
        self.min_time_break_to_break.read_only()
    }

    /// Sets channel `channel` (one-based) to `value` and publishes the
    /// universe to the worker. Fails, leaving every channel unchanged,
    /// when the index lies outside `1..=512`.
    pub fn set_channel(&mut self, channel: usize, value: u8) -> (r: Result<
        (),
        DMXChannelValidityError,
    >)
        requires
            old(self).wf(),
        ensures
            final(self).wf(),
            final(self).name_view() == old(self).name_view(),
            final(self).sync_mode() == old(self).sync_mode(),
            final(self).packet_time_us() == old(self).packet_time_us(),
            final(self).agent_comm() == old(self).agent_comm(),
            r is Ok <==> 1 <= channel <= DMX_CHANNELS,
            r is Ok ==> final(self).channels_view() == old(self).channels_view().update(
                channel - 1,
                value,
            ),
            r is Err ==> final(self).channels_view() == old(self).channels_view(),
            r == Err::<(), DMXChannelValidityError>(DMXChannelValidityError::TooLow) <==> channel
                < 1,
            r == Err::<(), DMXChannelValidityError>(DMXChannelValidityError::TooHigh) <==> channel
                > DMX_CHANNELS,
    {
        match check_valid_channel(channel) {
            Err(e) => Err(e),
            Ok(()) => {
                self.cur_channels[channel - 1] = value;
                self.channels.write(self.cur_channels);
                Ok(())
            },
        }
    }

    /// Replaces the whole universe with `channels` and publishes it to
    /// the worker as one atomic write.
    pub fn set_channels(&mut self, channels: [u8; DMX_CHANNELS])
        requires
            old(self).wf(),
        ensures
            final(self).wf(),
            final(self).name_view() == old(self).name_view(),
            final(self).sync_mode() == old(self).sync_mode(),
            final(self).packet_time_us() == old(self).packet_time_us(),
            final(self).agent_comm() == old(self).agent_comm(),
            final(self).channels_view() == channels@,
    {
        self.cur_channels = channels;
        self.channels.write(self.cur_channels);
    }

    /// The value of channel `channel` (one-based). Fails when the index
    /// lies outside `1..=512`.
    pub fn get_channel(&self, channel: usize) -> (r: Result<u8, DMXChannelValidityError>)
        ensures
            r is Ok <==> 1 <= channel <= DMX_CHANNELS,
            r is Ok ==> r == Ok::<u8, DMXChannelValidityError>(
                self.channels_view()[channel - 1],
            ),
            r == Err::<u8, DMXChannelValidityError>(DMXChannelValidityError::TooLow) <==> channel
                < 1,
            r == Err::<u8, DMXChannelValidityError>(DMXChannelValidityError::TooHigh) <==> channel
                > DMX_CHANNELS,
    {
        match check_valid_channel(channel) {
            Err(e) => Err(e),
            Ok(()) => Ok(self.cur_channels[channel - 1]),
        }
    }

    /// All 512 channel values, in index order.
    pub fn get_channels(&self) -> (r: [u8; DMX_CHANNELS])
        ensures
            r@ == self.channels_view(),
    {
        self.cur_channels
    }

    /// Resets every channel to `0` and publishes the zeroed universe to
    /// the worker.
    pub fn reset_channels(&mut self)
        requires
            old(self).wf(),
        ensures
            final(self).wf(),
            final(self).name_view() == old(self).name_view(),
            final(self).sync_mode() == old(self).sync_mode(),
            final(self).packet_time_us() == old(self).packet_time_us(),
            final(self).agent_comm() == old(self).agent_comm(),
            final(self).channels_view().len() == DMX_CHANNELS,
            forall|i: int| 0 <= i < DMX_CHANNELS ==> final(self).channels_view()[i] == 0,
    {
        self.cur_channels = [0; DMX_CHANNELS];
        self.channels.write(self.cur_channels);
    }

    /// Blocks until the worker signals that a frame went out. Reports a
    /// disconnection if the worker has terminated instead.
    fn wait_for_update(&self) -> (r: Result<(), DMXDisconnectionError>) {
        signal_outcome(recv_signal(&self.agent.rx))
    }

    /// Requests a frame and blocks until the worker reports it sent.
    /// Works in both modes: in async mode it merely throttles the caller
    /// to the frame cadence. Reports a disconnection if the worker has
    /// terminated.
    pub fn update(&mut self) -> (r: Result<(), DMXDisconnectionError>)
        ensures
            *final(self) == *old(self),
    {
        match self.update_async() {
            Err(e) => Err(e),
            Ok(()) => self.wait_for_update(),
        }
    }

    /// Requests a frame without waiting for its completion. Reports a
    /// disconnection if the worker has terminated.
    pub fn update_async(&self) -> (r: Result<(), DMXDisconnectionError>) {
        signal_outcome(send_signal(&self.agent.tx))
    }

    /// Switches the interface to sync mode: the worker sends a frame only
    /// on an explicit update request. Idempotent.
    pub fn set_sync(&mut self)
        requires
            old(self).wf(),
        ensures
            final(self).wf(),
            final(self).name_view() == old(self).name_view(),
            final(self).channels_view() == old(self).channels_view(),
            final(self).packet_time_us() == old(self).packet_time_us(),
            final(self).agent_comm() == old(self).agent_comm(),
            final(self).sync_mode(),
    {
        self.cur_sync = true;
        self.is_sync.write(true);
    }

    /// Switches the interface to async mode: the worker sends frames
    /// continuously, paced only by the packet-time floor. Idempotent.
    pub fn set_async(&mut self)
        requires
            old(self).wf(),
        ensures
            final(self).wf(),
            final(self).name_view() == old(self).name_view(),
            final(self).channels_view() == old(self).channels_view(),
            final(self).packet_time_us() == old(self).packet_time_us(),
            final(self).agent_comm() == old(self).agent_comm(),
            !final(self).sync_mode(),
    {
        self.cur_sync = false;
        self.is_sync.write(false);
    }

    /// Whether the interface is in sync mode.
    pub fn is_sync(&self) -> (r: bool)
        ensures
            r == self.sync_mode(),
    {
        self.cur_sync
    }

    /// Whether the interface is in async mode: always the opposite of
    /// [`DMXSerial::is_sync`].
    pub fn is_async(&self) -> (r: bool)
        ensures
            r == !self.sync_mode(),
    {
        !self.is_sync()
    }

    /// Sets the floor, in microseconds, on the time between the starts of
    /// two consecutive frames, and publishes it to the worker.
    pub fn set_packet_time(&mut self, time: u64)
        requires
            old(self).wf(),
        ensures
            final(self).wf(),
            final(self).name_view() == old(self).name_view(),
            final(self).channels_view() == old(self).channels_view(),
            final(self).sync_mode() == old(self).sync_mode(),
            final(self).agent_comm() == old(self).agent_comm(),
            final(self).packet_time_us() == time,
    {
        self.cur_min_b2b = time;
        self.min_time_break_to_break.write(time);
    }

    /// The configured floor, in microseconds, on the time between frames.
    pub fn get_packet_time(&self) -> (r: u64)
        ensures
            r == self.packet_time_us(),
    {
        self.cur_min_b2b
    }

    /// Probes, without blocking, whether the worker is still alive.
    /// Reports a disconnection once the worker has terminated, whether
    /// from a transport failure or a teardown.
    pub fn check_agent(&self) -> (r: Result<(), DMXDisconnectionError>) {
        probe_outcome(probe_signal(&self.agent.rx))
    }

    /// Installs a freshly assembled replacement interface in place of
    /// this one, carrying this interface's channel values over to it:
    /// the in-place half of a reopen, once the caller has opened the
    /// replacement against the same path. Mode, packet time and worker
    /// are the replacement's.
    pub fn adopt(&mut self, replacement: DMXSerial)
        requires
            replacement.wf(),
        ensures
            final(self).wf(),
            final(self).channels_view() == old(self).channels_view(),
            final(self).name_view() == replacement.name_view(),
            final(self).sync_mode() == replacement.sync_mode(),
            final(self).packet_time_us() == replacement.packet_time_us(),
            final(self).agent_comm() == replacement.agent_comm(),
    {
        let channels = self.get_channels();
        *self = replacement;
        self.set_channels(channels);
    }
}

/// Law: the universe behind an interface always holds exactly 512
/// values; there is no sparse or partial state.
pub broadcast proof fn lemma_channels_view_len(dmx: &DMXSerial)
    ensures
        (#[trigger] dmx.channels_view()).len() == DMX_CHANNELS,
{
}

/// Law: setting a valid channel and then reading it yields the value that
/// was set, and every other channel keeps its previous value. This is the
/// composition of the contracts of [`DMXSerial::set_channel`], which
/// updates the universe at `channel - 1`, and [`DMXSerial::get_channel`],
/// which reads it there.
pub proof fn lemma_set_then_get_channel(channels: Seq<u8>, channel: usize, value: u8)
    requires
        channels.len() == DMX_CHANNELS,
        1 <= channel <= DMX_CHANNELS,
    ensures
        channels.update(channel - 1, value)[channel - 1] == value,
        forall|other: int|
            0 <= other < DMX_CHANNELS && other != channel - 1 ==> channels.update(
                channel - 1,
                value,
            )[other] == channels[other],
{
}

} // verus!
