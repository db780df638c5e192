//! The stream of device lists that the kubelet watches.

use vstd::prelude::*;

use crate::messages::Device;
use crate::messages::DeviceView;
use crate::messages::ListAndWatchResponse;

verus! {

/// What a poll of the stream yields.
#[derive(Debug, PartialEq, Eq)]
pub enum WatchPoll {
    /// The next message of the stream.
    Ready(ListAndWatchResponse),
    /// The stream has ended.
    Ended,
    /// There is nothing to send for now.
    Pending,
}

#[verifier::ext_equal]
pub enum WatchPollView {
    Ready(Seq<DeviceView>),
    Ended,
    Pending,
}

impl DeepView for WatchPoll {
    type V = WatchPollView;

    open spec fn deep_view(&self) -> WatchPollView {
        match self {
            WatchPoll::Ready(response) => WatchPollView::Ready(response.deep_view()),
            WatchPoll::Ended => WatchPollView::Ended,
            WatchPoll::Pending => WatchPollView::Pending,
        }
    }
}

/// A stream that sends a list of devices once, and then stays open until the program exits.
#[derive(Debug, PartialEq, Eq)]
pub struct ListDevices {
    devices: Vec<Device>,
    sent: bool,
}

#[verifier::ext_equal]
pub struct ListDevicesView {
    pub devices: Seq<DeviceView>,
    pub sent: bool,
}

impl View for ListDevices {
    type V = ListDevicesView;

    closed spec fn view(&self) -> ListDevicesView {
        ListDevicesView { devices: self.devices.deep_view(), sent: self.sent }
    }
}

impl ListDevicesView {
    /// What a poll yields, given whether the program is about to exit.
    pub open spec fn polled(self, should_exit: bool) -> WatchPollView {
        if !self.sent {
            WatchPollView::Ready(self.devices)
        } else if should_exit {
            WatchPollView::Ended
        } else {
            WatchPollView::Pending
        }
    }

    /// The stream after a poll.
    pub open spec fn after_poll(self) -> ListDevicesView {
        ListDevicesView { sent: true, ..self }
    }

    /// The stream after the first `n` polls.
    pub open spec fn after_polls(self, n: nat) -> ListDevicesView
        decreases n,
    {
        if n == 0 {
            self
        } else {
            self.after_polls((n - 1) as nat).after_poll()
        }
    }
}

impl ListDevices {
    /// A stream that has sent nothing yet.
    pub fn new(devices: Vec<Device>) -> (r: ListDevices)
        ensures
            r@ == (ListDevicesView { devices: devices.deep_view(), sent: false }),
    {
        ListDevices { devices, sent: false }
    }

    /// Polls the stream: the devices come first, then nothing until `should_exit`, then the end.
    pub fn poll_next(&mut self, should_exit: bool) -> (r: WatchPoll)
        ensures
            r.deep_view() == old(self)@.polled(should_exit),
            final(self)@ == old(self)@.after_poll(),
            match r {
                WatchPoll::Ready(response) => !old(self)@.sent && response.devices.deep_view()
                    == old(self)@.devices,
                WatchPoll::Ended => old(self)@.sent && should_exit,
                WatchPoll::Pending => old(self)@.sent && !should_exit,
            },
            final(self)@.sent,
            final(self)@.devices == old(self)@.devices,
    {
        if !self.sent {
            self.sent = true;
            let devices = self.devices.clone();
            assert(devices.deep_view() =~= self.devices.deep_view());
            WatchPoll::Ready(ListAndWatchResponse { devices })
        } else if should_exit {
            WatchPoll::Ended
        } else {
            WatchPoll::Pending
        }
    }
}

/// A new stream sends its devices with the first poll and never again: the poll number `n` (from
/// zero), with `should_exit` as it is then, ends the stream or leaves it pending if `n` is not zero.
pub proof fn devices_are_sent_once(stream: ListDevicesView, n: nat, should_exit: bool)
    requires
        !stream.sent,
    ensures
        stream.after_polls(n).devices == stream.devices,
        stream.after_polls(n).polled(should_exit) == (if n == 0 {
            WatchPollView::Ready(stream.devices)
        } else if should_exit {
            WatchPollView::Ended
        } else {
            WatchPollView::Pending
        }),
    decreases n,
{
    if n > 0 {
        devices_are_sent_once(stream, (n - 1) as nat, should_exit);
    }
}

/// What a single poll does, of any stream: one that has not sent its devices sends all of them,
/// exit or not; one that has ends if and only if the program exits; and either keeps its devices and
/// counts as having sent them.
pub proof fn poll_sends_or_waits_or_ends(stream: ListDevicesView, should_exit: bool)
    ensures
        !stream.sent ==> stream.polled(should_exit) == WatchPollView::Ready(stream.devices),
        stream.sent && should_exit ==> stream.polled(should_exit) == WatchPollView::Ended,
        stream.sent && !should_exit ==> stream.polled(should_exit) == WatchPollView::Pending,
        stream.after_poll().sent,
        stream.after_poll().devices == stream.devices,
{
}

/// The view of a poll tells the three outcomes apart and shows all devices.
pub proof fn view_of_poll_is_faithful(poll: WatchPoll)
    ensures
        match poll {
            WatchPoll::Ready(response) => poll.deep_view() == WatchPollView::Ready(
                response.devices.deep_view(),
            ),
            WatchPoll::Ended => poll.deep_view() == WatchPollView::Ended,
            WatchPoll::Pending => poll.deep_view() == WatchPollView::Pending,
        },
{
}

} // verus!
