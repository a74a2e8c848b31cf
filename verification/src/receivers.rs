//! Starting and stopping the event receivers of a registry: which device
//! comes next, and in which order the running receivers are stopped.

use vstd::prelude::*;

use crate::device::DeviceView;
use crate::error::ErrorKind;

verus! {

/// The description of the error for a start that started nothing.
pub open spec fn no_receivers_message() -> Seq<char> {
    "No event receiver tasks has started"@
}

/// What a [`ReceiversStart`] says.
pub struct ReceiversStartView {
    /// The number of messages that the shared queue can hold.
    pub buffer_size: usize,
    /// The first device that has not been looked at yet.
    pub next: usize,
    /// The number of receivers started so far.
    pub started: usize,
}

/// How far a start of the event receivers has come.
#[derive(Debug, Clone, Copy, PartialEq, Eq)]
pub struct ReceiversStart {
    buffer_size: usize,
    next: usize,
    started: usize,
}

impl View for ReceiversStart {
    type V = ReceiversStartView;

    closed spec fn view(&self) -> ReceiversStartView {
        ReceiversStartView { buffer_size: self.buffer_size, next: self.next, started: self.started }
    }
}

impl ReceiversStart {
    /// No more receivers have been started than devices have been looked at.
    pub open spec fn wf(&self) -> bool {
        self@.started <= self@.next
    }

    /// Begins a start: no device has been looked at, no receiver started.
    #[must_use]
    pub fn new(buffer_size: usize) -> (start: Self)
        ensures
            start@ == (ReceiversStartView { buffer_size, next: 0, started: 0 }),
            start.wf(),
    {
        ReceiversStart { buffer_size, next: 0, started: 0 }
    }

    /// Returns the number of messages that the shared queue can hold.
    #[must_use]
    pub fn buffer_size(&self) -> (buffer_size: usize)
        ensures
            buffer_size == self@.buffer_size,
    {
        self.buffer_size
    }

    /// Returns the first device that has not been looked at yet.
    #[must_use]
    pub fn next(&self) -> (next: usize)
        ensures
            next == self@.next,
    {
        self.next
    }

    /// Returns the number of receivers started so far.
    #[must_use]
    pub fn started(&self) -> (started: usize)
        ensures
            started == self@.started,
    {
        self.started
    }

    /// Records that the device at the head of the start has been passed
    /// over.
    pub(crate) fn pass_over(&mut self)
        requires
            old(self).wf(),
            old(self)@.next < usize::MAX,
        ensures
            final(self)@.next == old(self)@.next + 1,
            final(self)@.started == old(self)@.started,
            final(self)@.buffer_size == old(self)@.buffer_size,
            final(self).wf(),
    {
        self.next = self.next + 1;
    }

    /// Records that the receiver of the device `id` has been started.
    pub(crate) fn record(&mut self, id: usize)
        requires
            old(self).wf(),
            old(self)@.next <= id < usize::MAX,
        ensures
            final(self)@.next == id + 1,
            final(self)@.started == old(self)@.started + 1,
            final(self)@.buffer_size == old(self)@.buffer_size,
            final(self).wf(),
    {
        self.next = id + 1;
        self.started = self.started + 1;
    }
}

/// Why a start passes a device over.
#[derive(Debug, Clone, Copy, PartialEq, Eq, Structural)]
pub enum SkipReason {
    /// The event receiver of the device is already running.
    AlreadyStarted,
    /// The device does not support events.
    NoEvents,
}

/// What a start of the event receivers does next, as contracts state it.
pub enum StartStepView {
    /// Pass this device over, with a warning that gives the reason.
    Skip(int, SkipReason),
    /// Connect to the broker of this device, subscribe to its topic, and
    /// spawn its receiver.
    Subscribe(int),
    /// Every device has been looked at: the number of receivers started, or
    /// the error for a start that started none.
    Finished(Result<usize, (ErrorKind, Seq<char>)>),
}

/// What a start does next. It looks at the first device that it has not
/// looked at yet: a device whose receiver is running is passed over, and so
/// is a device without an event source; any other device is subscribed to.
/// When no device is left, the start has failed if it started nothing, and
/// else succeeded.
pub open spec fn next_step(devices: Seq<DeviceView>, start: ReceiversStartView) -> StartStepView {
    let id = start.next as int;
    if id >= devices.len() {
        if start.started == 0 {
            StartStepView::Finished(Err((ErrorKind::Events, no_receivers_message())))
        } else {
            StartStepView::Finished(Ok(start.started))
        }
    } else if devices[id].receiving {
        StartStepView::Skip(id, SkipReason::AlreadyStarted)
    } else if devices[id].events is None {
        StartStepView::Skip(id, SkipReason::NoEvents)
    } else {
        StartStepView::Subscribe(id)
    }
}

/// The registry once the receiver of the device `id` has been started.
pub open spec fn with_receiver(devices: Seq<DeviceView>, id: int) -> Seq<DeviceView> {
    devices.update(id, DeviceView { receiving: true, ..devices[id] })
}

/// The number of devices from `from` on for which a receiver can be
/// started.
pub open spec fn eligible(devices: Seq<DeviceView>, from: int) -> nat
    decreases devices.len() - from,
{
    if from < 0 || from >= devices.len() {
        0
    } else if devices[from].can_receive() {
        1 + eligible(devices, from + 1)
    } else {
        eligible(devices, from + 1)
    }
}

/// What a start comes to when every subscription that it asks for
/// succeeds: the registry afterwards, and the number of receivers started
/// or the error for a start that started none. The devices from `from` on
/// are gone through once, in the order of the registry, with `started`
/// receivers started before.
pub open spec fn whole_start(devices: Seq<DeviceView>, from: int, started: int) -> (
    Seq<DeviceView>,
    Result<int, (ErrorKind, Seq<char>)>,
)
    decreases devices.len() - from,
{
    if from < 0 || from >= devices.len() {
        (
            devices,
            if started == 0 {
                Err((ErrorKind::Events, no_receivers_message()))
            } else {
                Ok(started)
            },
        )
    } else if devices[from].can_receive() {
        whole_start(with_receiver(devices, from), from + 1, started + 1)
    } else {
        whole_start(devices, from + 1, started)
    }
}

/// A start that is taken step by step comes to what the whole start comes
/// to: a step that passes a device over leaves the start behind that
/// device, a step that asks for a subscription leaves the start behind the
/// device with its receiver running, and a step that finishes gives the
/// result of the start and leaves the registry as it is.
pub proof fn lemma_steps_make_the_whole_start(devices: Seq<DeviceView>, start: ReceiversStartView)
    ensures
        whole_start(devices, start.next as int, start.started as int) == match next_step(
            devices,
            start,
        ) {
            StartStepView::Skip(id, _) => whole_start(devices, id + 1, start.started as int),
            StartStepView::Subscribe(id) => whole_start(
                with_receiver(devices, id),
                id + 1,
                start.started + 1,
            ),
            StartStepView::Finished(Ok(started)) => (
                devices,
                Ok::<int, (ErrorKind, Seq<char>)>(started as int),
            ),
            StartStepView::Finished(Err(error)) => (
                devices,
                Err::<int, (ErrorKind, Seq<char>)>(error),
            ),
        },
{
}

/// After a whole start every device from `from` on that has an event
/// source has a running receiver, and nothing else in the registry has
/// changed. The start gives the number of receivers started, those started
/// before and one for each device that could receive; it fails exactly when
/// that number is zero.
pub proof fn lemma_whole_start(devices: Seq<DeviceView>, from: int, started: int)
    requires
        0 <= from,
        0 <= started,
    ensures
        whole_start(devices, from, started).0.len() == devices.len(),
        forall|i: int|
            0 <= i < devices.len() ==> #[trigger] whole_start(devices, from, started).0[i] == (if i
                >= from && devices[i].can_receive() {
                DeviceView { receiving: true, ..devices[i] }
            } else {
                devices[i]
            }),
        whole_start(devices, from, started).1 == (if started + eligible(devices, from) == 0 {
            Err::<int, (ErrorKind, Seq<char>)>((ErrorKind::Events, no_receivers_message()))
        } else {
            Ok::<int, (ErrorKind, Seq<char>)>(started + eligible(devices, from))
        }),
    decreases devices.len() - from,
{
    if from < devices.len() {
        if devices[from].can_receive() {
            lemma_whole_start(with_receiver(devices, from), from + 1, started + 1);
            lemma_eligible_behind(devices, from, from + 1);
        } else {
            lemma_whole_start(devices, from + 1, started);
        }
    }
}

/// Starting the receiver of a device changes nothing in how many of the
/// devices behind it can receive.
proof fn lemma_eligible_behind(devices: Seq<DeviceView>, id: int, from: int)
    requires
        0 <= id < from,
        id < devices.len(),
    ensures
        eligible(with_receiver(devices, id), from) == eligible(devices, from),
    decreases devices.len() - from,
{
    if from < devices.len() {
        lemma_eligible_behind(devices, id, from + 1);
    }
}

/// On a registry in which no device has an event source, a start asks for
/// no subscription, however far it has come, and fails as a whole with the
/// error for a start that started nothing.
pub proof fn lemma_no_event_source_starts_nothing(
    devices: Seq<DeviceView>,
    start: ReceiversStartView,
)
    requires
        forall|i: int| 0 <= i < devices.len() ==> devices[i].events is None,
    ensures
        !(next_step(devices, start) is Subscribe),
        whole_start(devices, 0, 0) == (
            devices,
            Err::<int, (ErrorKind, Seq<char>)>((ErrorKind::Events, no_receivers_message())),
        ),
{
    lemma_whole_start(devices, 0, 0);
    lemma_none_eligible(devices, 0);
}

/// Where no device has an event source, none can receive.
proof fn lemma_none_eligible(devices: Seq<DeviceView>, from: int)
    requires
        forall|i: int| 0 <= i < devices.len() ==> devices[i].events is None,
    ensures
        eligible(devices, from) == 0,
    decreases devices.len() - from,
{
    if 0 <= from < devices.len() {
        lemma_none_eligible(devices, from + 1);
    }
}

/// A device whose receiver is running is never subscribed to again, however
/// far any start has come: a start that comes to it passes it over, with
/// the reason that its receiver is already running.
pub proof fn lemma_running_receiver_is_skipped(
    devices: Seq<DeviceView>,
    start: ReceiversStartView,
    id: int,
)
    requires
        0 <= id < devices.len(),
        devices[id].receiving,
    ensures
        next_step(devices, start) != StartStepView::Subscribe(id),
        start.next == id ==> next_step(devices, start) == StartStepView::Skip(
            id,
            SkipReason::AlreadyStarted,
        ),
{
}

/// Once the receiver of the device that a start asked for has been started,
/// no start asks for that device again, however far it has come: a second
/// start does not make a second receiver for the device.
pub proof fn lemma_started_receiver_is_not_started_again(
    devices: Seq<DeviceView>,
    first: ReceiversStartView,
    second: ReceiversStartView,
    id: int,
)
    requires
        next_step(devices, first) == StartStepView::Subscribe(id),
    ensures
        0 <= id < devices.len(),
        !devices[id].receiving,
        next_step(with_receiver(devices, id), second) != StartStepView::Subscribe(id),
        second.next == id ==> next_step(with_receiver(devices, id), second) == StartStepView::Skip(
            id,
            SkipReason::AlreadyStarted,
        ),
{
}

/// One step of a shutdown.
#[derive(Debug, Clone, Copy, PartialEq, Eq, Structural)]
pub enum ShutdownStep {
    /// Fire the cancellation signal of the device.
    Cancel(usize),
    /// Wait until the receiver task of the device has ended.
    Await(usize),
}

/// The steps that stop the receivers of the devices from `from` on, in the
/// order of the registry: each device with an event source is cancelled, and
/// each device with a running receiver is then waited for.
pub open spec fn shutdown_steps(devices: Seq<DeviceView>, from: int) -> Seq<ShutdownStep>
    decreases devices.len() - from,
{
    if from < 0 || from >= devices.len() {
        Seq::empty()
    } else {
        device_steps(devices[from], from as usize) + shutdown_steps(devices, from + 1)
    }
}

/// The steps that stop the receiver of one device.
pub open spec fn device_steps(device: DeviceView, id: usize) -> Seq<ShutdownStep> {
    let cancel = if device.events is Some {
        seq![ShutdownStep::Cancel(id)]
    } else {
        Seq::empty()
    };
    let wait = if device.receiving {
        seq![ShutdownStep::Await(id)]
    } else {
        Seq::empty()
    };
    cancel + wait
}

/// The number of devices from `from` on whose receiver is running.
pub open spec fn running_receivers(devices: Seq<DeviceView>, from: int) -> nat
    decreases devices.len() - from,
{
    if from < 0 || from >= devices.len() {
        0
    } else if devices[from].receiving {
        1 + running_receivers(devices, from + 1)
    } else {
        running_receivers(devices, from + 1)
    }
}

/// The number of steps that wait for a receiver.
pub open spec fn awaited(steps: Seq<ShutdownStep>) -> nat
    decreases steps.len(),
{
    if steps.len() == 0 {
        0
    } else if steps.last() is Await {
        1 + awaited(steps.drop_last())
    } else {
        awaited(steps.drop_last())
    }
}

/// The waits of two runs of steps add up.
pub proof fn lemma_awaited_add(first: Seq<ShutdownStep>, second: Seq<ShutdownStep>)
    ensures
        awaited(first + second) == awaited(first) + awaited(second),
    decreases second.len(),
{
    if second.len() == 0 {
        assert(first + second =~= first);
    } else {
        assert((first + second).drop_last() =~= first + second.drop_last());
        lemma_awaited_add(first, second.drop_last());
    }
}

/// A shutdown waits for exactly as many receivers as are running, and for
/// none before it has cancelled it: every wait for a device stands directly
/// behind the cancellation of that device, and that device is one whose
/// receiver is running.
pub proof fn lemma_shutdown_awaits_every_receiver(devices: Seq<DeviceView>, from: int)
    requires
        0 <= from,
        devices.len() <= usize::MAX,
        forall|i: int| 0 <= i < devices.len() ==> (devices[i].receiving ==> devices[i].events is Some),
    ensures
        awaited(shutdown_steps(devices, from)) == running_receivers(devices, from),
        forall|k: int|
            0 <= k < shutdown_steps(devices, from).len() && shutdown_steps(devices, from)[k] is Await
                ==> {
                let id = shutdown_steps(devices, from)[k]->Await_0;
                &&& from <= id < devices.len()
                &&& devices[id as int].receiving
                &&& k > 0
                &&& shutdown_steps(devices, from)[k - 1] == ShutdownStep::Cancel(id)
            },
    decreases devices.len() - from,
{
    if from < devices.len() {
        let head = device_steps(devices[from], from as usize);
        let tail = shutdown_steps(devices, from + 1);
        lemma_shutdown_awaits_every_receiver(devices, from + 1);
        lemma_awaited_add(head, tail);
        reveal_with_fuel(awaited, 3);
        assert(awaited(head) == if devices[from].receiving {
            1nat
        } else {
            0nat
        }) by {
            if devices[from].receiving {
                assert(head.drop_last().drop_last() =~= Seq::<ShutdownStep>::empty());
            } else if devices[from].events is Some {
                assert(head.drop_last() =~= Seq::<ShutdownStep>::empty());
            } else {
                assert(head =~= Seq::<ShutdownStep>::empty());
            }
        }
        assert forall|k: int|
            0 <= k < shutdown_steps(devices, from).len() && shutdown_steps(
                devices,
                from,
            )[k] is Await implies {
            let id = shutdown_steps(devices, from)[k]->Await_0;
            &&& from <= id < devices.len()
            &&& devices[id as int].receiving
            &&& k > 0
            &&& shutdown_steps(devices, from)[k - 1] == ShutdownStep::Cancel(id)
        } by {
            if k >= head.len() {
                let inner = k - head.len();
                assert(tail[inner - 1] == shutdown_steps(devices, from)[k - 1]);
            }
        }
    }
}

} // verus!
