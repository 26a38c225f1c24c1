//! The registry: every device that the event stream has announced and not
//! withdrawn, by index.

use crate::base::{Event, Operation};
use crate::driver::{BlockStatus, Driver, EventBased, EventBasedRepr};
use crate::reader::DecodeError;
use std::collections::HashMap;
use vstd::prelude::*;
use vstd::std_specs::iter::IteratorSpec;

verus! {

broadcast use vstd::std_specs::hash::group_hash_axioms;

/// A change was reported for a device that the registry does not hold.
#[derive(Debug, Clone, Copy, PartialEq, Eq, Hash, Structural)]
pub struct UnknownDevice {
    pub index: usize,
}

/// What the registry reports of an element of the event stream that it could
/// not apply. A fault concerns that element alone.
#[derive(Debug, Clone, Copy, PartialEq, Eq, Hash, Structural)]
pub enum Fault {
    /// The element was no record.
    Decode(DecodeError),
    /// The element was a change for a device that the registry does not hold.
    UnknownDevice(UnknownDevice),
}

/// The fault of an element of the event stream, if it has one.
pub open spec fn fault_of(
    devices: Map<usize, EventBasedRepr>,
    element: Result<Event, DecodeError>,
) -> Option<Fault> {
    match element {
        Err(error) => Some(Fault::Decode(error)),
        Ok(event) => if event.operation is Change && !devices.contains_key(event.index) {
            Some(Fault::UnknownDevice(UnknownDevice { index: event.index }))
        } else {
            None
        },
    }
}

/// The devices after one more element of the event stream: an element that
/// is no record changes nothing.
pub open spec fn updated(
    devices: Map<usize, EventBasedRepr>,
    element: Result<Event, DecodeError>,
) -> Map<usize, EventBasedRepr> {
    match element {
        Ok(event) => applied(devices, event),
        Err(_) => devices,
    }
}

/// The device that an event describes.
pub open spec fn described(event: Event) -> EventBasedRepr {
    EventBasedRepr {
        index: event.index,
        kind: event.kind,
        block_status: BlockStatus::spec_from_block(event.block),
    }
}

/// The devices after one more event. An addition puts the device of the
/// event in the place of its index, whatever was there. A deletion empties
/// that place. A change gives the device of that index the block status of
/// the event and leaves its kind; where there is no such device it changes
/// nothing.
pub open spec fn applied(devices: Map<usize, EventBasedRepr>, event: Event) -> Map<
    usize,
    EventBasedRepr,
> {
    match event.operation {
        Operation::Add => devices.insert(event.index, described(event)),
        Operation::Delete => devices.remove(event.index),
        Operation::Change { .. } => if devices.contains_key(event.index) {
            devices.insert(
                event.index,
                EventBasedRepr {
                    block_status: BlockStatus::spec_from_block(event.block),
                    ..devices[event.index]
                },
            )
        } else {
            devices
        },
    }
}

/// The devices after a run of events, applied in their order.
pub open spec fn replayed(devices: Map<usize, EventBasedRepr>, events: Seq<Event>) -> Map<
    usize,
    EventBasedRepr,
>
    decreases events.len(),
{
    if events.len() == 0 {
        devices
    } else {
        applied(replayed(devices, events.drop_last()), events.last())
    }
}

/// Whether every device stands at its own index.
pub open spec fn indexed(devices: Map<usize, EventBasedRepr>) -> bool {
    forall|index: usize| #[trigger]
        devices.contains_key(index) ==> devices[index].index == index
}

/// An event touches the device of its own index and no other.
pub proof fn lemma_other_devices_stay(
    devices: Map<usize, EventBasedRepr>,
    event: Event,
    index: usize,
)
    requires
        index != event.index,
    ensures
        applied(devices, event).contains_key(index) == devices.contains_key(index),
        devices.contains_key(index) ==> applied(devices, event)[index] == devices[index],
{
}

/// Devices that stand at their own index still do after any event.
pub proof fn lemma_applied_keeps_indexed(devices: Map<usize, EventBasedRepr>, event: Event)
    requires
        indexed(devices),
    ensures
        indexed(applied(devices, event)),
{
}

/// The last addition wins: after an addition the registry holds the device
/// of that event, with its kind and block status, whatever it held at that
/// index before. An earlier addition for the same index leaves no trace.
pub proof fn lemma_add_overwrites(devices: Map<usize, EventBasedRepr>, first: Event, second: Event)
    requires
        first.operation is Add,
        second.operation is Add,
        first.index == second.index,
    ensures
        applied(devices, second).contains_key(second.index),
        applied(devices, second)[second.index] == described(second),
        applied(applied(devices, first), second) == applied(devices, second),
{
}

/// Deleting removes the device of the index; where there is none, deleting
/// changes nothing.
pub proof fn lemma_delete(devices: Map<usize, EventBasedRepr>, event: Event)
    requires
        event.operation is Delete,
    ensures
        !applied(devices, event).contains_key(event.index),
        !devices.contains_key(event.index) ==> applied(devices, event) == devices,
{
    if !devices.contains_key(event.index) {
    }
}

/// A change replaces the block status of the device of its index and keeps
/// the index and the kind. It adds no device and removes none, whether or
/// not it was addressed to all devices.
pub proof fn lemma_change(devices: Map<usize, EventBasedRepr>, event: Event)
    requires
        event.operation is Change,
    ensures
        applied(devices, event).dom() == devices.dom(),
        devices.contains_key(event.index) ==> applied(devices, event)[event.index] == (
        EventBasedRepr {
            index: devices[event.index].index,
            kind: devices[event.index].kind,
            block_status: BlockStatus::spec_from_block(event.block),
        }),
        !devices.contains_key(event.index) ==> applied(devices, event) == devices,
        applied(devices, event) == applied(
            devices,
            Event { operation: Operation::Change { all: !event.operation->all }, ..event },
        ),
{
}

/// A device that is added, then changed, then deleted: between the change
/// and the deletion the registry holds it with the kind of the addition and
/// the block status of the change, and after the deletion it holds no device
/// of that index.
pub proof fn lemma_add_change_delete(
    devices: Map<usize, EventBasedRepr>,
    add: Event,
    change: Event,
    delete: Event,
)
    requires
        add.operation is Add,
        change.operation is Change,
        delete.operation is Delete,
        add.index == change.index,
        add.index == delete.index,
    ensures
        replayed(devices, seq![add, change]).contains_key(add.index),
        replayed(devices, seq![add, change])[add.index] == (EventBasedRepr {
            index: add.index,
            kind: add.kind,
            block_status: BlockStatus::spec_from_block(change.block),
        }),
        !replayed(devices, seq![add, change, delete]).contains_key(add.index),
{
    lemma_replayed_push(devices, seq![add], change);
    lemma_replayed_push(devices, seq![add, change], delete);
    lemma_replayed_push(devices, Seq::<Event>::empty(), add);
    assert(seq![add].push(change) =~= seq![add, change]);
}

/// Replaying a run of events and then one more is applying that one to the
/// outcome of the run.
pub proof fn lemma_replayed_push(
    devices: Map<usize, EventBasedRepr>,
    events: Seq<Event>,
    event: Event,
)
    ensures
        replayed(devices, events.push(event)) == applied(replayed(devices, events), event),
        replayed(devices, Seq::<Event>::empty()) == devices,
{
    assert(events.push(event).drop_last() =~= events);
}

/// The devices known from the event stream.
pub struct Drivers {
    inner: HashMap<usize, Driver<EventBased>>,
}

impl View for Drivers {
    type V = Map<usize, EventBasedRepr>;

    closed spec fn view(&self) -> Map<usize, EventBasedRepr> {
        self.inner@.map_values(|driver: Driver<EventBased>| driver@)
    }
}

/// A registry that holds no device yet.
pub fn drivers() -> (registry: Drivers)
    ensures
        registry@ == Map::<usize, EventBasedRepr>::empty(),
{
    Drivers::new()
}

impl Drivers {
    #[verifier::type_invariant]
    spec fn inv(&self) -> bool {
        forall|index: usize| #[trigger]
            self.inner@.contains_key(index) ==> self.inner@[index]@.index == index
    }

    fn new() -> (registry: Drivers)
        ensures
            registry@ == Map::<usize, EventBasedRepr>::empty(),
    {
        let registry = Drivers { inner: HashMap::new() };
        registry
    }

    /// Applies one event of the stream. A change for an index that the
    /// registry does not hold is reported and changes nothing; a deletion of
    /// such an index is no fault.
    pub fn apply(&mut self, event: Event) -> (result: Result<(), UnknownDevice>)
        ensures
            final(self)@ == applied(old(self)@, event),
            indexed(final(self)@),
            result is Err <==> event.operation is Change && !old(self)@.contains_key(event.index),
            result matches Err(unknown) ==> unknown.index == event.index,
    {
        proof {
            use_type_invariant(&*self);
        }
        let mut taken = Drivers::new();
        core::mem::swap(self, &mut taken);
        let Drivers { inner: mut devices } = taken;
        let result = match event.operation {
            Operation::Add => {
                let driver = Driver::event_based(
                    event.index,
                    event.kind,
                    BlockStatus::from_block(event.block),
                );
                let _ = devices.insert(event.index, driver);
                Ok(())
            },
            Operation::Delete => {
                let _ = devices.remove(&event.index);
                Ok(())
            },
            Operation::Change { .. } => {
                let found = match devices.get(&event.index) {
                    Some(driver) => Some(driver.kind()),
                    None => None,
                };
                match found {
                    Some(kind) => {
                        let driver = Driver::event_based(
                            event.index,
                            kind,
                            BlockStatus::from_block(event.block),
                        );
                        let _ = devices.insert(event.index, driver);
                        Ok(())
                    },
                    None => Err(UnknownDevice { index: event.index }),
                }
            },
        };
        *self = Drivers { inner: devices };
        result
    }

    /// Takes one element of the event stream: a record is applied, and what
    /// could not be applied is handed back as a fault. The registry is ready
    /// for the next element either way.
    pub fn update(&mut self, element: Result<Event, DecodeError>) -> (fault: Option<Fault>)
        ensures
            final(self)@ == updated(old(self)@, element),
            fault == fault_of(old(self)@, element),
            indexed(final(self)@),
    {
        proof {
            use_type_invariant(&*self);
        }
        match element {
            Ok(event) => match self.apply(event) {
                Ok(()) => None,
                Err(unknown) => Some(Fault::UnknownDevice(unknown)),
            },
            Err(error) => Some(Fault::Decode(error)),
        }
    }

    /// A view of the registry as it is now.
    pub fn read(&self) -> (guard: DriversReadGuard<'_>)
        ensures
            guard@ == self@,
            indexed(guard@),
    {
        proof {
            use_type_invariant(self);
        }
        DriversReadGuard(self)
    }
}

/// The registry at one moment. While a guard is held the registry does not
/// change.
pub struct DriversReadGuard<'a>(&'a Drivers);

impl<'a> View for DriversReadGuard<'a> {
    type V = Map<usize, EventBasedRepr>;

    closed spec fn view(&self) -> Map<usize, EventBasedRepr> {
        self.0@
    }
}

impl<'a> DriversReadGuard<'a> {
    /// The device of an index, if the registry holds one.
    pub fn get(&self, index: usize) -> (driver: Option<Driver<EventBased>>)
        ensures
            match driver {
                Some(driver) => self@.contains_key(index) && self@[index] == driver@,
                None => !self@.contains_key(index),
            },
    {
        match self.0.inner.get(&index) {
            Some(driver) => Some(*driver),
            None => None,
        }
    }

    /// Number of devices in the registry.
    pub fn len(&self) -> (len: usize)
        ensures
            len == self@.len(),
            self@.dom().finite(),
    {
        assert(self@.dom() =~= self.0.inner@.dom());
        self.0.inner.len()
    }

    /// Every device of the registry, each once, in no particular order.
    pub fn stream(&self) -> (devices: Vec<Driver<EventBased>>)
        ensures
            devices@.len() == self@.len(),
            forall|i: int|
                0 <= i < devices@.len() ==> self@.contains_key(#[trigger] devices@[i]@.index)
                    && self@[devices@[i]@.index] == devices@[i]@,
            forall|i: int, j: int|
                0 <= i < j < devices@.len() ==> devices@[i]@.index != devices@[j]@.index,
            forall|index: usize|
                self@.contains_key(index) ==> exists|i: int|
                    0 <= i < devices@.len() && #[trigger] devices@[i]@.index == index,
    {
        proof {
            use_type_invariant(self.0);
        }
        let ghost held = self.0.inner@;
        let ghost order = vstd::std_specs::hash::spec_keys_iter(&self.0.inner).remaining().unref();
        let mut devices: Vec<Driver<EventBased>> = Vec::new();
        for index in keys: self.0.inner.keys()
            invariant
                held == self.0.inner@,
                keys.seq().unref() == order,
                keys.seq().no_duplicates(),
                order.to_set() == held.dom(),
                order.len() == held.dom().len(),
                devices@.len() == keys.index(),
                forall|i: int|
                    0 <= i < devices@.len() ==> held.contains_key(order[i])
                        && #[trigger] devices@[i] == held[order[i]],
        {
            if let Some(driver) = self.0.inner.get(index) {
                devices.push(*driver);
            }
        }
        proof {
            assert(self@.dom() =~= held.dom());
            assert forall|index: usize| self@.contains_key(index) implies exists|i: int|
                0 <= i < devices@.len() && #[trigger] devices@[i]@.index == index by {
                let i = choose|i: int| 0 <= i < order.len() && order[i] == index;
                assert(devices@[i] == held[order[i]]);
            }
        }
        devices
    }
}

} // verus!
