//! The applet's Bluetooth state and how Bluetooth messages change it.

use vstd::prelude::*;

use crate::app::Action;
use crate::bluetooth::{
    BluerAgentEvent, BluerDevice, BluerDeviceStatus, BluerEvent, BluerRequest, BluerState, Address,
};

verus! {

/// Bluetooth state.
#[derive(Debug)]
pub struct BluetoothModel {
    pub bluer_state: BluerState,
    pub has_bluer_sender: bool,
    pub show_visible_devices: bool,
    /// A pairing that waits for the user's confirmation: device and passkey.
    pub request_confirmation: Option<(BluerDevice, String)>,
    pub bluetooth_available: bool,
}

/// `i` is the first device with this address.
pub open spec fn is_first_device(s: Seq<BluerDevice>, a: Address, i: int) -> bool {
    &&& 0 <= i < s.len()
    &&& s[i].address.0@ == a.0@
    &&& forall|j: int| 0 <= j < i ==> (#[trigger] s[j]).address.0@ != a.0@
}

/// No device has this address.
pub open spec fn no_device(s: Seq<BluerDevice>, a: Address) -> bool {
    forall|j: int| 0 <= j < s.len() ==> (#[trigger] s[j]).address.0@ != a.0@
}

/// The devices with the first device of this address set to `status`.
pub open spec fn with_status(s: Seq<BluerDevice>, a: Address, status: BluerDeviceStatus, t: Seq<BluerDevice>) -> bool {
    &&& no_device(s, a) ==> t == s
    &&& forall|i: int| is_first_device(s, a, i) ==> t == s.update(i, BluerDevice { status, ..s[i] })
}

/// The state shown right away for a request, before the session answers: the
/// requested power state, or the first device of the address connecting,
/// disconnecting or pairing.
pub open spec fn optimistic_state(s: BluerState, t: BluerState, r: BluerRequest) -> bool {
    match r {
        BluerRequest::SetBluetoothEnabled(enabled) => t.bluetooth_enabled == enabled && t.devices@ == s.devices@,
        BluerRequest::ConnectDevice(a) => t.bluetooth_enabled == s.bluetooth_enabled
            && with_status(s.devices@, a, BluerDeviceStatus::Connecting, t.devices@),
        BluerRequest::DisconnectDevice(a) => t.bluetooth_enabled == s.bluetooth_enabled
            && with_status(s.devices@, a, BluerDeviceStatus::Disconnecting, t.devices@),
        BluerRequest::PairDevice(a) => t.bluetooth_enabled == s.bluetooth_enabled
            && with_status(s.devices@, a, BluerDeviceStatus::Pairing, t.devices@),
        BluerRequest::CancelConnect(_) => t.bluetooth_enabled == s.bluetooth_enabled && t.devices@ == s.devices@,
    }
}

/// Finds the first device with an address.
pub fn find_device(v: &Vec<BluerDevice>, a: Address) -> (r: Option<usize>)
    ensures
        match r {
            Some(i) => is_first_device(v@, a, i as int),
            None => no_device(v@, a),
        },
{
    let mut i: usize = 0;
    while i < v.len()
        invariant
            i <= v.len(),
            forall|j: int| 0 <= j < i ==> (#[trigger] v@[j]).address.0@ != a.0@,
        decreases v.len() - i,
    {
        if v[i].address == a {
            return Some(i);
        }
        i = i + 1;
    }
    None
}

fn set_status(devices: &mut Vec<BluerDevice>, a: Address, status: BluerDeviceStatus)
    ensures
        with_status(old(devices)@, a, status, final(devices)@),
{
    match find_device(devices, a) {
        Some(i) => {
            let d = devices[i].clone();
            devices.set(i, BluerDevice { status, ..d });
            proof {
                assert forall|i2: int| is_first_device(old(devices)@, a, i2) implies i2 == i by {}
            }
        },
        None => {},
    }
}

/// What an event of the Bluetooth subscription does: a new state is taken
/// over and marks Bluetooth as available (`Init` also brings the request
/// channel); the end of the subscription marks it unavailable; a pairing
/// confirmation request is kept with its reply channel; other agent requests
/// are ignored.
pub open spec fn bluetooth_event_effect(s: BluetoothModel, t: BluetoothModel, e: BluerEvent, acts: Seq<Action>) -> bool {
    match e {
        BluerEvent::RequestResponse { state, .. } => t == (BluetoothModel { bluer_state: state, bluetooth_available: true, ..s })
            && acts == Seq::<Action>::empty(),
        BluerEvent::Init { state } => t == (BluetoothModel {
            bluer_state: state,
            has_bluer_sender: true,
            bluetooth_available: true,
            ..s
        }) && acts == Seq::<Action>::empty(),
        BluerEvent::DevicesChanged { state } => t == (BluetoothModel { bluer_state: state, bluetooth_available: true, ..s })
            && acts == Seq::<Action>::empty(),
        BluerEvent::Finished => t == (BluetoothModel { bluetooth_available: false, ..s }) && acts == Seq::<Action>::empty(),
        BluerEvent::AgentEvent(BluerAgentEvent::RequestConfirmation(d, code)) => t == (BluetoothModel {
            request_confirmation: Some((d, code)),
            ..s
        }) && acts == seq![Action::KeepPairingReply],
        BluerEvent::AgentEvent(_) => t == s && acts == Seq::<Action>::empty(),
    }
}

impl BluetoothModel {
    /// Handles an event of the Bluetooth subscription.
    pub fn on_event(&mut self, e: BluerEvent) -> (acts: Vec<Action>)
        ensures
            bluetooth_event_effect(*old(self), *final(self), e, acts@),
    {
        let mut acts: Vec<Action> = Vec::new();
        match e {
            BluerEvent::RequestResponse { state, .. } => {
                self.bluer_state = state;
                self.bluetooth_available = true;
            },
            BluerEvent::Init { state } => {
                self.has_bluer_sender = true;
                self.bluer_state = state;
                self.bluetooth_available = true;
            },
            BluerEvent::DevicesChanged { state } => {
                self.bluer_state = state;
                self.bluetooth_available = true;
            },
            BluerEvent::Finished => {
                self.bluetooth_available = false;
            },
            BluerEvent::AgentEvent(event) => match event {
                BluerAgentEvent::RequestConfirmation(d, code) => {
                    self.request_confirmation = Some((d, code));
                    acts.push(Action::KeepPairingReply);
                },
                _ => {},
            },
        }
        acts
    }

    /// Handles a request of the user: the state shows its expected outcome at
    /// once, and the request goes to the session when its channel exists.
    pub fn on_request(&mut self, r: BluerRequest) -> (acts: Vec<Action>)
        ensures
            *final(self) == (BluetoothModel { bluer_state: final(self).bluer_state, ..*old(self) }),
            optimistic_state(old(self).bluer_state, final(self).bluer_state, r),
            acts@ == (if old(self).has_bluer_sender {
                seq![Action::SendBluetooth(r)]
            } else {
                Seq::<Action>::empty()
            }),
    {
        match r {
            BluerRequest::SetBluetoothEnabled(enabled) => {
                self.bluer_state.bluetooth_enabled = enabled;
            },
            BluerRequest::ConnectDevice(a) => {
                set_status(&mut self.bluer_state.devices, a, BluerDeviceStatus::Connecting);
            },
            BluerRequest::DisconnectDevice(a) => {
                set_status(&mut self.bluer_state.devices, a, BluerDeviceStatus::Disconnecting);
            },
            BluerRequest::PairDevice(a) => {
                set_status(&mut self.bluer_state.devices, a, BluerDeviceStatus::Pairing);
            },
            BluerRequest::CancelConnect(_) => {},
        }
        let mut acts: Vec<Action> = Vec::new();
        if self.has_bluer_sender {
            acts.push(Action::SendBluetooth(r));
        }
        acts
    }

    /// Answers the pending pairing confirmation, if there is one, and clears it.
    pub fn answer_pairing(&mut self, accept: bool) -> (acts: Vec<Action>)
        ensures
            *final(self) == (BluetoothModel { request_confirmation: None, ..*old(self) }),
            acts@ == (if old(self).request_confirmation is Some {
                seq![Action::AnswerPairing(accept)]
            } else {
                Seq::<Action>::empty()
            }),
    {
        let mut acts: Vec<Action> = Vec::new();
        if self.request_confirmation.take().is_some() {
            acts.push(Action::AnswerPairing(accept));
        }
        acts
    }
}

} // verus!
