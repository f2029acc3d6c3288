use std::sync::{Arc, Mutex};
use std::time::Instant;
use vstd::prelude::*;

verus! {

#[verifier::external_type_specification]
#[verifier::external_body]
#[verifier::reject_recursive_types(T)]
pub struct ExMutex<T: ?Sized>(std::sync::Mutex<T>);

#[verifier::external_type_specification]
#[verifier::external_body]
pub struct ExInstant(std::time::Instant);

/// Relies on `Mutex::new`: wraps the value in a fresh, unlocked mutex.
pub assume_specification<T>[ std::sync::Mutex::<T>::new ](t: T) -> (r: std::sync::Mutex<T>);

/// Relies on `Instant::now`: reads the monotonic clock; nothing is known of the value.
pub assume_specification[ std::time::Instant::now ]() -> (r: std::time::Instant);

/// `n` zero bytes.
pub open spec fn zeros(n: nat) -> Seq<u8> {
    Seq::new(n, |i: int| 0u8)
}

/// The other member of the adjacent pair (0, 1), (2, 3), ... that holds `j`.
/// Ground cells come in (top, bottom) pairs of one column.
pub open spec fn pair_mate(j: int) -> int {
    if j % 2 == 0 {
        j + 1
    } else {
        j - 1
    }
}

/// Ground cells with each (top, bottom) pair swapped.
pub open spec fn flip_vert_seq(g: Seq<u8>) -> Seq<u8> {
    Seq::new(g.len(), |j: int| g[pair_mate(j)])
}

/// The normalized input of one controller, as sequences of bytes.
pub struct ControllerView {
    pub ground: Seq<u8>,
    pub air: Seq<u8>,
    pub extra: Seq<u8>,
}

/// Normalized input state, written by the device decoders.
pub struct ControllerState {
    pub ground_state: [u8; 32],
    pub air_state: [u8; 6],
    pub extra_state: [u8; 3],
}

impl View for ControllerState {
    type V = ControllerView;

    open spec fn view(&self) -> ControllerView {
        ControllerView { ground: self.ground_state@, air: self.air_state@, extra: self.extra_state@ }
    }
}

impl ControllerState {
    /// A state with every sensor and button released.
    pub fn new() -> (r: Self)
        ensures
            r@.ground == zeros(32),
            r@.air == zeros(6),
            r@.extra == zeros(3),
    {
        let r = Self { ground_state: [0u8; 32], air_state: [0u8; 6], extra_state: [0u8; 3] };
        assert(r@.ground =~= zeros(32));
        assert(r@.air =~= zeros(6));
        assert(r@.extra =~= zeros(3));
        r
    }

    /// Swaps the two cells of each column so that hardware reporting bottom-first
    /// matches the top-first order.
    pub fn flip_vert(&mut self)
        ensures
            final(self)@.ground == flip_vert_seq(old(self)@.ground),
            final(self)@.air == old(self)@.air,
            final(self)@.extra == old(self)@.extra,
    {
        let ghost g0 = self.ground_state@;
        let mut i: usize = 0;
        while i < 16
            invariant
                0 <= i <= 16,
                self.ground_state@.len() == 32,
                forall|j: int| 0 <= j < 2 * i ==> self.ground_state@[j] == g0[pair_mate(j)],
                forall|j: int| 2 * i <= j < 32 ==> self.ground_state@[j] == g0[j],
                self.air_state@ == old(self)@.air,
                self.extra_state@ == old(self)@.extra,
                g0 == old(self)@.ground,
            decreases 16 - i,
        {
            let a = self.ground_state[2 * i];
            let b = self.ground_state[2 * i + 1];
            self.ground_state[2 * i] = b;
            self.ground_state[2 * i + 1] = a;
            i = i + 1;
        }
        assert(self.ground_state@ =~= flip_vert_seq(g0));
    }
}

/// The LED pattern waiting to be written to the controller.
pub struct LedState {
    /// One (R, G, B) triplet per LED.
    pub led_state: [u8; 93],
    /// A new pattern is pending.
    pub dirty: bool,
    /// Animation epoch, read by pattern producers only.
    pub start: Instant,
}

impl LedState {
    /// All LEDs off, nothing pending.
    pub fn new() -> (r: Self)
        ensures
            r.led_state@ == zeros(93),
            !r.dirty,
    {
        let r = Self { led_state: [0u8; 93], dirty: false, start: Instant::now() };
        assert(r.led_state@ =~= zeros(93));
        r
    }
}

/// Two shared regions, each behind its own lock.
pub struct FullState {
    pub controller_state: Arc<Mutex<ControllerState>>,
    pub led_state: Arc<Mutex<LedState>>,
}

impl FullState {
    pub fn new() -> (r: Self) {
        Self {
            controller_state: Arc::new(Mutex::new(ControllerState::new())),
            led_state: Arc::new(Mutex::new(LedState::new())),
        }
    }

    /// Another handle on the controller state.
    pub fn clone_controller(&self) -> (r: Arc<Mutex<ControllerState>>)
        ensures
            r == self.controller_state,
    {
        Arc::clone(&self.controller_state)
    }

    /// Another handle on the LED state.
    pub fn clone_led(&self) -> (r: Arc<Mutex<LedState>>)
        ensures
            r == self.led_state,
    {
        Arc::clone(&self.led_state)
    }

    /// A second owner of both regions.
    pub fn share(&self) -> (r: Self)
        ensures
            r.controller_state == self.controller_state,
            r.led_state == self.led_state,
    {
        Self { controller_state: self.clone_controller(), led_state: self.clone_led() }
    }
}

} // verus!
