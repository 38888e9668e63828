//! The decisions of the random-number generator driver: what a reading of the
//! generator's status and data registers means, and when the generator must
//! be restarted. The register accesses themselves are the caller's.
use vstd::prelude::*;

verus! {

/// Why no random number was delivered. Any of them but `AlreadyEnabled`
/// usually goes away once the generator is set up again.
#[derive(Clone, Copy, PartialEq, Eq, Structural, Debug)]
pub enum ErrorType {
    /// Clock error current status.
    CECS,
    /// Seed error current status.
    SECS,
    /// Clock error interrupt status.
    CEIS,
    /// Seed error interrupt status.
    SEIS,
    /// The generator was already running when the driver took it over.
    AlreadyEnabled,
    /// No fresh number is ready yet.
    NotReady,
}

/// The flags of the generator's status register.
#[derive(Clone, Copy, PartialEq, Eq, Structural, Debug)]
pub struct RngStatus {
    /// Data ready.
    pub drdy: bool,
    pub cecs: bool,
    pub secs: bool,
    pub ceis: bool,
    pub seis: bool,
}

impl RngStatus {
    /// Whether no error flag is raised.
    pub open spec fn no_error(self) -> bool {
        !self.ceis && !self.seis && !self.cecs && !self.secs
    }

    /// Whether a poll with this status reads the data register: only when a
    /// number is ready and no error is flagged.
    pub fn data_needed(&self) -> (r: bool)
        ensures
            r == (self.no_error() && self.drdy),
    {
        !self.ceis && !self.seis && !self.cecs && !self.secs && self.drdy
    }
}

/// After this many polls in a row without a fresh number, the generator is restarted.
pub const MAX_IDLE_POLLS: u32 = 80;

/// The driver's state: the last number delivered and the count of polls since.
#[derive(Clone, Copy, PartialEq, Eq, Structural, Debug)]
pub struct Rng {
    pub last_number: u32,
    pub counter: u32,
}

/// The outcome of one poll: the number or the reason there is none, and
/// whether the generator must now be restarted.
#[derive(Clone, Copy, PartialEq, Eq, Debug)]
pub struct Poll {
    pub result: Result<u32, ErrorType>,
    pub reset: bool,
}

/// The outcome of a poll of driver state `r`, and the driver state after it.
/// Error flags are checked first, in the order clock interrupt, seed
/// interrupt, clock, seed; all but the clock status call for a restart. A
/// ready number that differs from the last one is delivered. Otherwise the
/// poll counts as idle, and an idle poll once [`MAX_IDLE_POLLS`] have passed
/// calls for a restart and starts the count anew.
pub open spec fn poll_outcome(r: Rng, status: RngStatus, data: u32) -> (Poll, Rng) {
    if status.ceis {
        (Poll { result: Err(ErrorType::CEIS), reset: true }, r)
    } else if status.seis {
        (Poll { result: Err(ErrorType::SEIS), reset: true }, r)
    } else if status.cecs {
        (Poll { result: Err(ErrorType::CECS), reset: false }, r)
    } else if status.secs {
        (Poll { result: Err(ErrorType::SECS), reset: true }, r)
    } else if status.drdy && data != r.last_number {
        (Poll { result: Ok(data), reset: false }, Rng { last_number: data, counter: 0 })
    } else if r.counter >= MAX_IDLE_POLLS {
        (Poll { result: Err(ErrorType::NotReady), reset: true }, Rng { counter: 0, ..r })
    } else {
        (
            Poll { result: Err(ErrorType::NotReady), reset: false },
            Rng { counter: (r.counter + 1) as u32, ..r },
        )
    }
}

impl Rng {
    /// Takes over the generator, which must not be running yet
    /// (`already_enabled` is its enable bit as read).
    pub fn init(already_enabled: bool) -> (r: Result<Rng, ErrorType>)
        ensures
            already_enabled ==> r == Err::<Rng, ErrorType>(ErrorType::AlreadyEnabled),
            !already_enabled ==> r == Ok::<Rng, ErrorType>(Rng { last_number: 0, counter: 0 }),
    {
        if already_enabled {
            return Err(ErrorType::AlreadyEnabled);
        }
        Ok(Rng { last_number: 0, counter: 0 })
    }

    /// One poll, given the status register and, where [`RngStatus::data_needed`]
    /// says so, the data register: see [`poll_outcome`].
    pub fn poll_and_get(&mut self, status: RngStatus, data: u32) -> (p: Poll)
        ensures
            (p, *final(self)) == poll_outcome(*old(self), status, data),
    {
        if status.ceis {
            return Poll { result: Err(ErrorType::CEIS), reset: true };
        }
        if status.seis {
            return Poll { result: Err(ErrorType::SEIS), reset: true };
        }
        if status.cecs {
            return Poll { result: Err(ErrorType::CECS), reset: false };
        }
        if status.secs {
            return Poll { result: Err(ErrorType::SECS), reset: true };
        }
        if status.drdy && data != self.last_number {
            self.last_number = data;
            self.counter = 0;
            return Poll { result: Ok(data), reset: false };
        }
        let reset = self.counter >= MAX_IDLE_POLLS;
        if reset {
            self.counter = 0;
        } else {
            self.counter = self.counter + 1;
        }
        Poll { result: Err(ErrorType::NotReady), reset }
    }

    /// A poll that yields the number, or 0 where there is none, and whether
    /// the generator must now be restarted.
    pub fn tick(&mut self, status: RngStatus, data: u32) -> (r: (u32, bool))
        ensures
            ({
                let (p, next) = poll_outcome(*old(self), status, data);
                &&& *final(self) == next
                &&& r.1 == p.reset
                &&& r.0 == (match p.result {
                    Ok(n) => n,
                    Err(_) => 0,
                })
            }),
    {
        let p = self.poll_and_get(status, data);
        match p.result {
            Ok(number) => (number, p.reset),
            Err(_) => (0, p.reset),
        }
    }
}

} // verus!
