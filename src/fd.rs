use vstd::prelude::*;

use crate::entry::PsiEntry;

verus! {

/// Whether a trigger watches partial (`some`) or complete (`full`) stalls.
#[derive(Clone, Copy, Debug, PartialEq, Eq, Structural)]
pub enum StallType {
    Partial,
    Full,
}

/// The shortest time window the kernel accepts for a trigger, in microseconds.
pub const MIN_TIME_WINDOW_US: u64 = 500_000;

/// Settings gathered for one trigger; every one of them must be set before building.
#[derive(Clone, Copy, Debug)]
pub struct PsiFdBuilder {
    pub entry: Option<PsiEntry>,
    pub stall_type: Option<StallType>,
    /// Stall duration in microseconds.
    pub stall_amount: Option<u64>,
    /// Time window in microseconds.
    pub time_window: Option<u64>,
}

/// Why a trigger could not be built.
#[derive(Clone, Copy, Debug, PartialEq, Eq, Structural)]
pub enum PsiFdBuilderError {
    NoEntry,
    NoStallType,
    NoStallAmount,
    NoTimeWindow,
    TimeWindowTooSmall,
    StallAmountTooLarge,
    NoPsiEntry(PsiEntry),
}

/// A validated trigger: a category and a stall threshold over a time window.
#[derive(Clone, Copy, Debug, PartialEq, Eq, Structural)]
pub struct PsiTrigger {
    pub entry: PsiEntry,
    pub stall_type: StallType,
    /// Stall duration in microseconds.
    pub stall_amount: u64,
    /// Time window in microseconds.
    pub time_window: u64,
}

impl PsiTrigger {
    /// The threshold is one the kernel can take: a long enough window,
    /// and a stall shorter than it.
    pub open spec fn wf(&self) -> bool {
        &&& self.time_window >= MIN_TIME_WINDOW_US
        &&& self.stall_amount < self.time_window
    }
}

/// What validating a builder's settings gives, checked in order: each setting
/// present, then the window long enough, then the stall shorter than the window.
pub open spec fn validation(b: PsiFdBuilder) -> Result<PsiTrigger, PsiFdBuilderError> {
    if b.entry.is_none() {
        Err(PsiFdBuilderError::NoEntry)
    } else if b.stall_type.is_none() {
        Err(PsiFdBuilderError::NoStallType)
    } else if b.stall_amount.is_none() {
        Err(PsiFdBuilderError::NoStallAmount)
    } else if b.time_window.is_none() {
        Err(PsiFdBuilderError::NoTimeWindow)
    } else if b.time_window.unwrap() < MIN_TIME_WINDOW_US {
        Err(PsiFdBuilderError::TimeWindowTooSmall)
    } else if b.stall_amount.unwrap() >= b.time_window.unwrap() {
        Err(PsiFdBuilderError::StallAmountTooLarge)
    } else {
        Ok(
            PsiTrigger {
                entry: b.entry.unwrap(),
                stall_type: b.stall_type.unwrap(),
                stall_amount: b.stall_amount.unwrap(),
                time_window: b.time_window.unwrap(),
            },
        )
    }
}

/// The decimal digits of `n` in ASCII, most significant first, without leading zeros.
pub open spec fn decimal(n: nat) -> Seq<u8>
    decreases n,
{
    if n < 10 {
        seq![(48 + n) as u8]
    } else {
        decimal(n / 10) + seq![(48 + n % 10) as u8]
    }
}

/// The word the kernel reads for a stall type: `some` or `full`.
pub open spec fn stall_word(s: StallType) -> Seq<u8> {
    match s {
        StallType::Partial => seq![115u8, 111u8, 109u8, 101u8],
        StallType::Full => seq![102u8, 117u8, 108u8, 108u8],
    }
}

/// The line written to a pressure file to set up a trigger:
/// `<some|full> <stall in us> <window in us>` and a newline.
pub open spec fn trigger_command(t: PsiTrigger) -> Seq<u8> {
    stall_word(t.stall_type) + seq![32u8] + decimal(t.stall_amount as nat) + seq![32u8]
        + decimal(t.time_window as nat) + seq![10u8]
}

/// Appends the decimal digits of `n` to `out`.
fn push_decimal(out: &mut Vec<u8>, n: u64)
    ensures
        final(out)@ == old(out)@ + decimal(n as nat),
    decreases n,
{
    if n >= 10 {
        push_decimal(out, n / 10);
    }
    out.push(48u8 + (n % 10) as u8);
    proof {
        if n >= 10 {
            assert(n as nat / 10 == (n / 10) as nat);
        }
        assert(final(out)@ =~= old(out)@ + decimal(n as nat));
    }
}

impl StallType {
    /// The word the kernel reads for this stall type.
    pub fn word(&self) -> (r: &'static str)
        ensures
            r@ == (match *self {
                StallType::Partial => "some"@,
                StallType::Full => "full"@,
            }),
    {
        match self {
            StallType::Partial => {
                proof { reveal_strlit("some"); }
                "some"
            },
            StallType::Full => {
                proof { reveal_strlit("full"); }
                "full"
            },
        }
    }
}

impl PsiTrigger {
    /// The bytes to write to the category's pressure file to set up this trigger.
    pub fn command(&self) -> (r: Vec<u8>)
        ensures
            r@ == trigger_command(*self),
    {
        let mut out: Vec<u8> = Vec::new();
        match self.stall_type {
            StallType::Partial => {
                out.push(115u8);
                out.push(111u8);
                out.push(109u8);
                out.push(101u8);
            },
            StallType::Full => {
                out.push(102u8);
                out.push(117u8);
                out.push(108u8);
                out.push(108u8);
            },
        }
        out.push(32u8);
        push_decimal(&mut out, self.stall_amount);
        out.push(32u8);
        push_decimal(&mut out, self.time_window);
        out.push(10u8);
        assert(out@ =~= trigger_command(*self));
        out
    }
}

impl Default for PsiFdBuilder {
    fn default() -> (r: Self)
        ensures
            r.entry.is_none(),
            r.stall_type.is_none(),
            r.stall_amount.is_none(),
            r.time_window.is_none(),
    {
        PsiFdBuilder { entry: None, stall_type: None, stall_amount: None, time_window: None }
    }
}

impl PsiFdBuilder {
    pub fn entry(self, entry: PsiEntry) -> (r: Self)
        ensures
            r == (PsiFdBuilder { entry: Some(entry), ..self }),
    {
        PsiFdBuilder { entry: Some(entry), ..self }
    }

    pub fn stall_type(self, stall_type: StallType) -> (r: Self)
        ensures
            r == (PsiFdBuilder { stall_type: Some(stall_type), ..self }),
    {
        PsiFdBuilder { stall_type: Some(stall_type), ..self }
    }

    /// Sets the stall duration, in microseconds.
    pub fn stall_amount(self, amount: u64) -> (r: Self)
        ensures
            r == (PsiFdBuilder { stall_amount: Some(amount), ..self }),
    {
        PsiFdBuilder { stall_amount: Some(amount), ..self }
    }

    /// Sets the time window, in microseconds.
    pub fn time_window(self, window: u64) -> (r: Self)
        ensures
            r == (PsiFdBuilder { time_window: Some(window), ..self }),
    {
        PsiFdBuilder { time_window: Some(window), ..self }
    }

    /// Checks the settings without touching the system.
    pub fn validate(&self) -> (r: Result<PsiTrigger, PsiFdBuilderError>)
        ensures
            r == validation(*self),
            r is Ok ==> r->Ok_0.wf(),
    {
        let entry = match self.entry {
            Some(e) => e,
            None => return Err(PsiFdBuilderError::NoEntry),
        };
        let stall_type = match self.stall_type {
            Some(s) => s,
            None => return Err(PsiFdBuilderError::NoStallType),
        };
        let stall_amount = match self.stall_amount {
            Some(a) => a,
            None => return Err(PsiFdBuilderError::NoStallAmount),
        };
        let time_window = match self.time_window {
            Some(w) => w,
            None => return Err(PsiFdBuilderError::NoTimeWindow),
        };
        if time_window < MIN_TIME_WINDOW_US {
            return Err(PsiFdBuilderError::TimeWindowTooSmall);
        }
        if stall_amount >= time_window {
            return Err(PsiFdBuilderError::StallAmountTooLarge);
        }
        Ok(PsiTrigger { entry, stall_type, stall_amount, time_window })
    }

    /// Validates the settings, then checks that the category's pressure file
    /// exists on this system. Whether it does is up to the machine: where the
    /// settings are valid the result is the trigger or `NoPsiEntry`.
    pub fn build(self) -> (r: Result<PsiTrigger, PsiFdBuilderError>)
        ensures
            validation(self) is Err ==> r == validation(self),
            validation(self) is Ok ==> r == validation(self) || r == Err::<PsiTrigger, PsiFdBuilderError>(
                PsiFdBuilderError::NoPsiEntry(self.entry.unwrap()),
            ),
    {
        let trigger = match self.validate() {
            Ok(t) => t,
            Err(e) => return Err(e),
        };
        if trigger.entry.is_present() {
            Ok(trigger)
        } else {
            Err(PsiFdBuilderError::NoPsiEntry(trigger.entry))
        }
    }
}

} // verus!
