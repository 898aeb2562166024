//! TIM2 timing arithmetic and the one-shot guards of the board setup.

use vstd::prelude::*;

verus! {

/// The prescaler and auto-reload values that make a timer clocked at
/// `cpu_clock_hz` count at `target_timer_freq_hz` and overflow at
/// `target_interrupt_freq_hz`: PSC = cpu / timer - 1 (kept to its low 16
/// bits, the width of the register), ARR = timer / interrupt - 1.
pub fn calculate_timer_values(
    cpu_clock_hz: u32,
    target_timer_freq_hz: u32,
    target_interrupt_freq_hz: u32,
) -> (r: (u16, u32))
    requires
        target_timer_freq_hz > 0,
        target_interrupt_freq_hz > 0,
        cpu_clock_hz >= target_timer_freq_hz,
        target_timer_freq_hz >= target_interrupt_freq_hz,
    ensures
        r.0 == ((cpu_clock_hz / target_timer_freq_hz - 1) as u16),
        r.1 == target_timer_freq_hz / target_interrupt_freq_hz - 1,
{
    proof {
        lemma_quotient_positive(cpu_clock_hz, target_timer_freq_hz);
        lemma_quotient_positive(target_timer_freq_hz, target_interrupt_freq_hz);
    }
    let psc = (cpu_clock_hz / target_timer_freq_hz) - 1;
    let arr = (target_timer_freq_hz / target_interrupt_freq_hz) - 1;
    (psc as u16, arr)
}

proof fn lemma_quotient_positive(a: u32, b: u32)
    requires
        b > 0,
        a >= b,
    ensures
        a / b >= 1,
{
    assert(a / b >= 1) by (nonlinear_arith)
        requires
            b > 0,
            a >= b,
    ;
}

/// When the clocks divide exactly and the prescaler fits its 16 bits, the
/// timer runs at cpu / (PSC + 1) = timer, and interrupts come at
/// timer / (ARR + 1) = interrupt, that is cpu / ((PSC + 1) (ARR + 1)).
pub proof fn law_timer_period(cpu: u32, timer: u32, interrupt: u32, psc: u16, arr: u32)
    requires
        timer > 0,
        interrupt > 0,
        cpu >= timer,
        timer >= interrupt,
        cpu % timer == 0,
        timer % interrupt == 0,
        cpu / timer <= 65536,
        psc == ((cpu / timer - 1) as u16),
        arr == timer / interrupt - 1,
    ensures
        (psc + 1) * timer == cpu,
        (arr + 1) * interrupt == timer,
        (psc + 1) * (arr + 1) * interrupt == cpu,
{
    let q = cpu / timer;
    lemma_quotient_positive(cpu, timer);
    assert(q * timer == cpu) by (nonlinear_arith)
        requires
            timer > 0,
            cpu % timer == 0,
            q == cpu / timer,
    ;
    assert((q - 1) as u16 == q - 1);
    let p = timer / interrupt;
    assert(p * interrupt == timer) by (nonlinear_arith)
        requires
            interrupt > 0,
            timer % interrupt == 0,
            p == timer / interrupt,
    ;
    assert((psc + 1) * (arr + 1) * interrupt == (psc + 1) * ((arr + 1) * interrupt)) by (nonlinear_arith);
}

/// Guard that lets TIM2 be initialised once.
#[derive(Debug)]
pub struct Tim2Guard {
    initialized: bool,
}

impl Tim2Guard {
    /// Whether `init` has already succeeded on this guard.
    pub closed spec fn is_initialized(self) -> bool {
        self.initialized
    }

    /// A guard on which `init` has not run.
    pub fn new() -> (g: Tim2Guard)
        ensures
            !g.is_initialized(),
    {
        Tim2Guard { initialized: false }
    }

    /// Claims the one initialisation: `Some(())` the first time, `None` after.
    pub fn init(&mut self) -> (r: Option<()>)
        ensures
            r is Some <==> !old(self).is_initialized(),
            final(self).is_initialized(),
    {
        if self.initialized {
            return None;
        }
        self.initialized = true;
        Some(())
    }
}

/// Guard that lets the TIM2 interrupt be unmasked in the NVIC once.
#[derive(Debug)]
pub struct NvicGuard {
    initialized: bool,
}

impl NvicGuard {
    /// Whether the unmask has already been granted by this guard.
    pub closed spec fn is_initialized(self) -> bool {
        self.initialized
    }

    /// A guard that has not granted the unmask yet.
    pub fn new() -> (g: NvicGuard)
        ensures
            !g.is_initialized(),
    {
        NvicGuard { initialized: false }
    }

    /// Grants the one unmask of TIM2: `Ok(())` the first time, after which the
    /// caller unmasks the interrupt in the NVIC; `Err("Already initialized")`
    /// on every later call.
    pub fn unmask_tim2_safe(&mut self) -> (r: Result<(), &'static str>)
        ensures
            r is Ok <==> !old(self).is_initialized(),
            r matches Err(m) ==> m@ == "Already initialized"@,
            final(self).is_initialized(),
    {
        if self.initialized {
            return Err("Already initialized");
        }
        self.initialized = true;
        Ok(())
    }
}

} // verus!
