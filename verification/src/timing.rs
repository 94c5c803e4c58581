//! Frequencies and timer settings of the motor control and of its back-EMF measurement.
use crate::motor_control::PI_MAX;
use vstd::prelude::*;

verus! {

/// PWM frequency, in Hz.
pub const F_PWM: u32 = 25_000;

/// Rate of the PI controller, in Hz.
pub const F_PID: u32 = 100;

/// Duration of the BEMF cutout, in microseconds.
pub const T_BEMF: u32 = 1000;

/// Start of the ADC conversions within the cutout, in microseconds.
pub const T_ADC: u32 = 750;

/// Core clock, in Hz.
pub const F_CLK: u32 = 64_000_000;

/// Reload value of TIM16, which counts microseconds and starts the measurements.
pub const TIM16_ARR: u32 = (F_CLK / F_PID) / 64 - 1;

/// Reload value of TIM2 for PWM.
pub const TIM2_ARR_PWM: u32 = (F_CLK / F_PWM) - 1;

/// Reload value of TIM2 for the BEMF cutout.
pub const TIM2_ARR_BEMF: u32 = (F_CLK / 1_000_000) * T_BEMF - 1;

/// Compare value of TIM2 at which the ADC is triggered.
pub const TIM2_ADC_TRIG: u32 = TIM2_ARR_BEMF - ((F_CLK / 1_000_000) * (T_BEMF - T_ADC));

/// The range of the controller is the PWM period, and the ADC is triggered within the cutout but
/// never within a PWM period, where TIM2 does not count that far.
pub proof fn lemma_timer_settings_fit()
    ensures
        PI_MAX == TIM2_ARR_PWM,
        TIM2_ARR_PWM < TIM2_ADC_TRIG < TIM2_ARR_BEMF,
{
}

/// The timers keep the frequencies and times: at 64 MHz, TIM2 counts 25000 PWM periods in a second
/// and cutouts of 1000 us, of which the first 750 us pass before the ADC is triggered; TIM16, which
/// counts microseconds, starts 100 measurements in a second.
pub proof fn lemma_timer_settings_keep_time()
    ensures
        (TIM2_ARR_PWM + 1) * 25_000 == 64_000_000,
        TIM2_ARR_BEMF + 1 == 64 * 1000,
        TIM2_ADC_TRIG + 1 == 64 * 750,
        (TIM16_ARR + 1) * 100 == 1_000_000,
{
}

} // verus!
