use c92_decoder::motor_control::PI_MAX;
use c92_decoder::timing::{TIM16_ARR, TIM2_ADC_TRIG, TIM2_ARR_BEMF, TIM2_ARR_PWM};

#[test]
fn timer_settings() {
    assert_eq!(TIM16_ARR, 9_999);
    assert_eq!(TIM2_ARR_PWM, 2_559);
    assert_eq!(TIM2_ARR_BEMF, 63_999);
    assert_eq!(TIM2_ADC_TRIG, 47_999);
    assert_eq!(PI_MAX as u32, TIM2_ARR_PWM);
}
