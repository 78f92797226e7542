use fuzz_util::any;
use fuzz_util::presume;
use fuzz_util::MisuseError;
use fuzz_util::mode::coverage_marker_effect;
use fuzz_util::mode::debug_print_effect;
use fuzz_util::mode::dispatch_state;
use fuzz_util::mode::BuildMode;
use fuzz_util::mode::DispatchState;
use fuzz_util::mode::MarkerEffect;
use fuzz_util::mode::PrintEffect;

#[test]
fn ordinary_build_forwards_print_and_keeps_marker_inert() {
    let m = BuildMode { verification: false, fuzzing: false };
    assert_eq!(debug_print_effect(m), PrintEffect::Forward);
    assert_eq!(coverage_marker_effect(m), MarkerEffect::Inert);
    assert_eq!(dispatch_state(m), DispatchState::StandIn);
}

#[test]
fn fuzzing_build_elides_print_and_keeps_marker_inert() {
    let m = BuildMode { verification: false, fuzzing: true };
    assert_eq!(debug_print_effect(m), PrintEffect::Elided);
    assert_eq!(coverage_marker_effect(m), MarkerEffect::Inert);
    assert_eq!(dispatch_state(m), DispatchState::StandIn);
}

#[test]
fn verification_build_elides_print_and_marks_natively() {
    let with_fuzzing = BuildMode { verification: true, fuzzing: true };
    let without_fuzzing = BuildMode { verification: true, fuzzing: false };
    assert_eq!(debug_print_effect(with_fuzzing), PrintEffect::Elided);
    assert_eq!(debug_print_effect(without_fuzzing), PrintEffect::Elided);
    assert_eq!(coverage_marker_effect(with_fuzzing), MarkerEffect::Native);
    assert_eq!(coverage_marker_effect(without_fuzzing), MarkerEffect::Native);
    assert_eq!(dispatch_state(with_fuzzing), DispatchState::Native);
    assert_eq!(dispatch_state(without_fuzzing), DispatchState::Native);
}

#[test]
fn any_never_returns_a_value() {
    let r: Result<u32, MisuseError> = any();
    assert!(r.is_err());
    let s: Result<String, MisuseError> = any();
    assert!(s.is_err());
    let b: Result<Vec<bool>, MisuseError> = any();
    assert!(b.is_err());
}

#[test]
fn misuse_diagnostic_names_the_precondition() {
    let e = any::<bool>().unwrap_err();
    assert_eq!(
        e.diagnostic(),
        "arbitrary values are only available under the verification tool"
    );
}

#[test]
fn presume_false_has_no_effect() {
    presume(false);
    let after: u32 = 7;
    assert_eq!(after, 7);
    presume(true);
}

#[test]
fn repeated_standin_calls_are_identical() {
    presume(false);
    presume(false);
    presume(false);
    let first = any::<u8>().unwrap_err();
    let second = any::<u8>().unwrap_err();
    assert_eq!(first, second);
    assert_eq!(first.diagnostic(), second.diagnostic());
}
