use std::convert::Infallible;

use fallthrough_impls::{
    probe_and_piece_a, probe_and_piece_b, run_fallback, Either, FallingBack, Limited,
    SoftwareImplementation, UserFacing, Work,
};

fn never_used(x: Infallible) -> Vec<Work> {
    match x {}
}

#[test]
fn limited_offers_a_and_never_b() {
    let mut d = Limited;
    for _ in 0..3 {
        assert!(matches!(d.can_a(), Some(())));
        assert!(d.can_b().is_none());
    }
}

#[test]
fn limited_b_token_matches_with_no_arms() {
    let mut d = Limited;
    let performed = match d.can_b() {
        Some(token) => never_used(token),
        None => Vec::new(),
    };
    assert!(performed.is_empty());
}

#[test]
fn limited_performs_a_in_hardware() {
    let mut d = Limited;
    assert_eq!(d.piece_a(()), vec![Work::HardwareA]);
}

#[test]
fn software_offers_both() {
    let mut d = SoftwareImplementation;
    assert!(matches!(d.can_a(), Some(())));
    assert!(matches!(d.can_b(), Some(())));
}

#[test]
fn software_composite_is_a_then_b() {
    let mut d = SoftwareImplementation;
    let a = d.can_a().unwrap();
    let b = d.can_b().unwrap();
    let composite = d.composite_function(a, b);
    let mut sequential = d.piece_a(());
    sequential.extend(d.piece_b(()));
    assert_eq!(composite, sequential);
    assert_eq!(composite, vec![Work::SoftwareA, Work::SoftwareB]);
}

#[test]
fn limited_primary_tags_a_main_and_b_backup() {
    let mut d = FallingBack::new(Limited, SoftwareImplementation);
    assert!(matches!(d.can_a(), Some(Either::Main(()))));
    assert!(matches!(d.can_b(), Some(Either::Backup(()))));
}

#[test]
fn limited_primary_composite_splits() {
    let mut d = FallingBack::new(Limited, SoftwareImplementation);
    let a = d.can_a().unwrap();
    let b = d.can_b().unwrap();
    let performed = d.composite_function(a, b);
    assert_eq!(performed, vec![Work::HardwareA, Work::SoftwareB]);
    assert_ne!(performed, SoftwareImplementation.composite_function((), ()));
}

#[test]
fn software_primary_answers_both_probes() {
    let mut d = FallingBack::new(SoftwareImplementation, Limited);
    assert!(matches!(d.can_a(), Some(Either::Main(()))));
    assert!(matches!(d.can_b(), Some(Either::Main(()))));
}

#[test]
fn software_primary_composite_stays_with_primary() {
    let mut d = FallingBack::new(SoftwareImplementation, Limited);
    let a = d.can_a().unwrap();
    let b = d.can_b().unwrap();
    assert_eq!(d.composite_function(a, b), vec![Work::SoftwareA, Work::SoftwareB]);
}

#[test]
fn composite_splits_backup_a_with_main_b() {
    let mut d = FallingBack::new(SoftwareImplementation, Limited);
    let performed = d.composite_function(Either::Backup(()), Either::Main(()));
    assert_eq!(performed, vec![Work::HardwareA, Work::SoftwareB]);
}

#[test]
fn composite_with_backup_tokens_uses_backup() {
    let mut d = FallingBack::new(Limited, SoftwareImplementation);
    let performed = d.composite_function(Either::Backup(()), Either::Backup(()));
    assert_eq!(performed, vec![Work::SoftwareA, Work::SoftwareB]);
}

#[test]
fn pieces_route_by_tag() {
    let mut d = FallingBack::new(Limited, SoftwareImplementation);
    assert_eq!(d.piece_a(Either::Main(())), vec![Work::HardwareA]);
    assert_eq!(d.piece_a(Either::Backup(())), vec![Work::SoftwareA]);
    assert_eq!(d.piece_b(Either::Backup(())), vec![Work::SoftwareB]);
}

#[test]
fn run_fallback_performs_a_then_b() {
    let mut a = Limited;
    let mut b = SoftwareImplementation;
    assert_eq!(run_fallback(&mut a, (), &mut b, ()), vec![Work::HardwareA, Work::SoftwareB]);
}

#[test]
fn nested_fallback_prefers_outermost_primary() {
    let inner = FallingBack::new(Limited, SoftwareImplementation);
    let mut d = FallingBack::new(inner, SoftwareImplementation);
    let a = d.can_a().unwrap();
    let b = d.can_b().unwrap();
    assert!(matches!(a, Either::Main(Either::Main(()))));
    assert!(matches!(b, Either::Main(Either::Backup(()))));
    assert_eq!(d.composite_function(a, b), vec![Work::HardwareA, Work::SoftwareB]);
}

#[test]
fn fallback_of_two_limited_offers_no_b() {
    let mut d = FallingBack::new(Limited, Limited);
    assert!(matches!(d.can_a(), Some(Either::Main(()))));
    assert!(d.can_b().is_none());
}

#[test]
fn probed_tokens_are_accepted() {
    assert_eq!(probe_and_piece_a(&mut Limited), Some(vec![Work::HardwareA]));
    assert_eq!(probe_and_piece_b(&mut Limited), None);
    assert_eq!(probe_and_piece_a(&mut SoftwareImplementation), Some(vec![Work::SoftwareA]));
    assert_eq!(probe_and_piece_b(&mut SoftwareImplementation), Some(vec![Work::SoftwareB]));
    let mut d = FallingBack::new(Limited, SoftwareImplementation);
    assert_eq!(probe_and_piece_a(&mut d), Some(vec![Work::HardwareA]));
    assert_eq!(probe_and_piece_b(&mut d), Some(vec![Work::SoftwareB]));
}

#[test]
fn work_descriptions() {
    assert_eq!(Work::HardwareA.describe(), "Performing function A in hardware");
    assert_eq!(Work::SoftwareA.describe(), "Performing function A in software");
    assert_eq!(Work::SoftwareB.describe(), "Performing function B in software");
}
