use rc_meter::pins::{Phase, PinId, PinRole, PinRoles};

#[test]
fn only_outputs_are_driven() {
    assert!(PinRole::OutputLow.is_driven());
    assert!(PinRole::OutputHigh.is_driven());
    assert!(!PinRole::FloatingInput.is_driven());
}

#[test]
fn each_phase_has_its_own_drive_pin() {
    assert_eq!(Phase::First.active_pin(), PinId::DriveA);
    assert_eq!(Phase::First.idle_pin(), PinId::DriveB);
    assert_eq!(Phase::Second.active_pin(), PinId::DriveB);
    assert_eq!(Phase::Second.idle_pin(), PinId::DriveA);
}

#[test]
fn released_floats_every_pin() {
    let roles = PinRoles::released();
    assert_eq!(roles.role_of(PinId::Sense), PinRole::FloatingInput);
    assert_eq!(roles.role_of(PinId::DriveA), PinRole::FloatingInput);
    assert_eq!(roles.role_of(PinId::DriveB), PinRole::FloatingInput);
    assert!(roles.is_well_formed());
}

#[test]
fn discharge_grounds_the_sense_pin_only() {
    let roles = PinRoles::discharge();
    assert_eq!(
        roles,
        PinRoles {
            sense: PinRole::OutputLow,
            drive_a: PinRole::FloatingInput,
            drive_b: PinRole::FloatingInput,
        }
    );
    assert!(roles.is_well_formed());
}

#[test]
fn charge_raises_the_active_pin_only() {
    let first = PinRoles::charge(Phase::First);
    assert_eq!(
        first,
        PinRoles {
            sense: PinRole::FloatingInput,
            drive_a: PinRole::OutputHigh,
            drive_b: PinRole::FloatingInput,
        }
    );
    let second = PinRoles::charge(Phase::Second);
    assert_eq!(
        second,
        PinRoles {
            sense: PinRole::FloatingInput,
            drive_a: PinRole::FloatingInput,
            drive_b: PinRole::OutputHigh,
        }
    );
    assert!(first.is_well_formed());
    assert!(second.is_well_formed());
}

#[test]
fn role_of_picks_the_named_pin() {
    let roles = PinRoles {
        sense: PinRole::OutputLow,
        drive_a: PinRole::OutputHigh,
        drive_b: PinRole::FloatingInput,
    };
    assert_eq!(roles.role_of(PinId::Sense), PinRole::OutputLow);
    assert_eq!(roles.role_of(PinId::DriveA), PinRole::OutputHigh);
    assert_eq!(roles.role_of(PinId::DriveB), PinRole::FloatingInput);
}

#[test]
fn two_driven_pins_are_not_well_formed() {
    let roles = PinRoles {
        sense: PinRole::OutputLow,
        drive_a: PinRole::OutputHigh,
        drive_b: PinRole::FloatingInput,
    };
    assert!(!roles.is_well_formed());
    let both = PinRoles {
        sense: PinRole::FloatingInput,
        drive_a: PinRole::OutputHigh,
        drive_b: PinRole::OutputHigh,
    };
    assert!(!both.is_well_formed());
}

#[test]
fn sense_high_or_drive_low_is_not_well_formed() {
    let sense_high = PinRoles {
        sense: PinRole::OutputHigh,
        drive_a: PinRole::FloatingInput,
        drive_b: PinRole::FloatingInput,
    };
    assert!(!sense_high.is_well_formed());
    let a_low = PinRoles {
        sense: PinRole::FloatingInput,
        drive_a: PinRole::OutputLow,
        drive_b: PinRole::FloatingInput,
    };
    assert!(!a_low.is_well_formed());
    let b_low = PinRoles {
        sense: PinRole::FloatingInput,
        drive_a: PinRole::FloatingInput,
        drive_b: PinRole::OutputLow,
    };
    assert!(!b_low.is_well_formed());
}

#[test]
fn with_switches_one_pin_and_keeps_the_others() {
    let roles = PinRoles::discharge();
    assert_eq!(
        roles.with(PinId::Sense, PinRole::FloatingInput),
        PinRoles::released()
    );
    assert_eq!(
        PinRoles::released().with(PinId::DriveA, PinRole::OutputHigh),
        PinRoles::charge(Phase::First)
    );
    assert_eq!(
        PinRoles::released().with(PinId::DriveB, PinRole::OutputHigh),
        PinRoles::charge(Phase::Second)
    );
    assert_eq!(roles.with(PinId::DriveB, PinRole::FloatingInput), roles);
}

#[test]
fn switch_order_floats_before_it_drives() {
    assert_eq!(
        PinRoles::discharge().switch_order(),
        [PinId::DriveA, PinId::DriveB, PinId::Sense]
    );
    assert_eq!(
        PinRoles::released().switch_order(),
        [PinId::DriveA, PinId::DriveB, PinId::Sense]
    );
    assert_eq!(
        PinRoles::charge(Phase::First).switch_order(),
        [PinId::Sense, PinId::DriveB, PinId::DriveA]
    );
    assert_eq!(
        PinRoles::charge(Phase::Second).switch_order(),
        [PinId::Sense, PinId::DriveA, PinId::DriveB]
    );
}

#[test]
fn switching_in_order_never_drives_two_nets() {
    let all = [
        PinRoles::released(),
        PinRoles::discharge(),
        PinRoles::charge(Phase::First),
        PinRoles::charge(Phase::Second),
    ];
    for before in all.iter() {
        for target in all.iter() {
            let mut roles = *before;
            for pin in target.switch_order() {
                roles = roles.with(pin, target.role_of(pin));
                assert!(roles.is_well_formed());
            }
            assert_eq!(roles, *target);
        }
    }
}

#[test]
fn driving_the_sense_pin_low_before_the_drive_pin_floats_breaks_the_rule() {
    let roles = PinRoles::charge(Phase::First).with(PinId::Sense, PinRole::OutputLow);
    assert!(!roles.is_well_formed());
}
