//! Roles of the three pins of the front-end.

use vstd::prelude::*;

verus! {

/// What a pin is configured to do.
#[derive(Clone, Copy, Debug, PartialEq, Eq, Structural)]
pub enum PinRole {
    /// Push-pull output holding the net at ground.
    OutputLow,
    /// Push-pull output holding the net at the supply voltage.
    OutputHigh,
    /// High-impedance input: the pin neither sources nor sinks current.
    FloatingInput,
}

/// A sampled logic level.
#[derive(Clone, Copy, Debug, PartialEq, Eq, Structural)]
pub enum Level {
    Low,
    High,
}

/// One of the three physical pins.
#[derive(Clone, Copy, Debug, PartialEq, Eq, Structural)]
pub enum PinId {
    /// Observes the RC junction.
    Sense,
    /// Charge source of the first phase.
    DriveA,
    /// Charge source of the second phase.
    DriveB,
}

/// One of the two timed phases of a cycle.
#[derive(Clone, Copy, Debug, PartialEq, Eq, Structural)]
pub enum Phase {
    /// Charges through drive pin A; its interval is `t1`.
    First,
    /// Charges through drive pin B; its interval is `t2`.
    Second,
}

impl PinRole {
    /// A pin is driven when it is an output, at either level.
    pub open spec fn spec_is_driven(self) -> bool {
        self != PinRole::FloatingInput
    }

    /// Whether the pin is an output, at either level.
    pub fn is_driven(self) -> (driven: bool)
        ensures
            driven == self.spec_is_driven(),
    {
        match self {
            PinRole::FloatingInput => false,
            PinRole::OutputLow => true,
            PinRole::OutputHigh => true,
        }
    }
}

impl Phase {
    /// The pin that charges the junction in this phase.
    pub open spec fn spec_active_pin(self) -> PinId {
        match self {
            Phase::First => PinId::DriveA,
            Phase::Second => PinId::DriveB,
        }
    }

    /// The drive pin that stays out of this phase.
    pub open spec fn spec_idle_pin(self) -> PinId {
        match self {
            Phase::First => PinId::DriveB,
            Phase::Second => PinId::DriveA,
        }
    }

    /// The pin that charges the junction in this phase.
    pub fn active_pin(self) -> (pin: PinId)
        ensures
            pin == self.spec_active_pin(),
    {
        match self {
            Phase::First => PinId::DriveA,
            Phase::Second => PinId::DriveB,
        }
    }

    /// The drive pin that stays out of this phase.
    pub fn idle_pin(self) -> (pin: PinId)
        ensures
            pin == self.spec_idle_pin(),
    {
        match self {
            Phase::First => PinId::DriveB,
            Phase::Second => PinId::DriveA,
        }
    }
}

/// The roles of all three pins at one moment.
#[derive(Clone, Copy, Debug, PartialEq, Eq, Structural)]
pub struct PinRoles {
    pub sense: PinRole,
    pub drive_a: PinRole,
    pub drive_b: PinRole,
}

impl PinRoles {
    /// The role of one pin.
    pub open spec fn spec_role_of(self, pin: PinId) -> PinRole {
        match pin {
            PinId::Sense => self.sense,
            PinId::DriveA => self.drive_a,
            PinId::DriveB => self.drive_b,
        }
    }

    /// How many of the three pins are outputs.
    pub open spec fn driven_count(self) -> nat {
        let s: nat = if self.sense.spec_is_driven() { 1 } else { 0 };
        let a: nat = if self.drive_a.spec_is_driven() { 1 } else { 0 };
        let b: nat = if self.drive_b.spec_is_driven() { 1 } else { 0 };
        s + a + b
    }

    /// The electrical rule of the front-end: at most one net is driven, the
    /// sense pin is never driven high, and a drive pin is never driven low.
    pub open spec fn well_formed(self) -> bool {
        &&& self.driven_count() <= 1
        &&& self.sense != PinRole::OutputHigh
        &&& self.drive_a != PinRole::OutputLow
        &&& self.drive_b != PinRole::OutputLow
    }

    /// These roles with one pin switched to `role`.
    pub open spec fn spec_with(self, pin: PinId, role: PinRole) -> PinRoles {
        match pin {
            PinId::Sense => PinRoles { sense: role, ..self },
            PinId::DriveA => PinRoles { drive_a: role, ..self },
            PinId::DriveB => PinRoles { drive_b: role, ..self },
        }
    }

    /// The order in which to switch the pins, one at a time, to arrive at
    /// these roles: the pins that are to float come first, the pin that is to
    /// be driven comes last.
    pub open spec fn spec_switch_order(self) -> Seq<PinId> {
        if self.drive_a.spec_is_driven() {
            seq![PinId::Sense, PinId::DriveB, PinId::DriveA]
        } else if self.drive_b.spec_is_driven() {
            seq![PinId::Sense, PinId::DriveA, PinId::DriveB]
        } else {
            seq![PinId::DriveA, PinId::DriveB, PinId::Sense]
        }
    }

    /// The roles on the way from `self` to `target`, once the first `count`
    /// pins of `target`'s switch order have taken their new role.
    pub open spec fn switched(self, target: PinRoles, count: nat) -> PinRoles
        recommends
            count <= 3,
        decreases count,
    {
        if count == 0 {
            self
        } else {
            let pin = target.spec_switch_order()[count - 1];
            self.switched(target, (count - 1) as nat).spec_with(pin, target.spec_role_of(pin))
        }
    }

    /// All three pins floating, as the pins are before the first cycle.
    pub open spec fn spec_released() -> PinRoles {
        PinRoles {
            sense: PinRole::FloatingInput,
            drive_a: PinRole::FloatingInput,
            drive_b: PinRole::FloatingInput,
        }
    }

    /// The sense pin pulls the junction to ground and both drive pins float.
    pub open spec fn spec_discharge() -> PinRoles {
        PinRoles {
            sense: PinRole::OutputLow,
            drive_a: PinRole::FloatingInput,
            drive_b: PinRole::FloatingInput,
        }
    }

    /// The sense pin floats, the phase's drive pin is high and the other
    /// drive pin floats.
    pub open spec fn spec_charge(phase: Phase) -> PinRoles {
        match phase {
            Phase::First => PinRoles {
                sense: PinRole::FloatingInput,
                drive_a: PinRole::OutputHigh,
                drive_b: PinRole::FloatingInput,
            },
            Phase::Second => PinRoles {
                sense: PinRole::FloatingInput,
                drive_a: PinRole::FloatingInput,
                drive_b: PinRole::OutputHigh,
            },
        }
    }

    /// All three pins floating.
    pub fn released() -> (roles: PinRoles)
        ensures
            roles == Self::spec_released(),
            roles.well_formed(),
    {
        PinRoles {
            sense: PinRole::FloatingInput,
            drive_a: PinRole::FloatingInput,
            drive_b: PinRole::FloatingInput,
        }
    }

    /// The configuration that empties the capacitor.
    pub fn discharge() -> (roles: PinRoles)
        ensures
            roles == Self::spec_discharge(),
            roles.well_formed(),
    {
        PinRoles {
            sense: PinRole::OutputLow,
            drive_a: PinRole::FloatingInput,
            drive_b: PinRole::FloatingInput,
        }
    }

    /// The configuration that charges the junction in `phase`.
    pub fn charge(phase: Phase) -> (roles: PinRoles)
        ensures
            roles == Self::spec_charge(phase),
            roles.well_formed(),
            roles.spec_role_of(phase.spec_active_pin()) == PinRole::OutputHigh,
            roles.spec_role_of(phase.spec_idle_pin()) == PinRole::FloatingInput,
    {
        match phase {
            Phase::First => PinRoles {
                sense: PinRole::FloatingInput,
                drive_a: PinRole::OutputHigh,
                drive_b: PinRole::FloatingInput,
            },
            Phase::Second => PinRoles {
                sense: PinRole::FloatingInput,
                drive_a: PinRole::FloatingInput,
                drive_b: PinRole::OutputHigh,
            },
        }
    }

    /// The role of one pin.
    pub fn role_of(&self, pin: PinId) -> (role: PinRole)
        ensures
            role == self.spec_role_of(pin),
    {
        match pin {
            PinId::Sense => self.sense,
            PinId::DriveA => self.drive_a,
            PinId::DriveB => self.drive_b,
        }
    }

    /// These roles with one pin switched to `role`.
    pub fn with(self, pin: PinId, role: PinRole) -> (roles: PinRoles)
        ensures
            roles == self.spec_with(pin, role),
    {
        match pin {
            PinId::Sense => PinRoles { sense: role, drive_a: self.drive_a, drive_b: self.drive_b },
            PinId::DriveA => PinRoles { sense: self.sense, drive_a: role, drive_b: self.drive_b },
            PinId::DriveB => PinRoles { sense: self.sense, drive_a: self.drive_a, drive_b: role },
        }
    }

    /// The order in which to switch the pins, one at a time, to arrive at
    /// these roles. Floating the pins that are to float before driving the
    /// one that is to be driven keeps two nets from being driven at once.
    pub fn switch_order(&self) -> (order: [PinId; 3])
        ensures
            order@ == self.spec_switch_order(),
    {
        let order = if self.drive_a.is_driven() {
            [PinId::Sense, PinId::DriveB, PinId::DriveA]
        } else if self.drive_b.is_driven() {
            [PinId::Sense, PinId::DriveA, PinId::DriveB]
        } else {
            [PinId::DriveA, PinId::DriveB, PinId::Sense]
        };
        assert(order@ =~= self.spec_switch_order());
        order
    }

    /// Whether the configuration obeys the electrical rule of the front-end.
    pub fn is_well_formed(&self) -> (ok: bool)
        ensures
            ok == self.well_formed(),
    {
        let s: u8 = if self.sense.is_driven() { 1 } else { 0 };
        let a: u8 = if self.drive_a.is_driven() { 1 } else { 0 };
        let b: u8 = if self.drive_b.is_driven() { 1 } else { 0 };
        s + a + b <= 1 && self.sense != PinRole::OutputHigh && self.drive_a != PinRole::OutputLow
            && self.drive_b != PinRole::OutputLow
    }
}

} // verus!
