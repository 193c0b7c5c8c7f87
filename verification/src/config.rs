//! The shape parameters as the input layer changes them: the defaults, and
//! the steps by which each parameter rises and falls.

use crate::classification::EnabledClasses;
use crate::events::{Parameter, Sign};
use crate::placement::{Parameters, MAX_SPIRAL_ARMS};
use vstd::prelude::*;

verus! {

/// Arm count of a new configuration.
pub const DEFAULT_SPIRAL_ARMS: i64 = 2;

/// Angle modifier of a new configuration, in billionths.
pub const DEFAULT_ANGLE_MOD: i64 = 760_000;

/// Step of the angle modifier, in billionths. The modifier falls only
/// while it is larger than one step.
pub const ANGLE_MOD_STEP: i64 = 100_000;

/// Radius modifier of a new configuration, in thousandths.
pub const DEFAULT_RADIUS_MOD: i64 = 2_200_000;

/// Step by which the radius modifier rises, in thousandths.
pub const RADIUS_MOD_RISE: i64 = 300_000;

/// Step by which the radius modifier falls, in thousandths.
pub const RADIUS_MOD_FALL: i64 = 200_000;

/// The radius modifier falls only while it is larger than this.
pub const RADIUS_MOD_GUARD: i64 = 310_000;

/// Distance modifier of a new configuration.
pub const DEFAULT_DISTANCE_MOD: i64 = 60;

/// Step of the distance modifier.
pub const DISTANCE_MOD_STEP: i64 = 10;

/// The distance modifier falls only while it is larger than this.
pub const DISTANCE_MOD_GUARD: i64 = 11;

impl Parameters {
    /// The parameters of a new configuration.
    pub open spec fn initial() -> Parameters {
        Parameters {
            spiral_arm_count: DEFAULT_SPIRAL_ARMS,
            angle_mod: DEFAULT_ANGLE_MOD,
            radius_mod: DEFAULT_RADIUS_MOD,
            distance_mod: DEFAULT_DISTANCE_MOD,
            enabled: EnabledClasses::everything(),
        }
    }

    /// The adjustment can be made: a rise must fit the machine word, a fall
    /// must leave the parameter positive, and the arm count stays between
    /// one and the most a spiral may have.
    pub open spec fn adjustable(self, parameter: Parameter, sign: Sign) -> bool {
        match (parameter, sign) {
            (Parameter::Angle, Sign::Increase) => self.angle_mod + ANGLE_MOD_STEP <= i64::MAX,
            (Parameter::Angle, Sign::Decrease) => self.angle_mod > ANGLE_MOD_STEP,
            (Parameter::Radius, Sign::Increase) => self.radius_mod + RADIUS_MOD_RISE <= i64::MAX,
            (Parameter::Radius, Sign::Decrease) => self.radius_mod > RADIUS_MOD_GUARD,
            (Parameter::Distance, Sign::Increase) => self.distance_mod + DISTANCE_MOD_STEP
                <= i64::MAX,
            (Parameter::Distance, Sign::Decrease) => self.distance_mod > DISTANCE_MOD_GUARD,
            (Parameter::Arms, Sign::Increase) => self.spiral_arm_count < MAX_SPIRAL_ARMS,
            (Parameter::Arms, Sign::Decrease) => self.spiral_arm_count > 1,
        }
    }

    /// The parameters after the adjustment.
    pub open spec fn adjusted(self, parameter: Parameter, sign: Sign) -> Parameters {
        match (parameter, sign) {
            (Parameter::Angle, Sign::Increase) => Parameters {
                angle_mod: (self.angle_mod + ANGLE_MOD_STEP) as i64,
                ..self
            },
            (Parameter::Angle, Sign::Decrease) => Parameters {
                angle_mod: (self.angle_mod - ANGLE_MOD_STEP) as i64,
                ..self
            },
            (Parameter::Radius, Sign::Increase) => Parameters {
                radius_mod: (self.radius_mod + RADIUS_MOD_RISE) as i64,
                ..self
            },
            (Parameter::Radius, Sign::Decrease) => Parameters {
                radius_mod: (self.radius_mod - RADIUS_MOD_FALL) as i64,
                ..self
            },
            (Parameter::Distance, Sign::Increase) => Parameters {
                distance_mod: (self.distance_mod + DISTANCE_MOD_STEP) as i64,
                ..self
            },
            (Parameter::Distance, Sign::Decrease) => Parameters {
                distance_mod: (self.distance_mod - DISTANCE_MOD_STEP) as i64,
                ..self
            },
            (Parameter::Arms, Sign::Increase) => Parameters {
                spiral_arm_count: (self.spiral_arm_count + 1) as i64,
                ..self
            },
            (Parameter::Arms, Sign::Decrease) => Parameters {
                spiral_arm_count: (self.spiral_arm_count - 1) as i64,
                ..self
            },
        }
    }

    /// Makes the adjustment if it can be made, and says whether it did.
    pub fn adjust(&mut self, parameter: Parameter, sign: Sign) -> (changed: bool)
        requires
            old(self).wf(),
        ensures
            final(self).wf(),
            changed == old(self).adjustable(parameter, sign),
            changed ==> *final(self) == old(self).adjusted(parameter, sign),
            !changed ==> *final(self) == *old(self),
    {
        match parameter {
            Parameter::Angle => match sign {
                Sign::Increase => {
                    if self.angle_mod <= i64::MAX - ANGLE_MOD_STEP {
                        self.angle_mod = self.angle_mod + ANGLE_MOD_STEP;
                        true
                    } else {
                        false
                    }
                },
                Sign::Decrease => {
                    if self.angle_mod > ANGLE_MOD_STEP {
                        self.angle_mod = self.angle_mod - ANGLE_MOD_STEP;
                        true
                    } else {
                        false
                    }
                },
            },
            Parameter::Radius => match sign {
                Sign::Increase => {
                    if self.radius_mod <= i64::MAX - RADIUS_MOD_RISE {
                        self.radius_mod = self.radius_mod + RADIUS_MOD_RISE;
                        true
                    } else {
                        false
                    }
                },
                Sign::Decrease => {
                    if self.radius_mod > RADIUS_MOD_GUARD {
                        self.radius_mod = self.radius_mod - RADIUS_MOD_FALL;
                        true
                    } else {
                        false
                    }
                },
            },
            Parameter::Distance => match sign {
                Sign::Increase => {
                    if self.distance_mod <= i64::MAX - DISTANCE_MOD_STEP {
                        self.distance_mod = self.distance_mod + DISTANCE_MOD_STEP;
                        true
                    } else {
                        false
                    }
                },
                Sign::Decrease => {
                    if self.distance_mod > DISTANCE_MOD_GUARD {
                        self.distance_mod = self.distance_mod - DISTANCE_MOD_STEP;
                        true
                    } else {
                        false
                    }
                },
            },
            Parameter::Arms => match sign {
                Sign::Increase => {
                    if self.spiral_arm_count < MAX_SPIRAL_ARMS {
                        self.spiral_arm_count = self.spiral_arm_count + 1;
                        true
                    } else {
                        false
                    }
                },
                Sign::Decrease => {
                    if self.spiral_arm_count > 1 {
                        self.spiral_arm_count = self.spiral_arm_count - 1;
                        true
                    } else {
                        false
                    }
                },
            },
        }
    }
}

impl Default for Parameters {
    /// The parameters of a new configuration.
    fn default() -> (params: Parameters)
        ensures
            params == Parameters::initial(),
            params.wf(),
    {
        Parameters {
            spiral_arm_count: DEFAULT_SPIRAL_ARMS,
            angle_mod: DEFAULT_ANGLE_MOD,
            radius_mod: DEFAULT_RADIUS_MOD,
            distance_mod: DEFAULT_DISTANCE_MOD,
            enabled: EnabledClasses::all(),
        }
    }
}

} // verus!
