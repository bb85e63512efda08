//! Dual-sensor throttle fusion: linear calibration of two independent
//! sensor ranges onto the full `0..=u16::MAX` output range, with a
//! tolerance cross-check between the two redundant sensors.

use vstd::prelude::*;

verus! {

#[derive(Debug, PartialEq, Eq, Structural, Clone, Copy)]
pub enum ThrottleError {
    /// A raw sensor reading fell outside its calibrated interval.
    SensorOutOfRange,
    /// The two mapped sensor values diverge by more than the tolerance.
    SensorMismatch,
}

/// An ordered pair `(min, max)` of raw input magnitudes (millivolts),
/// normalized so `min <= max` regardless of constructor argument order.
/// Maps an input in `[min, max]` linearly onto `0..=u16::MAX`; inputs
/// outside the closed interval are rejected, never clamped.
pub struct ThrottleSensorMap {
    pub min: u16,
    pub max: u16,
}

impl ThrottleSensorMap {
    pub open spec fn wf(&self) -> bool {
        self.min <= self.max
    }

    /// What `map` returns: `None` outside the closed interval (and for the
    /// degenerate zero-width interval), otherwise the linear image of the
    /// input on the full output range, truncated toward zero.
    pub open spec fn spec_map(&self, value: u16) -> Option<u16> {
        if value < self.min || value > self.max {
            None
        } else if self.min == self.max {
            None
        } else {
            Some((((value - self.min) * 65535) / (self.max - self.min)) as u16)
        }
    }

    /// Create a new map for `min..=max` onto `0..=u16::MAX`; the bounds are
    /// normalized so that the smaller argument becomes `min`.
    pub fn new(min: u16, max: u16) -> (m: Self)
        ensures
            m.wf(),
            m.min == if min <= max { min } else { max },
            m.max == if min <= max { max } else { min },
    {
        if min <= max {
            ThrottleSensorMap { min, max }
        } else {
            ThrottleSensorMap { min: max, max: min }
        }
    }

    /// Map a value from the calibrated range onto the full `0..=u16::MAX`
    /// range.
    pub fn map(&self, value: u16) -> (r: Option<u16>)
        requires
            self.wf(),
        ensures
            r == self.spec_map(value),
    {
        if value < self.min || value > self.max {
            return None;
        }
        if self.min == self.max {
            return None;
        }
        let num: u32 = (value - self.min) as u32 * 65535;
        let den: u32 = (self.max - self.min) as u32;
        let q: u32 = num / den;
        proof {
            let d = (value - self.min) as int;
            vstd::arithmetic::mul::lemma_mul_inequality(d, den as int, 65535);
            vstd::arithmetic::div_mod::lemma_div_is_ordered(
                d * 65535,
                (den as int) * 65535,
                den as int,
            );
            vstd::arithmetic::div_mod::lemma_div_multiples_vanish(65535, den as int);
        }
        Some(q as u16)
    }
}

/// Two independent sensor maps plus a `tolerance` in output units. A fused
/// position exists only if both sensors map successfully and their mapped
/// values differ by no more than `tolerance`; the fused value is their
/// arithmetic mean, truncated toward zero.
pub struct Throttle {
    pub sensor1_map: ThrottleSensorMap,
    pub sensor2_map: ThrottleSensorMap,
    pub tolerance: u16,
}

impl Throttle {
    pub open spec fn wf(&self) -> bool {
        self.sensor1_map.wf() && self.sensor2_map.wf()
    }

    /// What `position` returns: `SensorOutOfRange` if either sensor fails
    /// to map (checked independently per sensor), `SensorMismatch` if the
    /// mapped values diverge beyond the tolerance, and otherwise their
    /// arithmetic mean.
    pub open spec fn spec_position(&self, sensor1: u16, sensor2: u16) -> Result<
        u16,
        ThrottleError,
    > {
        match (self.sensor1_map.spec_map(sensor1), self.sensor2_map.spec_map(sensor2)) {
            (Some(v1), Some(v2)) => {
                let diff = if v1 >= v2 {
                    v1 - v2
                } else {
                    v2 - v1
                };
                if diff > self.tolerance {
                    Err(ThrottleError::SensorMismatch)
                } else {
                    Ok(((v1 + v2) / 2) as u16)
                }
            },
            _ => Err(ThrottleError::SensorOutOfRange),
        }
    }

    /// Create a new `Throttle` from the min/max millivolt calibration of
    /// both sensors and a full-range tolerance between them.
    pub fn new(sensor1: (u16, u16), sensor2: (u16, u16), tolerance: u16) -> (t: Self)
        ensures
            t.wf(),
            t.sensor1_map.min == if sensor1.0 <= sensor1.1 { sensor1.0 } else { sensor1.1 },
            t.sensor1_map.max == if sensor1.0 <= sensor1.1 { sensor1.1 } else { sensor1.0 },
            t.sensor2_map.min == if sensor2.0 <= sensor2.1 { sensor2.0 } else { sensor2.1 },
            t.sensor2_map.max == if sensor2.0 <= sensor2.1 { sensor2.1 } else { sensor2.0 },
            t.tolerance == tolerance,
    {
        Throttle {
            sensor1_map: ThrottleSensorMap::new(sensor1.0, sensor1.1),
            sensor2_map: ThrottleSensorMap::new(sensor2.0, sensor2.1),
            tolerance,
        }
    }

    /// The checked throttle position for two measured sensor voltages.
    pub fn position(&self, sensor1: u16, sensor2: u16) -> (r: Result<u16, ThrottleError>)
        requires
            self.wf(),
        ensures
            r == self.spec_position(sensor1, sensor2),
    {
        let v1 = match self.sensor1_map.map(sensor1) {
            Some(v) => v,
            None => {
                return Err(ThrottleError::SensorOutOfRange);
            },
        };
        let v2 = match self.sensor2_map.map(sensor2) {
            Some(v) => v,
            None => {
                return Err(ThrottleError::SensorOutOfRange);
            },
        };
        let diff = if v1 >= v2 {
            v1 - v2
        } else {
            v2 - v1
        };
        if diff > self.tolerance {
            return Err(ThrottleError::SensorMismatch);
        }
        let mean: u32 = ((v1 as u32) + (v2 as u32)) / 2;
        Ok(mean as u16)
    }
}

} // verus!
