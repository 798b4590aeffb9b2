//! The fractal and view parameters, and the store that holds the current ones.

use vstd::prelude::*;
use crate::float_bits::{
    FloatBits, ONE, THREE, EIGHT, ONE_THOUSAND, TWO_THOUSANDTHS, is_finite, less_than,
    bits_are_finite, bits_less_than,
};

verus! {

/// How the fractal is marched. Floats are bit patterns; the two counters are
/// plain integers.
#[derive(Clone, Copy, Debug, PartialEq, Eq, Structural)]
pub struct RenderParameters {
    pub power: FloatBits,
    pub max_iterations: u32,
    pub bailout: FloatBits,
    pub num_steps: u32,
    pub min_dist: FloatBits,
    pub max_dist: FloatBits,
    pub zoom: FloatBits,
}

impl RenderParameters {
    /// The values a shader can work with: every float finite, both counters
    /// positive, and the near bound below the far bound. Nothing in this crate
    /// enforces it: parameters that break it travel to the buffer unchanged.
    pub open spec fn well_formed(self) -> bool {
        &&& is_finite(self.power)
        &&& is_finite(self.bailout)
        &&& is_finite(self.min_dist)
        &&& is_finite(self.max_dist)
        &&& is_finite(self.zoom)
        &&& self.max_iterations > 0
        &&& self.num_steps > 0
        &&& less_than(self.min_dist, self.max_dist)
    }

    /// Power 8, 8 iterations, bailout 3, 64 steps, distances from 0.002 to
    /// 1000, zoom 1.
    pub open spec fn spec_defaults() -> RenderParameters {
        RenderParameters {
            power: EIGHT,
            max_iterations: 8,
            bailout: THREE,
            num_steps: 64,
            min_dist: TWO_THOUSANDTHS,
            max_dist: ONE_THOUSAND,
            zoom: ONE,
        }
    }

    /// The parameters a store starts with.
    pub fn defaults() -> (p: RenderParameters)
        ensures
            p == Self::spec_defaults(),
            p.well_formed(),
    {
        RenderParameters {
            power: EIGHT,
            max_iterations: 8,
            bailout: THREE,
            num_steps: 64,
            min_dist: TWO_THOUSANDTHS,
            max_dist: ONE_THOUSAND,
            zoom: ONE,
        }
    }

    /// Tests `well_formed`.
    pub fn is_well_formed(&self) -> (ok: bool)
        ensures
            ok == self.well_formed(),
    {
        bits_are_finite(self.power) && bits_are_finite(self.bailout) && bits_are_finite(
            self.min_dist,
        ) && bits_are_finite(self.max_dist) && bits_are_finite(self.zoom)
            && self.max_iterations > 0 && self.num_steps > 0 && bits_less_than(
            self.min_dist,
            self.max_dist,
        )
    }
}

/// How the view is shaped.
#[derive(Clone, Copy, Debug, PartialEq, Eq, Structural)]
pub struct ViewParameters {
    pub aspect_ratio: FloatBits,
}

impl ViewParameters {
    /// The aspect ratio is a finite number.
    pub open spec fn well_formed(self) -> bool {
        is_finite(self.aspect_ratio)
    }

    /// A square view: aspect ratio 1.
    pub open spec fn spec_defaults() -> ViewParameters {
        ViewParameters { aspect_ratio: ONE }
    }

    /// The view a store starts with.
    pub fn defaults() -> (v: ViewParameters)
        ensures
            v == Self::spec_defaults(),
            v.well_formed(),
    {
        ViewParameters { aspect_ratio: ONE }
    }

    /// Tests `well_formed`.
    pub fn is_well_formed(&self) -> (ok: bool)
        ensures
            ok == self.well_formed(),
    {
        bits_are_finite(self.aspect_ratio)
    }
}

/// Both parameter sets as they stood at one moment.
#[derive(Clone, Copy, Debug, PartialEq, Eq, Structural)]
pub struct ParameterSnapshot {
    pub render: RenderParameters,
    pub view: ViewParameters,
}

/// The simulation side's current parameters. The store checks nothing: what
/// is set is what is read, whether a shader can work with it or not.
#[derive(Clone, Copy, Debug)]
pub struct ParameterStore {
    current: ParameterSnapshot,
}

impl View for ParameterStore {
    type V = ParameterSnapshot;

    closed spec fn view(&self) -> ParameterSnapshot {
        self.current
    }
}

impl ParameterStore {
    /// A store that holds the default parameters.
    pub fn new() -> (store: ParameterStore)
        ensures
            store@.render == RenderParameters::spec_defaults(),
            store@.view == ViewParameters::spec_defaults(),
    {
        ParameterStore {
            current: ParameterSnapshot {
                render: RenderParameters::defaults(),
                view: ViewParameters::defaults(),
            },
        }
    }

    /// A copy of what the store holds now.
    pub fn get(&self) -> (snapshot: ParameterSnapshot)
        ensures
            snapshot == self@,
    {
        self.current
    }

    /// Replaces both parameter sets.
    pub fn set(&mut self, snapshot: ParameterSnapshot)
        ensures
            final(self)@ == snapshot,
    {
        self.current = snapshot;
    }

    /// Replaces the fractal parameters and keeps the view.
    pub fn set_render(&mut self, render: RenderParameters)
        ensures
            final(self)@.render == render,
            final(self)@.view == old(self)@.view,
    {
        self.current.render = render;
    }

    /// Replaces the view parameters and keeps the fractal parameters.
    pub fn set_view(&mut self, view: ViewParameters)
        ensures
            final(self)@.view == view,
            final(self)@.render == old(self)@.render,
    {
        self.current.view = view;
    }
}

} // verus!
