//! The control inputs that are held during one tick.

use vstd::prelude::*;

verus! {

/// One directional input.
#[derive(Clone, Copy, Debug, PartialEq, Eq, Structural)]
pub enum Control {
    Accelerate,
    Brake,
    SteerLeft,
    SteerRight,
}

/// The set of inputs held at the moment of a tick.
#[derive(Clone, Copy, Debug, PartialEq, Eq, Structural)]
pub struct ControlSet {
    pub accelerate: bool,
    pub brake: bool,
    pub steer_left: bool,
    pub steer_right: bool,
}

impl View for ControlSet {
    type V = Set<Control>;

    open spec fn view(&self) -> Set<Control> {
        Set::new(
            |c: Control|
                match c {
                    Control::Accelerate => self.accelerate,
                    Control::Brake => self.brake,
                    Control::SteerLeft => self.steer_left,
                    Control::SteerRight => self.steer_right,
                },
        )
    }
}

impl ControlSet {
    /// The set without any input.
    pub fn empty() -> (set: ControlSet)
        ensures
            set@ == Set::<Control>::empty(),
    {
        let set = ControlSet {
            accelerate: false,
            brake: false,
            steer_left: false,
            steer_right: false,
        };
        assert(set@ =~= Set::<Control>::empty());
        set
    }

    /// The set with `control` added.
    pub fn with(self, control: Control) -> (set: ControlSet)
        ensures
            set@ == self@.insert(control),
    {
        let set = match control {
            Control::Accelerate => ControlSet { accelerate: true, ..self },
            Control::Brake => ControlSet { brake: true, ..self },
            Control::SteerLeft => ControlSet { steer_left: true, ..self },
            Control::SteerRight => ControlSet { steer_right: true, ..self },
        };
        assert(set@ =~= self@.insert(control));
        set
    }

    /// Whether `control` is in the set.
    pub fn contains(&self, control: Control) -> (held: bool)
        ensures
            held == self@.contains(control),
    {
        match control {
            Control::Accelerate => self.accelerate,
            Control::Brake => self.brake,
            Control::SteerLeft => self.steer_left,
            Control::SteerRight => self.steer_right,
        }
    }
}

} // verus!
