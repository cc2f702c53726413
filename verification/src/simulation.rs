//! The simulation: its vehicles and the cadences of its stages.
//!
//! A host hands every frame's elapsed time and the held inputs to
//! [`Simulation::step`]. Each stage keeps a cadence of its own and runs in
//! the frames in which its period runs out, always in the same order: the
//! inputs are applied first, then the vehicles move, then the collision
//! candidate detector and the projector look at where they have arrived.

use vstd::prelude::*;

use crate::cadence::{Cadence, CadenceState};
use crate::collision::{all_outlined, collect_edges};
use crate::config::{COLLISION_PERIOD_NANOS, TICK_PERIOD_NANOS};
use crate::controls::{Control, ControlSet};
use crate::geometry::Segment;
use crate::projection::{all_projected, project_all, Projection};
use crate::vehicle::{states, Vehicle, VehicleState};

verus! {

/// The stages that run in one step.
#[derive(Clone, Copy, Debug, PartialEq, Eq, Structural)]
pub struct Stages {
    /// The held inputs are applied to the controlled vehicles.
    pub sample: bool,
    /// The vehicles move by one tick.
    pub advance: bool,
    /// The collision candidate detector runs.
    pub detect: bool,
    /// The projector runs.
    pub project: bool,
}

/// The periods of the four stages, in nanoseconds.
#[derive(Clone, Copy, Debug, PartialEq, Eq, Structural)]
pub struct Periods {
    /// The time between two applications of the held inputs.
    pub control_sampling: u64,
    /// The time between two ticks of the kinematic model.
    pub kinematics: u64,
    /// The time between two passes of the collision candidate detector.
    pub collisions: u64,
    /// The time between two passes of the projector.
    pub projection: u64,
}

/// What a simulation is, as plain mathematical values.
pub struct SimulationState {
    /// The vehicles, in the order in which they were added.
    pub vehicles: Seq<VehicleState>,
    /// The cadence of applying the held inputs.
    pub control_sampling: CadenceState,
    /// The cadence of the kinematic model.
    pub kinematics: CadenceState,
    /// The cadence of the collision candidate detector.
    pub collisions: CadenceState,
    /// The cadence of the projector.
    pub projection: CadenceState,
}

/// One vehicle after a step in which `stages` run: the inputs are applied
/// before the vehicle moves.
pub open spec fn step_vehicle(
    vehicle: VehicleState,
    stages: Stages,
    inputs: Set<Control>,
) -> VehicleState {
    let steered = if stages.sample {
        vehicle.apply_controls(inputs)
    } else {
        vehicle
    };
    if stages.advance {
        steered.advance()
    } else {
        steered
    }
}

impl SimulationState {
    /// A simulation without vehicles in which no time has passed.
    pub open spec fn fresh(periods: Periods) -> SimulationState {
        SimulationState {
            vehicles: Seq::empty(),
            control_sampling: CadenceState { period: periods.control_sampling as nat, elapsed: 0 },
            kinematics: CadenceState { period: periods.kinematics as nat, elapsed: 0 },
            collisions: CadenceState { period: periods.collisions as nat, elapsed: 0 },
            projection: CadenceState { period: periods.projection as nat, elapsed: 0 },
        }
    }

    /// Every cadence runs and every vehicle keeps its bounds.
    pub open spec fn wf(self) -> bool {
        &&& self.control_sampling.wf()
        &&& self.kinematics.wf()
        &&& self.collisions.wf()
        &&& self.projection.wf()
        &&& forall|i: int| 0 <= i < self.vehicles.len() ==> (#[trigger] self.vehicles[i]).wf()
    }

    /// The stages whose period runs out within the next `delta` nanoseconds.
    pub open spec fn due(self, delta: nat) -> Stages {
        Stages {
            sample: self.control_sampling.due(delta),
            advance: self.kinematics.due(delta),
            detect: self.collisions.due(delta),
            project: self.projection.due(delta),
        }
    }

    /// The simulation after `stages` have run with `inputs` held. No time
    /// passes.
    pub open spec fn run(self, stages: Stages, inputs: Set<Control>) -> SimulationState {
        SimulationState {
            vehicles: Seq::new(
                self.vehicles.len(),
                |i: int| step_vehicle(self.vehicles[i], stages, inputs),
            ),
            ..self
        }
    }

    /// The simulation after `delta` nanoseconds with `inputs` held: the
    /// stages that are due have run, and every cadence has let the time pass.
    pub open spec fn step(self, delta: nat, inputs: Set<Control>) -> SimulationState {
        SimulationState {
            control_sampling: self.control_sampling.tick(delta),
            kinematics: self.kinematics.tick(delta),
            collisions: self.collisions.tick(delta),
            projection: self.projection.tick(delta),
            ..self.run(self.due(delta), inputs)
        }
    }
}

/// What one step did and found.
#[derive(Debug)]
pub struct StepOutcome {
    /// The stages that ran.
    pub stages: Stages,
    /// The edges of every vehicle after the step, if the collision candidate
    /// detector ran.
    pub edges: Option<Vec<[Segment; 4]>>,
    /// What a renderer needs of every vehicle after the step, if the
    /// projector ran.
    pub projections: Option<Vec<Projection>>,
}

/// A set of vehicles that is stepped at the pace of a host's frames.
#[derive(Debug)]
pub struct Simulation {
    vehicles: Vec<Vehicle>,
    control_sampling: Cadence,
    kinematics: Cadence,
    collisions: Cadence,
    projection: Cadence,
}

impl View for Simulation {
    type V = SimulationState;

    closed spec fn view(&self) -> SimulationState {
        SimulationState {
            vehicles: states(self.vehicles@),
            control_sampling: self.control_sampling@,
            kinematics: self.kinematics@,
            collisions: self.collisions@,
            projection: self.projection@,
        }
    }
}

impl Simulation {
    /// A simulation without vehicles whose stages have the given periods. A
    /// stage without a period is refused.
    pub fn with_periods(periods: Periods) -> (simulation: Option<Simulation>)
        ensures
            simulation.is_some() <==> periods.control_sampling > 0 && periods.kinematics > 0
                && periods.collisions > 0 && periods.projection > 0,
            simulation.is_some() ==> simulation.unwrap()@ == SimulationState::fresh(periods),
            simulation.is_some() ==> simulation.unwrap()@.wf(),
    {
        match (
            Cadence::new(periods.control_sampling),
            Cadence::new(periods.kinematics),
            Cadence::new(periods.collisions),
            Cadence::new(periods.projection),
        ) {
            (Some(control_sampling), Some(kinematics), Some(collisions), Some(projection)) => {
                let simulation = Simulation {
                    vehicles: Vec::new(),
                    control_sampling,
                    kinematics,
                    collisions,
                    projection,
                };
                assert(simulation@.vehicles =~= Seq::<VehicleState>::empty());
                Some(simulation)
            },
            _ => None,
        }
    }

    /// A simulation without vehicles that applies the inputs, moves the
    /// vehicles and projects them sixty times a second, and looks for
    /// collision candidates once a second.
    pub fn new() -> (simulation: Simulation)
        ensures
            simulation@ == SimulationState::fresh(
                Periods {
                    control_sampling: TICK_PERIOD_NANOS,
                    kinematics: TICK_PERIOD_NANOS,
                    collisions: COLLISION_PERIOD_NANOS,
                    projection: TICK_PERIOD_NANOS,
                },
            ),
            simulation@.wf(),
    {
        let periods = Periods {
            control_sampling: TICK_PERIOD_NANOS,
            kinematics: TICK_PERIOD_NANOS,
            collisions: COLLISION_PERIOD_NANOS,
            projection: TICK_PERIOD_NANOS,
        };
        Simulation::with_periods(periods).unwrap()
    }

    /// The number of vehicles.
    pub fn len(&self) -> (len: usize)
        ensures
            len == self@.vehicles.len(),
    {
        self.vehicles.len()
    }

    /// Adds a vehicle and gives the index under which it is found from now
    /// on.
    pub fn add_vehicle(&mut self, vehicle: Vehicle) -> (index: usize)
        ensures
            index == old(self)@.vehicles.len(),
            final(self)@ == (SimulationState {
                vehicles: old(self)@.vehicles.push(vehicle@),
                ..old(self)@
            }),
    {
        let index = self.vehicles.len();
        self.vehicles.push(vehicle);
        assert(self@.vehicles =~= old(self)@.vehicles.push(vehicle@));
        index
    }

    /// The vehicle at `index`, if there is one.
    pub fn vehicle(&self, index: usize) -> (vehicle: Option<&Vehicle>)
        ensures
            index >= self@.vehicles.len() ==> vehicle.is_none(),
            index < self@.vehicles.len() ==> vehicle.is_some() && vehicle.unwrap()@
                == self@.vehicles[index as int],
    {
        if index < self.vehicles.len() {
            Some(&self.vehicles[index])
        } else {
            None
        }
    }

    /// Runs `stages` once, in their order, with `inputs` held. No time
    /// passes: this is for a host that keeps the time itself.
    pub fn run_stages(&mut self, stages: Stages, inputs: &ControlSet) -> (outcome: StepOutcome)
        ensures
            final(self)@ == old(self)@.run(stages, inputs@),
            outcome.stages == stages,
            stages.detect <==> outcome.edges.is_some(),
            outcome.edges.is_some() ==> all_outlined(
                outcome.edges.unwrap()@,
                final(self)@.vehicles,
            ),
            stages.project <==> outcome.projections.is_some(),
            outcome.projections.is_some() ==> all_projected(
                outcome.projections.unwrap()@,
                final(self)@.vehicles,
            ),
    {
        let ghost before = old(self).vehicles@;
        let ghost control_sampling = self.control_sampling;
        let ghost kinematics = self.kinematics;
        let ghost collisions = self.collisions;
        let ghost projection = self.projection;
        let count = self.vehicles.len();
        let mut i: usize = 0;
        while i < count
            invariant
                i <= count,
                count == before.len(),
                self.vehicles.len() == count,
                self.control_sampling == control_sampling,
                self.kinematics == kinematics,
                self.collisions == collisions,
                self.projection == projection,
                forall|j: int|
                    0 <= j < i ==> (#[trigger] self.vehicles[j])@ == step_vehicle(
                        before[j]@,
                        stages,
                        inputs@,
                    ),
                forall|j: int| i <= j < count ==> (#[trigger] self.vehicles[j]) == before[j],
            decreases count - i,
        {
            let ghost entering = self.vehicles@;
            assert(entering[i as int] == before[i as int]);
            if stages.sample {
                self.vehicles[i].apply_controls(inputs);
            }
            let ghost steered = self.vehicles@;
            assert(forall|j: int| 0 <= j < count && j != i ==> steered[j] == entering[j]);
            if stages.advance {
                self.vehicles[i].advance();
            }
            assert(forall|j: int| 0 <= j < count && j != i ==> self.vehicles@[j] == steered[j]);
            i = i + 1;
        }
        let edges = if stages.detect {
            Some(collect_edges(&self.vehicles))
        } else {
            None
        };
        let projections = if stages.project {
            Some(project_all(&self.vehicles))
        } else {
            None
        };
        assert(self@.vehicles =~= old(self)@.run(stages, inputs@).vehicles);
        StepOutcome { stages, edges, projections }
    }

    /// Lets `delta` nanoseconds pass with `inputs` held. The stages that are
    /// due run once, in their order.
    pub fn step(&mut self, delta: u64, inputs: &ControlSet) -> (outcome: StepOutcome)
        ensures
            final(self)@ == old(self)@.step(delta as nat, inputs@),
            outcome.stages == old(self)@.due(delta as nat),
            outcome.stages.detect <==> outcome.edges.is_some(),
            outcome.edges.is_some() ==> all_outlined(
                outcome.edges.unwrap()@,
                final(self)@.vehicles,
            ),
            outcome.stages.project <==> outcome.projections.is_some(),
            outcome.projections.is_some() ==> all_projected(
                outcome.projections.unwrap()@,
                final(self)@.vehicles,
            ),
    {
        let sample = self.control_sampling.tick(delta);
        let advance = self.kinematics.tick(delta);
        let detect = self.collisions.tick(delta);
        let project = self.projection.tick(delta);
        self.run_stages(Stages { sample, advance, detect, project }, inputs)
    }
}

} // verus!
