//! The fixed audio graph: its nodes, their settings, the connections
//! between them, and the frequency sweep of the primary oscillator.
//!
//! The graph is a description. Whoever owns the audio platform creates one
//! platform node per node described here, connects them as `wiring` says and
//! carries each later change of a setting over to the platform.

use crate::bands::CAPTURE_SIZE;
use vstd::prelude::*;

verus! {

/// Frequency, in hertz, around which the primary oscillator sweeps.
pub const SWEEP_CENTRE_HZ: i32 = 220;

/// Width, in hertz, of one step of the sweep.
pub const SWEEP_STEP_HZ: i32 = 50;

/// Frequency, in hertz, of the primary oscillator before the first update.
pub const PRIMARY_INITIAL_HZ: i32 = 440;

/// Frequency, in hertz, of the modulator oscillator before the first update.
pub const MODULATOR_INITIAL_HZ: i32 = 220;

/// Gain of the primary branch, in hundredths of the input amplitude.
pub const PRIMARY_GAIN_PERCENT: u32 = 30;

/// Gain of the modulator branch, in hundredths of the input amplitude.
pub const MODULATOR_GAIN_PERCENT: u32 = 100;

/// Level, in decibels, above which the limiter starts to compress.
pub const LIMITER_THRESHOLD_DB: i32 = -50;

/// Decibels of input above the threshold for one decibel of output.
pub const LIMITER_RATIO: u32 = 5;

/// Shape of an oscillator's wave.
#[derive(Clone, Copy, Debug, PartialEq, Eq, Structural)]
pub enum Waveform {
    Sine,
    Square,
    Sawtooth,
    Triangle,
}

/// A frequency in hertz: a whole number that the graph computes itself, or a
/// value that the caller has computed and the graph carries.
#[derive(Clone, Copy, Debug, PartialEq)]
pub enum Frequency<T> {
    Whole(i32),
    Carried(T),
}

/// A signal source with a wave shape and a frequency.
#[derive(Clone, Copy, Debug, PartialEq)]
pub struct Oscillator<T> {
    pub waveform: Waveform,
    pub frequency: Frequency<T>,
    pub running: bool,
}

/// A stage that scales its input.
#[derive(Clone, Copy, Debug, PartialEq, Eq, Structural)]
pub struct Gain {
    pub percent: u32,
}

/// A stage that compresses what exceeds a threshold.
#[derive(Clone, Copy, Debug, PartialEq, Eq, Structural)]
pub struct DynamicsLimiter {
    pub threshold_db: i32,
    pub ratio: u32,
}

/// A stage that passes its input on and lets the latest window be read.
#[derive(Clone, Copy, Debug, PartialEq, Eq, Structural)]
pub struct SpectralCapture {
    pub capture_size: usize,
}

/// The places of the graph.
#[derive(Clone, Copy, Debug, PartialEq, Eq, Structural)]
pub enum NodeId {
    Primary,
    PrimaryGain,
    Limiter,
    Capture,
    Output,
    Modulator,
    ModulatorGain,
}

/// A directed edge: the output of `from` feeds the input of `to`.
#[derive(Clone, Copy, Debug, PartialEq, Eq, Structural)]
pub struct Connection {
    pub from: NodeId,
    pub to: NodeId,
}

/// The settings of every node of the graph.
pub struct GraphSettings<T> {
    pub primary: Oscillator<T>,
    pub modulator: Oscillator<T>,
    pub primary_gain: Gain,
    pub modulator_gain: Gain,
    pub limiter: DynamicsLimiter,
    pub capture: SpectralCapture,
}

/// The settings with which the graph is built.
pub open spec fn initial_settings<T>() -> GraphSettings<T> {
    GraphSettings {
        primary: Oscillator {
            waveform: Waveform::Sine,
            frequency: Frequency::Whole(PRIMARY_INITIAL_HZ),
            running: true,
        },
        modulator: Oscillator {
            waveform: Waveform::Sine,
            frequency: Frequency::Whole(MODULATOR_INITIAL_HZ),
            running: true,
        },
        primary_gain: Gain { percent: PRIMARY_GAIN_PERCENT },
        modulator_gain: Gain { percent: MODULATOR_GAIN_PERCENT },
        limiter: DynamicsLimiter { threshold_db: LIMITER_THRESHOLD_DB, ratio: LIMITER_RATIO },
        capture: SpectralCapture { capture_size: CAPTURE_SIZE },
    }
}

/// The connections of the graph, in the order in which they are made. The
/// primary branch runs through the limiter and the capture node to the
/// output. The modulator branch ends at its gain stage.
pub open spec fn wiring() -> Seq<Connection> {
    seq![
        Connection { from: NodeId::Primary, to: NodeId::PrimaryGain },
        Connection { from: NodeId::PrimaryGain, to: NodeId::Limiter },
        Connection { from: NodeId::Limiter, to: NodeId::Capture },
        Connection { from: NodeId::Capture, to: NodeId::Output },
        Connection { from: NodeId::Modulator, to: NodeId::ModulatorGain },
    ]
}

/// The primary oscillator's frequency for a given sweep step.
pub open spec fn sweep_frequency(step: int) -> int {
    SWEEP_CENTRE_HZ + step * SWEEP_STEP_HZ
}

/// The settings after an update: the primary oscillator stands at the
/// frequency of the sweep step, the modulator oscillator at the frequency
/// given, and nothing else differs.
pub open spec fn swept<T>(settings: GraphSettings<T>, step: i8, modulator: T) -> GraphSettings<T> {
    GraphSettings {
        primary: Oscillator {
            frequency: Frequency::Whole(sweep_frequency(step as int) as i32),
            ..settings.primary
        },
        modulator: Oscillator { frequency: Frequency::Carried(modulator), ..settings.modulator },
        ..settings
    }
}

/// Whether the output of `from` feeds the input of `to` directly.
pub open spec fn connected(from: NodeId, to: NodeId) -> bool {
    wiring().contains(Connection { from, to })
}

/// Whether `path` follows connections from its first node to its last.
pub open spec fn is_path(path: Seq<NodeId>) -> bool {
    &&& path.len() >= 1
    &&& forall|i: int| 0 <= i < path.len() - 1 ==> connected(#[trigger] path[i], path[i + 1])
}

/// Whether a node belongs to the modulator branch.
pub open spec fn in_modulator_branch(node: NodeId) -> bool {
    node == NodeId::Modulator || node == NodeId::ModulatorGain
}

/// Computes the primary oscillator's frequency, in hertz, for a sweep step.
///
/// The step is the tenfold sine of the elapsed time over five hundred,
/// rounded up to a whole number; the caller computes it, since the sine is a
/// floating-point operation.
pub fn primary_frequency(step: i8) -> (hz: i32)
    ensures
        hz == sweep_frequency(step as int),
{
    let wide: i32 = step as i32;
    SWEEP_CENTRE_HZ + wide * SWEEP_STEP_HZ
}

/// The audio graph: two oscillators, two gain stages, a limiter and a
/// capture node, wired as `wiring` says.
pub struct SignalGraph<T> {
    settings: GraphSettings<T>,
}

impl<T> View for SignalGraph<T> {
    type V = GraphSettings<T>;

    closed spec fn view(&self) -> GraphSettings<T> {
        self.settings
    }
}

impl<T: Copy> SignalGraph<T> {
    /// Builds the graph with its initial settings and both oscillators
    /// running.
    pub fn build() -> (graph: Self)
        ensures
            graph@ == initial_settings::<T>(),
    {
        SignalGraph {
            settings: GraphSettings {
                primary: Oscillator {
                    waveform: Waveform::Sine,
                    frequency: Frequency::Whole(PRIMARY_INITIAL_HZ),
                    running: true,
                },
                modulator: Oscillator {
                    waveform: Waveform::Sine,
                    frequency: Frequency::Whole(MODULATOR_INITIAL_HZ),
                    running: true,
                },
                primary_gain: Gain { percent: PRIMARY_GAIN_PERCENT },
                modulator_gain: Gain { percent: MODULATOR_GAIN_PERCENT },
                limiter: DynamicsLimiter {
                    threshold_db: LIMITER_THRESHOLD_DB,
                    ratio: LIMITER_RATIO,
                },
                capture: SpectralCapture { capture_size: CAPTURE_SIZE },
            },
        }
    }

    /// Moves the primary oscillator to the frequency of a sweep step and the
    /// modulator oscillator to the frequency given. The frequencies that the
    /// oscillators had before play no part.
    ///
    /// The modulator's frequency is one plus the cosine of the elapsed time
    /// over fifty; the caller computes it, as it does the sweep step.
    pub fn update(&mut self, step: i8, modulator: T)
        ensures
            final(self)@ == swept(old(self)@, step, modulator),
    {
        self.settings.primary.frequency = Frequency::Whole(primary_frequency(step));
        self.settings.modulator.frequency = Frequency::Carried(modulator);
    }

    /// The connections to make when the graph is set up, in order.
    pub fn connections(&self) -> (edges: Vec<Connection>)
        ensures
            edges@ == wiring(),
    {
        let mut edges: Vec<Connection> = Vec::new();
        edges.push(Connection { from: NodeId::Primary, to: NodeId::PrimaryGain });
        edges.push(Connection { from: NodeId::PrimaryGain, to: NodeId::Limiter });
        edges.push(Connection { from: NodeId::Limiter, to: NodeId::Capture });
        edges.push(Connection { from: NodeId::Capture, to: NodeId::Output });
        edges.push(Connection { from: NodeId::Modulator, to: NodeId::ModulatorGain });
        assert(edges@ =~= wiring());
        edges
    }

    /// The primary oscillator.
    pub fn primary(&self) -> (node: Oscillator<T>)
        ensures
            node == self@.primary,
    {
        self.settings.primary
    }

    /// The modulator oscillator.
    pub fn modulator(&self) -> (node: Oscillator<T>)
        ensures
            node == self@.modulator,
    {
        self.settings.modulator
    }

    /// The gain stage behind the primary oscillator.
    pub fn primary_gain(&self) -> (node: Gain)
        ensures
            node == self@.primary_gain,
    {
        self.settings.primary_gain
    }

    /// The gain stage behind the modulator oscillator.
    pub fn modulator_gain(&self) -> (node: Gain)
        ensures
            node == self@.modulator_gain,
    {
        self.settings.modulator_gain
    }

    /// The limiter.
    pub fn limiter(&self) -> (node: DynamicsLimiter)
        ensures
            node == self@.limiter,
    {
        self.settings.limiter
    }

    /// The capture node, for reading. The graph hands out no way to change
    /// it.
    pub fn capture_point(&self) -> (node: &SpectralCapture)
        ensures
            *node == self@.capture,
    {
        &self.settings.capture
    }
}

/// An update depends on its arguments alone. Whatever two graphs held
/// before, after an update with the same step and the same modulator
/// frequency their oscillators stand at the same frequencies, those that the
/// arguments give; and a second update with the same arguments changes
/// nothing.
pub proof fn lemma_update_forgets_history<T>(
    a: GraphSettings<T>,
    b: GraphSettings<T>,
    step: i8,
    modulator: T,
)
    ensures
        swept(a, step, modulator).primary.frequency == swept(b, step, modulator).primary.frequency,
        swept(a, step, modulator).modulator.frequency == swept(
            b,
            step,
            modulator,
        ).modulator.frequency,
        swept(a, step, modulator).primary.frequency == Frequency::<T>::Whole(
            sweep_frequency(step as int) as i32,
        ),
        swept(a, step, modulator).modulator.frequency == Frequency::Carried(modulator),
        swept(swept(a, step, modulator), step, modulator) == swept(a, step, modulator),
{
}

/// An update touches nothing but the two oscillators' frequencies.
pub proof fn lemma_update_keeps_the_rest<T>(settings: GraphSettings<T>, step: i8, modulator: T)
    ensures
        swept(settings, step, modulator).primary.waveform == settings.primary.waveform,
        swept(settings, step, modulator).primary.running == settings.primary.running,
        swept(settings, step, modulator).modulator.waveform == settings.modulator.waveform,
        swept(settings, step, modulator).modulator.running == settings.modulator.running,
        swept(settings, step, modulator).primary_gain == settings.primary_gain,
        swept(settings, step, modulator).modulator_gain == settings.modulator_gain,
        swept(settings, step, modulator).limiter == settings.limiter,
        swept(settings, step, modulator).capture == settings.capture,
{
}

/// The frequency of a sweep step fits the oscillator's register: it lies
/// within a hundred and twenty-eight steps of the centre.
pub proof fn lemma_sweep_frequency_bounds(step: i8)
    ensures
        SWEEP_CENTRE_HZ - 128 * SWEEP_STEP_HZ <= sweep_frequency(step as int) <= SWEEP_CENTRE_HZ
            + 127 * SWEEP_STEP_HZ,
        sweep_frequency(step as int) as i32 == sweep_frequency(step as int),
{
}

/// The primary oscillator reaches the output, by way of its gain stage, the
/// limiter and the capture node.
pub proof fn lemma_primary_reaches_output()
    ensures
        is_path(
            seq![
                NodeId::Primary,
                NodeId::PrimaryGain,
                NodeId::Limiter,
                NodeId::Capture,
                NodeId::Output,
            ],
        ),
{
    let path = seq![
        NodeId::Primary,
        NodeId::PrimaryGain,
        NodeId::Limiter,
        NodeId::Capture,
        NodeId::Output,
    ];
    assert forall|i: int| 0 <= i < path.len() - 1 implies connected(#[trigger] path[i], path[i + 1]) by {
        let edge = Connection { from: path[i], to: path[i + 1] };
        assert(wiring()[i] == edge);
    }
}

/// The modulator branch feeds nothing outside itself: a path that starts in
/// it stays in it, so it reaches neither the primary oscillator nor the
/// output.
pub proof fn lemma_modulator_branch_is_isolated(path: Seq<NodeId>)
    requires
        is_path(path),
        in_modulator_branch(path[0]),
    ensures
        forall|i: int| 0 <= i < path.len() ==> in_modulator_branch(#[trigger] path[i]),
    decreases path.len(),
{
    if path.len() > 1 {
        let shorter = path.drop_last();
        assert(is_path(shorter)) by {
            assert forall|i: int| 0 <= i < shorter.len() - 1 implies connected(
                #[trigger] shorter[i],
                shorter[i + 1],
            ) by {
                assert(connected(path[i], path[i + 1]));
            }
        }
        lemma_modulator_branch_is_isolated(shorter);
        let last = path.len() - 1;
        assert(in_modulator_branch(shorter[last - 1]));
        assert(connected(path[last - 1], path[last]));
        let edge = Connection { from: path[last - 1], to: path[last] };
        let at = choose|at: int| 0 <= at < wiring().len() && wiring()[at] == edge;
        assert(at == 4);
        assert forall|i: int| 0 <= i < path.len() implies in_modulator_branch(
            #[trigger] path[i],
        ) by {
            if i < last {
                assert(path[i] == shorter[i]);
            }
        }
    }
}

} // verus!
