//! The frame driver: what happens, and in which order, each time the display
//! asks for a frame.
//!
//! The driver decides and records; it does not touch the platform. Its
//! caller reads the clock and the capture node, hands the driver what it
//! read, draws from the parameters that the driver then holds, and tells the
//! driver how the draw went.

use crate::bands::{BandSet, BAND_COUNT};
use crate::graph::{swept, GraphSettings, SignalGraph};
use crate::params::{ParameterPublisher, ParameterStore, ParameterValue};
use vstd::prelude::*;

verus! {

/// Name of the parameter that holds the frame's time.
pub const TIME: &'static str = "time";

/// Name of the parameter that holds the four lower bands.
pub const LOW_BANDS: &'static str = "freq_1";

/// Name of the parameter that holds the four upper bands.
pub const HIGH_BANDS: &'static str = "freq_2";

/// Whether frames are being scheduled.
#[derive(Clone, Copy, Debug, PartialEq, Eq, Structural)]
pub enum DriverState {
    /// No frame has been scheduled yet.
    Idle,
    /// Each frame schedules the next.
    Running,
}

/// What can go wrong. Every kind is fatal: nothing is retried.
#[derive(Clone, Copy, Debug, PartialEq, Eq, Structural)]
pub enum PipelineError {
    /// The audio platform could not provide its context or one of the nodes.
    AudioInit,
    /// The renderer could not be set up.
    RendererInit,
    /// A frame could not be drawn.
    Draw,
}

/// The diagnostic text of an error.
pub open spec fn diagnostic(error: PipelineError) -> Seq<char> {
    match error {
        PipelineError::AudioInit => "audio initialisation failed"@,
        PipelineError::RendererInit => "renderer initialisation failed"@,
        PipelineError::Draw => "frame could not be drawn; no further frame is scheduled"@,
    }
}

impl PipelineError {
    /// The diagnostic text to surface when this error ends the run.
    pub fn message(&self) -> (text: String)
        ensures
            text@ == diagnostic(*self),
    {
        match self {
            PipelineError::AudioInit => "audio initialisation failed".to_owned(),
            PipelineError::RendererInit => "renderer initialisation failed".to_owned(),
            PipelineError::Draw => {
                "frame could not be drawn; no further frame is scheduled".to_owned()
            },
        }
    }
}

/// What one frame brings: the values read from the platform at its start.
#[derive(Clone, Copy, Debug, PartialEq)]
pub struct Frame<T> {
    /// The time to publish.
    pub time: T,
    /// The bands of the window captured for this frame.
    pub bands: BandSet<T>,
    /// The sweep step of the primary oscillator at this frame's time.
    pub sweep_step: i8,
    /// The frequency of the modulator oscillator at this frame's time.
    pub modulator_hz: T,
}

/// The four lower bands as one vector.
pub open spec fn low_vector<T>(bands: Seq<T>) -> ParameterValue<T> {
    ParameterValue::Vector4(bands[0], bands[1], bands[2], bands[3])
}

/// The four upper bands as one vector.
pub open spec fn high_vector<T>(bands: Seq<T>) -> ParameterValue<T> {
    ParameterValue::Vector4(bands[4], bands[5], bands[6], bands[7])
}

/// The parameters after a frame has published its time and its bands.
pub open spec fn published<T>(
    before: Map<Seq<char>, ParameterValue<T>>,
    time: T,
    bands: Seq<T>,
) -> Map<Seq<char>, ParameterValue<T>> {
    before.insert(TIME@, ParameterValue::Scalar(time)).insert(LOW_BANDS@, low_vector(bands)).insert(
        HIGH_BANDS@,
        high_vector(bands),
    )
}

/// What a driver holds.
pub struct DriverView<T> {
    pub state: DriverState,
    pub settings: GraphSettings<T>,
    pub parameters: Map<Seq<char>, ParameterValue<T>>,
}

/// Runs the frames: owns the graph and the parameters, and takes them
/// through each frame in a fixed order.
pub struct FrameDriver<T> {
    state: DriverState,
    graph: SignalGraph<T>,
    publisher: ParameterPublisher<T>,
}

impl<T> View for FrameDriver<T> {
    type V = DriverView<T>;

    closed spec fn view(&self) -> DriverView<T> {
        DriverView { state: self.state, settings: self.graph@, parameters: self.publisher@ }
    }
}

impl<T: Copy> FrameDriver<T> {
    /// Creates an idle driver around a graph and a publisher that have been
    /// set up.
    pub fn new(graph: SignalGraph<T>, publisher: ParameterPublisher<T>) -> (driver: Self)
        ensures
            driver@ == (DriverView {
                state: DriverState::Idle,
                settings: graph@,
                parameters: publisher@,
            }),
    {
        FrameDriver { state: DriverState::Idle, graph, publisher }
    }

    /// Starts the run: from now on frames are scheduled. Starting a running
    /// driver changes nothing.
    pub fn start(&mut self)
        ensures
            final(self)@ == (DriverView { state: DriverState::Running, ..old(self)@ }),
    {
        self.state = DriverState::Running;
    }

    /// The driver's state.
    pub fn state(&self) -> (state: DriverState)
        ensures
            state == self@.state,
    {
        self.state
    }

    /// Whether frames are being scheduled.
    pub fn is_running(&self) -> (running: bool)
        ensures
            running == (self@.state == DriverState::Running),
    {
        match self.state {
            DriverState::Running => true,
            DriverState::Idle => false,
        }
    }

    /// Takes the driver through one frame, up to the draw.
    ///
    /// The frame's time is published first, then its lower and upper bands,
    /// and then the graph's oscillators are moved. What `snapshot` returns
    /// afterwards is what the draw of this frame is to use.
    pub fn tick(&mut self, frame: &Frame<T>)
        requires
            old(self)@.state == DriverState::Running,
        ensures
            final(self)@ == (DriverView {
                state: DriverState::Running,
                settings: swept(old(self)@.settings, frame.sweep_step, frame.modulator_hz),
                parameters: published(old(self)@.parameters, frame.time, frame.bands@),
            }),
    {
        proof {
            frame.bands.lemma_len();
        }
        let bands = &frame.bands;
        self.publisher.set(TIME.to_owned(), ParameterValue::Scalar(frame.time));
        self.publisher.set(
            LOW_BANDS.to_owned(),
            ParameterValue::Vector4(bands.get(0), bands.get(1), bands.get(2), bands.get(3)),
        );
        self.publisher.set(
            HIGH_BANDS.to_owned(),
            ParameterValue::Vector4(bands.get(4), bands.get(5), bands.get(6), bands.get(7)),
        );
        self.graph.update(frame.sweep_step, frame.modulator_hz);
    }

    /// Decides what follows a draw. After a draw that succeeded the next
    /// frame is to be scheduled. A draw that failed ends the run: the error
    /// is returned and no further frame is to be scheduled.
    pub fn after_draw(&self, drawn: bool) -> (next: Result<(), PipelineError>)
        ensures
            drawn ==> next == Ok::<(), PipelineError>(()),
            !drawn ==> next == Err::<(), PipelineError>(PipelineError::Draw),
    {
        if drawn {
            Ok(())
        } else {
            Err(PipelineError::Draw)
        }
    }

    /// The current parameters, for the renderer to read.
    pub fn snapshot(&self) -> (store: &ParameterStore<T>)
        ensures
            store@ == self@.parameters,
    {
        self.publisher.snapshot()
    }

    /// The graph, for reading.
    pub fn graph(&self) -> (graph: &SignalGraph<T>)
        ensures
            graph@ == self@.settings,
    {
        &self.graph
    }
}

/// The three names that a frame writes are pairwise distinct.
pub proof fn lemma_frame_names_distinct()
    ensures
        TIME@ != LOW_BANDS@,
        TIME@ != HIGH_BANDS@,
        LOW_BANDS@ != HIGH_BANDS@,
{
    reveal_strlit("time");
    reveal_strlit("freq_1");
    reveal_strlit("freq_2");
    assert(TIME@.len() == 4);
    assert(LOW_BANDS@.len() == 6);
    assert(HIGH_BANDS@.len() == 6);
    assert(LOW_BANDS@[5] == '1');
    assert(HIGH_BANDS@[5] == '2');
}

/// After a frame has published, the time and both band vectors are present
/// and are those of this frame, whatever stood under their names before;
/// every other parameter is as it was.
pub proof fn lemma_frame_is_fresh<T>(
    before: Map<Seq<char>, ParameterValue<T>>,
    time: T,
    bands: Seq<T>,
)
    ensures
        published(before, time, bands).contains_key(TIME@),
        published(before, time, bands).contains_key(LOW_BANDS@),
        published(before, time, bands).contains_key(HIGH_BANDS@),
        published(before, time, bands)[TIME@] == ParameterValue::Scalar(time),
        published(before, time, bands)[LOW_BANDS@] == low_vector(bands),
        published(before, time, bands)[HIGH_BANDS@] == high_vector(bands),
        forall|other: Seq<char>|
            other != TIME@ && other != LOW_BANDS@ && other != HIGH_BANDS@ ==> (#[trigger] published(
                before,
                time,
                bands,
            ).contains_key(other) <==> before.contains_key(other)),
        forall|other: Seq<char>|
            other != TIME@ && other != LOW_BANDS@ && other != HIGH_BANDS@ && before.contains_key(
                other,
            ) ==> #[trigger] published(before, time, bands)[other] == before[other],
{
    lemma_frame_names_distinct();
}

/// What a frame publishes does not depend on the frame before it: two
/// frames in a row leave the parameters that the second alone would leave.
pub proof fn lemma_frame_overwrites_frame<T>(
    before: Map<Seq<char>, ParameterValue<T>>,
    first_time: T,
    first_bands: Seq<T>,
    time: T,
    bands: Seq<T>,
)
    ensures
        published(published(before, first_time, first_bands), time, bands) == published(
            before,
            time,
            bands,
        ),
{
    lemma_frame_names_distinct();
    assert(published(published(before, first_time, first_bands), time, bands) =~= published(
        before,
        time,
        bands,
    ));
}

} // verus!
