//! The multi-shot mode: a measurement is a series of single conversions.

use vstd::prelude::*;

use crate::cfg;
use crate::cfg::Cfg;
use crate::config::Configuration;
use crate::driver::MCP3424;
use crate::error::Error;
use crate::mode::oneshot;
use crate::mode::Action;
use crate::mode::Event;
use crate::mode::Mode;
use crate::sample::spec_convert;
use crate::sample::Voltage;

verus! {

/// A mode which triggers a sequence of one-shot conversions.
///
/// The multi-shot mode is a variation of the [`OneShotMode`]: a measurement
/// runs `N` single conversions one after the other, each with a
/// configuration of its own, and returns all values at once. The first
/// conversion that fails ends the measurement with its error.
///
/// This mode is not a feature of the device. The values of one measurement
/// were converted one after the other, not at the same time.
///
/// [`OneShotMode`]: crate::mode::OneShotMode
pub struct MultiShotMode<const N: usize> {
    cfgs: [Cfg; N],
    delays: [u32; N],
    index: usize,
    values: [Voltage; N],
}

/// What a [`MultiShotMode`] holds.
pub struct MultiShotView {
    /// The register to write for each conversion, in order.
    pub cfgs: Seq<Cfg>,
    /// The time to wait for each conversion in microseconds, in order.
    pub delays: Seq<u32>,
    /// The values of the conversions that the measurement under way has
    /// completed, in order.
    pub collected: Seq<Voltage>,
}

impl MultiShotView {
    /// The view of the mode that the first `n` of some configurations ask
    /// for, with no measurement under way.
    pub open spec fn of(configurations: Seq<Configuration>, n: nat) -> MultiShotView {
        MultiShotView {
            cfgs: Seq::new(n, |i: int| oneshot::spec_cfg(configurations[i])),
            delays: Seq::new(n, |i: int| configurations[i].spec_conversion_time_us()),
            collected: Seq::empty(),
        }
    }

    /// There is a time to wait for every register, every register starts a
    /// single conversion, and of the conversions at least one is left to do
    /// unless none is under way.
    pub open spec fn wf(self) -> bool {
        &&& self.cfgs.len() == self.delays.len()
        &&& self.collected.len() == 0 || self.collected.len() < self.cfgs.len()
        &&& forall|i: int|
            0 <= i < self.cfgs.len() ==> !(#[trigger] self.cfgs[i]).ready && self.cfgs[i].mode
                == cfg::Mode::OneShot
    }

    /// The state with no measurement under way.
    pub open spec fn reset(self) -> MultiShotView {
        MultiShotView { collected: Seq::empty(), ..self }
    }

    /// The state after an event and the answer of the machine to it.
    ///
    /// The conversion under way is the one behind those completed. Where
    /// the mode holds no conversion at all there is nothing to ask of the
    /// device: the result is empty.
    pub open spec fn step<BusError>(self, event: Event<BusError>) -> (
        MultiShotView,
        Action<Seq<Voltage>, BusError>,
    ) {
        let current: int = self.collected.len() as int;
        let nothing = (self.reset(), Action::Return(Ok(Seq::empty())));
        match event {
            Event::Measure | Event::Poll => if self.cfgs.len() == 0 {
                nothing
            } else {
                (self.reset(), Action::Write(self.cfgs[0].spec_as_byte()))
            },
            Event::Stream => (self, Action::Ready),
            Event::Written => if self.cfgs.len() == 0 {
                nothing
            } else {
                (self, Action::Delay(self.delays[current]))
            },
            Event::Elapsed => if self.cfgs.len() == 0 {
                nothing
            } else {
                (self, Action::Read)
            },
            Event::Received(buffer) => if self.cfgs.len() == 0 {
                nothing
            } else {
                match spec_convert::<BusError>(buffer@) {
                    Ok(value) => if current + 1 < self.cfgs.len() {
                        (
                            MultiShotView { collected: self.collected.push(value), ..self },
                            Action::Write(self.cfgs[current + 1].spec_as_byte()),
                        )
                    } else {
                        (self.reset(), Action::Return(Ok(self.collected.push(value))))
                    },
                    Err(error) => (self.reset(), Action::Return(Err(error))),
                }
            },
            Event::Failed(cause) => (self.reset(), Action::Return(Err(Error::BusError(cause)))),
        }
    }
}

/// The values that a run of buffers decodes to, in order, or the error of
/// the first buffer that does not decode to a value.
pub open spec fn spec_convert_all<BusError>(buffers: Seq<[u8; 4]>) -> Result<
    Seq<Voltage>,
    Error<BusError>,
>
    decreases buffers.len(),
{
    if buffers.len() == 0 {
        Ok(Seq::empty())
    } else {
        match spec_convert_all::<BusError>(buffers.drop_last()) {
            Ok(values) => match spec_convert::<BusError>(buffers.last()@) {
                Ok(value) => Ok(values.push(value)),
                Err(error) => Err(error),
            },
            Err(error) => Err(error),
        }
    }
}

impl MultiShotView {
    /// The state and the answer of the machine after a measurement was
    /// asked for and the driver went through the conversions as far as the
    /// machine let it, with `buffers` as what the device returned, in order.
    /// The driver does what it is asked and reports it: after the answer
    /// `Write` it reports `Written`, `Elapsed` and `Received` with the next
    /// buffer, and after any other answer it is done.
    pub open spec fn run<BusError>(self, buffers: Seq<[u8; 4]>) -> (
        MultiShotView,
        Action<Seq<Voltage>, BusError>,
    )
        decreases buffers.len(),
    {
        if buffers.len() == 0 {
            self.step(Event::Measure)
        } else {
            let (started, action) = self.run::<BusError>(buffers.drop_last());
            match action {
                Action::Write(_) => {
                    let waiting = started.step::<BusError>(Event::Written).0;
                    let reading = waiting.step::<BusError>(Event::Elapsed).0;
                    reading.step(Event::Received(buffers.last()))
                },
                _ => (started, action),
            }
        }
    }

    /// The course of a measurement.
    ///
    /// The conversions run in order, each with its own register and its own
    /// time to wait: as long as every buffer decodes to a value, the answer
    /// to it is the start command of the conversion behind it, and that
    /// conversion waits its time and reads. The answer to the last buffer
    /// is the result with all values in the order of the conversions. The
    /// first buffer that does not decode ends the measurement with its
    /// error: no value is returned and no conversion behind it is started.
    /// Either way no measurement is under way afterwards.
    pub proof fn lemma_measurement<BusError>(self, buffers: Seq<[u8; 4]>)
        requires
            self.wf(),
            buffers.len() <= self.cfgs.len(),
            0 < self.cfgs.len(),
        ensures
            ({
                let next: int = buffers.len() as int;
                let (state, action) = self.run::<BusError>(buffers);
                match spec_convert_all::<BusError>(buffers) {
                    Ok(values) => {
                        &&& values.len() == buffers.len()
                        &&& next < self.cfgs.len() ==> {
                            &&& state == (MultiShotView { collected: values, ..self })
                            &&& action == Action::<Seq<Voltage>, BusError>::Write(
                                self.cfgs[next].spec_as_byte(),
                            )
                            &&& state.step::<BusError>(Event::Written) == (
                                state,
                                Action::<Seq<Voltage>, BusError>::Delay(self.delays[next]),
                            )
                            &&& state.step::<BusError>(Event::Elapsed) == (
                                state,
                                Action::<Seq<Voltage>, BusError>::Read,
                            )
                        }
                        &&& next == self.cfgs.len() ==> {
                            &&& state == self.reset()
                            &&& action == Action::<Seq<Voltage>, BusError>::Return(Ok(values))
                        }
                    },
                    Err(error) => {
                        &&& state == self.reset()
                        &&& action == Action::<Seq<Voltage>, BusError>::Return(Err(error))
                    },
                }
            }),
        decreases buffers.len(),
    {
        if buffers.len() == 0 {
            assert(self.reset().collected =~= Seq::<Voltage>::empty());
        } else {
            self.lemma_measurement::<BusError>(buffers.drop_last());
            let (started, _) = self.run::<BusError>(buffers.drop_last());
            let (state, _) = self.run::<BusError>(buffers);
            match spec_convert_all::<BusError>(buffers.drop_last()) {
                Ok(values) => {
                    assert(started.collected =~= values);
                    match spec_convert::<BusError>(buffers.last()@) {
                        Ok(value) => {
                            if (buffers.len() as int) < self.cfgs.len() {
                                assert(state.collected =~= values.push(value));
                            }
                        },
                        Err(_) => {},
                    }
                },
                Err(_) => {},
            }
        }
    }

    /// A mode without conversions has nothing to ask of the device: a
    /// measurement returns the empty result at once.
    pub proof fn lemma_nothing_to_measure<BusError>(self)
        requires
            self.wf(),
            self.cfgs.len() == 0,
        ensures
            self.step::<BusError>(Event::Measure) == (
                self,
                Action::<Seq<Voltage>, BusError>::Return(Ok(Seq::empty())),
            ),
    {
        assert(self.collected =~= Seq::<Voltage>::empty());
    }

    /// A failure of the bus ends the measurement with the cause of the
    /// failure. No value is returned and no conversion is started.
    pub proof fn lemma_failure<BusError>(self, cause: BusError)
        ensures
            self.step(Event::Failed(cause)) == (
                self.reset(),
                Action::<Seq<Voltage>, BusError>::Return(Err(Error::BusError(cause))),
            ),
    {
    }

    /// Whatever a measurement returned, the next one starts from the first
    /// conversion: a result or an error leaves no measurement under way,
    /// and asking for a measurement gives up the one under way.
    pub proof fn lemma_restart<BusError>(self, event: Event<BusError>)
        requires
            self.wf(),
            0 < self.cfgs.len(),
        ensures
            self.step(event).1 is Return ==> self.step(event).0 == self.reset(),
            self.step::<BusError>(Event::Measure) == (
                self.reset(),
                Action::<Seq<Voltage>, BusError>::Write(self.cfgs[0].spec_as_byte()),
            ),
            self.step::<BusError>(Event::Poll) == self.step::<BusError>(Event::Measure),
            self.step::<BusError>(Event::Stream) == (
                self,
                Action::<Seq<Voltage>, BusError>::Ready,
            ),
            self.step(event).1 is Ready <==> event is Stream,
    {
    }

    /// No event changes the registers or the times to wait, and a state
    /// that is well formed stays so.
    pub proof fn lemma_configuration_kept<BusError>(self, event: Event<BusError>)
        requires
            self.wf(),
        ensures
            self.step(event).0.cfgs == self.cfgs,
            self.step(event).0.delays == self.delays,
            self.step(event).0.wf(),
    {
    }
}

/// An action with the values it returns taken as a sequence.
pub open spec fn spec_action<const N: usize, BusError>(
    action: Action<[Voltage; N], BusError>,
) -> Action<Seq<Voltage>, BusError> {
    match action {
        Action::Write(byte) => Action::Write(byte),
        Action::Delay(micros) => Action::Delay(micros),
        Action::Read => Action::Read,
        Action::Ready => Action::Ready,
        Action::Return(Ok(values)) => Action::Return(Ok(values@)),
        Action::Return(Err(error)) => Action::Return(Err(error)),
    }
}

impl<const N: usize> View for MultiShotMode<N> {
    type V = MultiShotView;

    closed spec fn view(&self) -> MultiShotView {
        MultiShotView {
            cfgs: self.cfgs@,
            delays: self.delays@,
            collected: self.values@.subrange(0, self.index as int),
        }
    }
}

impl<const N: usize> MultiShotMode<N> {
    #[verifier::type_invariant]
    closed spec fn inv(&self) -> bool {
        &&& self.index == 0 || self.index < N
        &&& forall|i: int|
            0 <= i < N ==> !(#[trigger] self.cfgs@[i]).ready && self.cfgs@[i].mode
                == cfg::Mode::OneShot
    }

    pub fn new(configurations: &[Configuration; N]) -> (mode: Self)
        ensures
            mode@ == MultiShotView::of(configurations@, N as nat),
            mode@.wf(),
    {
        let (cfgs, delays) = cfgs_and_delays(configurations);
        let mode = Self {
            cfgs,
            delays,
            index: 0,
            values: [Voltage { numerator: 0, denominator: 1 };N],
        };
        assert(mode@.collected =~= Seq::empty());
        mode
    }
}

impl<const N: usize> Mode for MultiShotMode<N> {

}

impl<I2c, BusError, Delay, const N: usize> MCP3424<I2c, BusError, Delay, MultiShotMode<N>> {
    /// Updates the driver's configuration with the first `N` of the given
    /// configurations. A measurement under way is given up. The
    /// configuration is applied to the device lazily on the next
    /// measurement.
    pub fn configure(&mut self, configurations: &[Configuration])
        requires
            configurations@.len() >= N,
        ensures
            final(self).mode@ == MultiShotView::of(configurations@, N as nat),
            final(self).mode@.wf(),
            final(self).same_device(*old(self)),
    {
        proof {
            use_type_invariant(&self.mode);
        }
        let (cfgs, delays) = cfgs_and_delays(configurations);
        self.mode.cfgs = cfgs;
        self.mode.delays = delays;
        self.reset();
    }

    /// Answers an event of the driver with what to do next.
    ///
    /// A measurement runs `Measure` and then `Written`, `Elapsed`,
    /// `Received` once for every conversion. Each round is answered with
    /// `Delay`, `Read` and the `Write` that starts the next conversion,
    /// until the last conversion or the first failure is answered with
    /// `Return`. A stream is open at once, and every poll of it is a
    /// measurement of its own.
    pub fn step(&mut self, event: Event<BusError>) -> (action: Action<[Voltage; N], BusError>)
        ensures
            (final(self).mode@, spec_action(action)) == old(self).mode@.step(event),
            final(self).mode@.wf(),
            final(self).same_device(*old(self)),
    {
        proof {
            use_type_invariant(&self.mode);
            assert(self.mode@.collected.len() == self.mode.index);
        }
        let ghost before = self.mode@;
        assert(N == 0 ==> self.mode.values@ =~= Seq::empty());
        match event {
            Event::Measure | Event::Poll => {
                if N == 0 {
                    self.complete()
                } else {
                    self.reset();
                    Action::Write(self.mode.cfgs[0].as_byte())
                }
            },
            Event::Stream => Action::Ready,
            Event::Written => {
                if N == 0 {
                    self.complete()
                } else {
                    Action::Delay(self.mode.delays[self.mode.index])
                }
            },
            Event::Elapsed => {
                if N == 0 {
                    self.complete()
                } else {
                    Action::Read
                }
            },
            Event::Received(buffer) => {
                if N == 0 {
                    self.complete()
                } else {
                    match Self::convert(&buffer) {
                        Ok(value) => {
                            let current: usize = self.mode.index;
                            self.mode.values[current] = value;
                            assert(self.mode.values@.subrange(0, current as int + 1)
                                =~= before.collected.push(value));
                            if current + 1 < N {
                                self.mode.index = current + 1;
                                Action::Write(self.mode.cfgs[current + 1].as_byte())
                            } else {
                                assert(self.mode.values@ =~= before.collected.push(value));
                                self.complete()
                            }
                        },
                        Err(error) => {
                            self.reset();
                            Action::Return(Err(error))
                        },
                    }
                }
            },
            Event::Failed(cause) => {
                self.reset();
                Action::Return(Err(Error::BusError(cause)))
            },
        }
    }

    /// Gives up the measurement under way.
    fn reset(&mut self)
        ensures
            final(self).mode@ == old(self).mode@.reset(),
            final(self).mode.values == old(self).mode.values,
            final(self).same_device(*old(self)),
    {
        proof {
            use_type_invariant(&self.mode);
        }
        self.mode.index = 0;
        assert(self.mode@.collected =~= Seq::empty());
    }

    /// Ends the measurement under way with the values as they stand.
    fn complete(&mut self) -> (action: Action<[Voltage; N], BusError>)
        ensures
            final(self).mode@ == old(self).mode@.reset(),
            action == Action::<[Voltage; N], BusError>::Return(Ok(old(self).mode.values)),
            final(self).same_device(*old(self)),
    {
        self.reset();
        Action::Return(Ok(self.mode.values))
    }
}

/// Derives the register and the time to wait of each conversion from its
/// configuration.
pub fn cfgs_and_delays<const N: usize>(configurations: &[Configuration]) -> (out: (
    [Cfg; N],
    [u32; N],
))
    requires
        configurations@.len() >= N,
    ensures
        out.0@ == MultiShotView::of(configurations@, N as nat).cfgs,
        out.1@ == MultiShotView::of(configurations@, N as nat).delays,
{
    let mut cfgs = [Cfg::default();N];
    let mut delays = [0u32;N];
    let mut i: usize = 0;
    while i < N
        invariant
            i <= N <= configurations@.len(),
            forall|j: int| 0 <= j < i ==> cfgs@[j] == oneshot::spec_cfg(configurations@[j]),
            forall|j: int|
                0 <= j < i ==> delays@[j] == configurations@[j].spec_conversion_time_us(),
        decreases N - i,
    {
        cfgs[i] = oneshot::cfg(&configurations[i], cfgs[i]);
        delays[i] = configurations[i].conversion_time_us();
        i = i + 1;
    }
    (cfgs, delays)
}

} // verus!
