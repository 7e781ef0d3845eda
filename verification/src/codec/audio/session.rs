//! What holds of a transcoder over its whole life.
//!
//! A session is a sequence of commands: pushes, flushes, takes, and events
//! that the caller reports. This module says what a state becomes under
//! such a sequence, what the sequence sends to the encoder, what it puts
//! out and what it hands to the caller, and proves what holds of these
//! whatever the commands are.

use vstd::prelude::*;
use crate::codec::ErrorKind;
use crate::codec::audio::pipeline::ActionView;
use crate::codec::audio::pipeline::Call;
use crate::codec::audio::pipeline::EventView;
use crate::codec::audio::pipeline::Mode;
use crate::codec::audio::pipeline::State;
use crate::codec::audio::pipeline::output;
use crate::codec::audio::pipeline::stamp;
use crate::packet::PacketView;
use crate::time::lemma_micros_is_ordered;
use crate::time::lemma_micros_of_zero;
use crate::time::micros;
use vstd::arithmetic::div_mod::lemma_div_is_ordered;
use vstd::arithmetic::div_mod::lemma_div_multiples_vanish;

verus! {

/// What a caller can do with a transcoder.
pub enum Command {
    /// Push a packet.
    Push,
    /// Flush.
    Flush,
    /// Take a packet.
    Take,
    /// Report what came of a call.
    Resume(EventView),
}

impl State {
    /// The state after `command`. An event that is not accepted changes
    /// nothing.
    pub open spec fn apply(self, command: Command) -> State {
        match command {
            Command::Push => self.push().0,
            Command::Flush => self.flush().0,
            Command::Take => self.take().0,
            Command::Resume(event) => if self.accepts(event) {
                self.resume(event).0
            } else {
                self
            },
        }
    }

    /// The number of samples of the frame that `command` sends to the
    /// encoder, if it sends one: the command reports that the encoder took
    /// the frame that it was asked to take.
    pub open spec fn forwards(self, command: Command) -> Seq<nat> {
        match (self.mode, command) {
            (
                Mode::Running { routine: _, call: Call::EncoderPush(frame) },
                Command::Resume(EventView::Accepted),
            ) => seq![frame.samples as nat],
            _ => Seq::empty(),
        }
    }

    /// The packet that `command` brings from the encoder, if it brings one
    /// that is accepted.
    pub open spec fn encodes(self, command: Command) -> Seq<PacketView> {
        match command {
            Command::Resume(EventView::Packet(Some(packet))) => if self.accepts(
                EventView::Packet(Some(packet)),
            ) {
                seq![packet]
            } else {
                Seq::empty()
            },
            _ => Seq::empty(),
        }
    }

    /// The packet that `command` puts out, if it puts one out.
    pub open spec fn emits(self, command: Command) -> Seq<PacketView> {
        match command {
            Command::Resume(EventView::Packet(Some(packet))) => if self.accepts(
                EventView::Packet(Some(packet)),
            ) {
                seq![output(packet, self.rate())]
            } else {
                Seq::empty()
            },
            _ => Seq::empty(),
        }
    }

    /// The packet that `command` hands to the caller, if it hands one over.
    pub open spec fn hands_over(self, command: Command) -> Seq<PacketView> {
        match command {
            Command::Take => match self.take().1 {
                Some(packet) => seq![packet],
                None => Seq::empty(),
            },
            _ => Seq::empty(),
        }
    }
}

/// The state after all of `commands`, in their order.
pub open spec fn run(state: State, commands: Seq<Command>) -> State
    decreases commands.len(),
{
    if commands.len() == 0 {
        state
    } else {
        run(state, commands.drop_last()).apply(commands.last())
    }
}

/// The sum of `sizes`.
pub open spec fn total(sizes: Seq<nat>) -> nat
    decreases sizes.len(),
{
    if sizes.len() == 0 {
        0
    } else {
        total(sizes.drop_last()) + sizes.last()
    }
}

/// The sizes of the frames that `commands` send to the encoder, in samples
/// and in the order in which the frames go.
pub open spec fn frames(state: State, commands: Seq<Command>) -> Seq<nat>
    decreases commands.len(),
{
    if commands.len() == 0 {
        Seq::empty()
    } else {
        frames(state, commands.drop_last()) + run(state, commands.drop_last()).forwards(
            commands.last(),
        )
    }
}

/// The number of samples that `commands` send to the encoder.
pub open spec fn forwarded(state: State, commands: Seq<Command>) -> nat {
    total(frames(state, commands))
}

/// The packets that `commands` bring from the encoder, in the order in which
/// they come.
pub open spec fn encoded(state: State, commands: Seq<Command>) -> Seq<PacketView>
    decreases commands.len(),
{
    if commands.len() == 0 {
        Seq::empty()
    } else {
        encoded(state, commands.drop_last()) + run(state, commands.drop_last()).encodes(
            commands.last(),
        )
    }
}

/// What goes out for `packets` of an encoder that counts time in samples at
/// `rate` samples per second.
pub open spec fn outputs(packets: Seq<PacketView>, rate: int) -> Seq<PacketView> {
    Seq::new(packets.len(), |i: int| output(packets[i], rate))
}

/// The presentation timestamps of `packets`.
pub open spec fn timestamps(packets: Seq<PacketView>) -> Seq<int> {
    Seq::new(packets.len(), |i: int| packets[i].pts)
}

/// The packets that `commands` put out, in the order in which they go out.
pub open spec fn emitted(state: State, commands: Seq<Command>) -> Seq<PacketView>
    decreases commands.len(),
{
    if commands.len() == 0 {
        Seq::empty()
    } else {
        emitted(state, commands.drop_last()) + run(state, commands.drop_last()).emits(
            commands.last(),
        )
    }
}

/// The packets that `commands` hand to the caller, in the order in which
/// they are taken.
pub open spec fn taken(state: State, commands: Seq<Command>) -> Seq<PacketView>
    decreases commands.len(),
{
    if commands.len() == 0 {
        Seq::empty()
    } else {
        taken(state, commands.drop_last()) + run(state, commands.drop_last()).hands_over(
            commands.last(),
        )
    }
}

/// Whether no element of `values` is smaller than one before it.
pub open spec fn non_decreasing(values: Seq<int>) -> bool {
    forall|i: int, j: int| 0 <= i <= j < values.len() ==> values[i] <= values[j]
}

/// A session keeps the transcoder well formed, and never changes what it
/// was made with.
pub proof fn lemma_run_keeps_wf(state: State, commands: Seq<Command>)
    requires
        state.wf(),
    ensures
        run(state, commands).wf(),
        run(state, commands).source == state.source,
        run(state, commands).target == state.target,
        run(state, commands).parameters == state.parameters,
    decreases commands.len(),
{
    if commands.len() > 0 {
        lemma_run_keeps_wf(state, commands.drop_last());
    }
}

/// The sum of sizes with one more is the sum without it and that one.
pub proof fn lemma_total_of_one_more(sizes: Seq<nat>, more: Seq<nat>)
    requires
        more.len() <= 1,
    ensures
        total(sizes + more) == total(sizes) + (if more.len() == 1 {
            more[0]
        } else {
            0
        }),
{
    if more.len() == 1 {
        assert((sizes + more).drop_last() =~= sizes);
    } else {
        assert(sizes + more =~= sizes);
    }
}

/// Over a whole session the number of samples that the transcoder has
/// counted grows by exactly the samples of the frames that the encoder
/// took, whether the encoder made packets of them or not, and so never
/// decreases.
pub proof fn lemma_counter_follows_encoder(state: State, commands: Seq<Command>)
    requires
        state.wf(),
    ensures
        run(state, commands).samples == state.samples + forwarded(state, commands),
        run(state, commands).samples >= state.samples,
    decreases commands.len(),
{
    if commands.len() > 0 {
        let before = commands.drop_last();
        lemma_counter_follows_encoder(state, before);
        lemma_run_keeps_wf(state, before);
        lemma_total_of_one_more(frames(state, before), run(state, before).forwards(commands.last()));
    }
}

/// One step counts the frame that the encoder took, and nothing else: the
/// number of samples grows by those of the frame when the encoder is
/// reported to have taken it, and stays as it is under every other command.
pub proof fn lemma_only_the_encoder_counts(state: State, command: Command)
    requires
        state.wf(),
    ensures
        state.apply(command).samples == state.samples + total(state.forwards(command)),
        state.mode matches Mode::Running { routine: _, call: Call::EncoderPush(frame) } ==> (
        command == Command::Resume(EventView::Accepted) ==> state.apply(command).samples
            == state.samples + frame.samples),
{
    lemma_total_of_one_more(Seq::empty(), state.forwards(command));
    assert(Seq::<nat>::empty() + state.forwards(command) =~= state.forwards(command));
}

/// A frame that is on its way to the encoder has the number of samples that
/// went there before it as its timestamp: the frames that the encoder sees
/// follow one another without a gap.
pub proof fn lemma_encoder_timeline_has_no_gap(state: State, commands: Seq<Command>)
    requires
        state.wf(),
    ensures
        run(state, commands).mode matches Mode::Running {
            routine: _,
            call: Call::EncoderPush(frame),
        } ==> {
            &&& frame.pts == stamp(state.samples + forwarded(state, commands))
            &&& state.samples + forwarded(state, commands) <= i64::MAX ==> frame.pts
                == state.samples + forwarded(state, commands)
        },
{
    lemma_run_keeps_wf(state, commands);
    lemma_counter_follows_encoder(state, commands);
}

/// No frame with a negative timestamp reaches the resampler. Whenever the
/// transcoder asks for a push to the resampler, the frame is the one that
/// the decoder just gave, and its timestamp is not negative; a frame of the
/// decoder with a negative timestamp only has the decoder asked for the
/// next.
pub proof fn lemma_padding_is_skipped(state: State, event: EventView)
    requires
        state.wf(),
        state.accepts(event),
    ensures
        state.resume(event).1 matches ActionView::Call(Call::ResamplerPush(frame)) ==> {
            &&& state.mode matches Mode::Running { routine: _, call: Call::DecoderTake }
            &&& event == EventView::Frame(Some(frame))
            &&& frame.pts >= 0
        },
        (state.mode matches Mode::Running { routine, call: Call::DecoderTake }
            && event matches EventView::Frame(Some(frame)) && frame.pts < 0) ==> state.resume(
            event,
        ) == state.ask(state.mode->routine, Call::DecoderTake),
{
}

/// At every point of a session, no frame with a negative timestamp is on
/// its way to the resampler.
pub proof fn lemma_resampler_sees_no_padding(state: State, commands: Seq<Command>)
    requires
        state.wf(),
    ensures
        run(state, commands).mode matches Mode::Running {
            routine: _,
            call: Call::ResamplerPush(frame),
        } ==> frame.pts >= 0,
{
    lemma_run_keeps_wf(state, commands);
}

/// The queue is first in, first out: what was taken in a session, followed
/// by what still waits, is what waited at the start followed by what the
/// session put out.
pub proof fn lemma_output_is_queued(state: State, commands: Seq<Command>)
    requires
        state.wf(),
    ensures
        taken(state, commands) + run(state, commands).ready == state.ready + emitted(
            state,
            commands,
        ),
    decreases commands.len(),
{
    if commands.len() == 0 {
        assert(taken(state, commands) + run(state, commands).ready =~= state.ready + emitted(
            state,
            commands,
        ));
    } else {
        let before = commands.drop_last();
        let last = commands.last();
        lemma_output_is_queued(state, before);
        lemma_run_keeps_wf(state, before);
        let at = run(state, before);
        assert(at.hands_over(last) + at.apply(last).ready =~= at.ready + at.emits(last));
        assert(taken(state, commands) + run(state, commands).ready =~= (taken(state, before)
            + at.ready) + at.emits(last));
        assert(state.ready + emitted(state, commands) =~= (state.ready + emitted(state, before))
            + at.emits(last));
    }
}

/// The packets that a session puts out are those that the encoder gave, in
/// the same order: each has the bytes of its packet, stands in stream 0, and
/// has both timestamps at the presentation timestamp of its packet in
/// microseconds. Packets only go out where the output has a sample rate.
pub proof fn lemma_output_follows_encoder(state: State, commands: Seq<Command>)
    requires
        state.wf(),
    ensures
        emitted(state, commands) == outputs(encoded(state, commands), state.rate()),
        emitted(state, commands).len() == encoded(state, commands).len(),
        forall|i: int|
            0 <= i < emitted(state, commands).len() ==> {
                &&& (#[trigger] emitted(state, commands)[i]).data == encoded(
                    state,
                    commands,
                )[i].data
                &&& emitted(state, commands)[i].pts == micros(
                    encoded(state, commands)[i].pts,
                    state.rate(),
                )
                &&& emitted(state, commands)[i].dts == emitted(state, commands)[i].pts
                &&& emitted(state, commands)[i].stream_index == 0
            },
        emitted(state, commands).len() > 0 ==> state.rate() > 0,
    decreases commands.len(),
{
    if commands.len() > 0 {
        let before = commands.drop_last();
        lemma_output_follows_encoder(state, before);
        lemma_run_keeps_wf(state, before);
    }
    assert(emitted(state, commands) =~= outputs(encoded(state, commands), state.rate()));
}

/// Where the encoder gives its packets in the order of their timestamps,
/// the timestamps of the output never decrease. A packet that the encoder
/// gave at a timestamp that is not negative goes out at one that is not
/// negative, and a packet that it gave at 0 goes out at 0.
pub proof fn lemma_output_timeline_is_ordered(state: State, commands: Seq<Command>)
    requires
        state.wf(),
        non_decreasing(timestamps(encoded(state, commands))),
    ensures
        non_decreasing(timestamps(emitted(state, commands))),
        forall|i: int|
            0 <= i < emitted(state, commands).len() ==> {
                &&& encoded(state, commands)[i].pts >= 0 ==> (#[trigger] emitted(
                    state,
                    commands,
                )[i]).pts >= 0
                &&& encoded(state, commands)[i].pts == 0 ==> emitted(state, commands)[i].pts == 0
            },
        encoded(state, commands).len() > 0 && encoded(state, commands)[0].pts >= 0 ==> forall|
            i: int,
        | 0 <= i < emitted(state, commands).len() ==> (#[trigger] emitted(state, commands)[i]).pts
            >= 0,
{
    lemma_output_follows_encoder(state, commands);
    let given = encoded(state, commands);
    let out = emitted(state, commands);
    let pts = timestamps(given);
    assert forall|i: int, j: int| 0 <= i <= j < out.len() implies timestamps(out)[i]
        <= timestamps(out)[j] by {
        assert(pts[i] <= pts[j]);
        lemma_micros_is_ordered(given[i].pts, given[j].pts, state.rate());
    }
    assert forall|i: int| 0 <= i < out.len() implies {
        &&& given[i].pts >= 0 ==> (#[trigger] out[i]).pts >= 0
        &&& given[i].pts == 0 ==> out[i].pts == 0
    } by {
        lemma_micros_is_ordered(given[i].pts, given[i].pts, state.rate());
        lemma_micros_of_zero(state.rate());
    }
    if given.len() > 0 && given[0].pts >= 0 {
        assert forall|i: int| 0 <= i < out.len() implies (#[trigger] out[i]).pts >= 0 by {
            assert(pts[0] <= pts[i]);
        }
    }
}

/// Whether `sizes` are those of frames of `size` samples, but for the last,
/// which may be shorter and is not empty.
pub open spec fn framed(sizes: Seq<nat>, size: nat) -> bool {
    &&& forall|i: int| 0 <= i < sizes.len() - 1 ==> sizes[i] == size
    &&& sizes.len() > 0 ==> 0 < sizes.last() <= size
}

/// The sum of the sizes of frames of one size, with a last that may be
/// shorter.
pub proof fn lemma_total_of_framed(sizes: Seq<nat>, size: nat)
    requires
        framed(sizes, size),
        sizes.len() > 0,
    ensures
        total(sizes) == (sizes.len() - 1) * size + sizes.last(),
    decreases sizes.len(),
{
    let rest = sizes.drop_last();
    if rest.len() == 0 {
        assert(total(rest) == 0);
    } else {
        assert(rest.last() == sizes[sizes.len() - 2]);
        assert(rest.last() == size);
        assert(framed(rest, size));
        lemma_total_of_framed(rest, size);
        assert((rest.len() - 1) * size + size == (sizes.len() - 1) * size) by (nonlinear_arith)
            requires
                rest.len() == sizes.len() - 1,
        ;
    }
}

/// The number of packets against the number of samples. Take a session that
/// starts and ends with nothing waiting, in which the encoder got frames of
/// `size` samples, but for a last that may be shorter, and gave one packet
/// for each frame. Then the caller took as many packets as the samples that
/// went to the encoder fill frames, or one more for the last, shorter frame;
/// and those samples are what the transcoder counted.
pub proof fn lemma_packets_for_samples(state: State, commands: Seq<Command>, size: nat)
    requires
        state.wf(),
        state.ready.len() == 0,
        run(state, commands).ready.len() == 0,
        size > 0,
        framed(frames(state, commands), size),
        encoded(state, commands).len() == frames(state, commands).len(),
    ensures
        taken(state, commands) == emitted(state, commands),
        forwarded(state, commands) / size <= taken(state, commands).len() <= forwarded(
            state,
            commands,
        ) / size + 1,
        run(state, commands).samples == state.samples + forwarded(state, commands),
{
    lemma_output_is_queued(state, commands);
    lemma_output_follows_encoder(state, commands);
    lemma_counter_follows_encoder(state, commands);
    assert(taken(state, commands) =~= taken(state, commands) + run(state, commands).ready);
    assert(emitted(state, commands) =~= state.ready + emitted(state, commands));
    let sizes = frames(state, commands);
    let count = sizes.len() as int;
    let samples = forwarded(state, commands) as int;
    let size = size as int;
    if count == 0 {
        assert(samples == 0);
        assert(0int / size == 0) by {
            lemma_div_multiples_vanish(0, size);
        }
    } else {
        lemma_total_of_framed(sizes, size as nat);
        let full = (count - 1) * size;
        assert(samples == full + sizes.last());
        assert(count * size == full + size) by (nonlinear_arith)
            requires
                full == (count - 1) * size,
        ;
        assert(full == size * (count - 1)) by (nonlinear_arith)
            requires
                full == (count - 1) * size,
        ;
        assert(count * size == size * count) by (nonlinear_arith);
        lemma_div_multiples_vanish(count - 1, size);
        lemma_div_multiples_vanish(count, size);
        lemma_div_is_ordered(full, samples, size);
        lemma_div_is_ordered(samples, count * size, size);
    }
}

/// The state after `count` packets were taken, one after the other.
pub open spec fn drain(state: State, count: nat) -> State
    decreases count,
{
    if count == 0 {
        state
    } else {
        drain(state, (count - 1) as nat).take().0
    }
}

/// Taking from an empty queue gives nothing and changes nothing, however
/// often it is done.
pub proof fn lemma_take_of_nothing(state: State, count: nat)
    requires
        state.ready.len() == 0,
    ensures
        drain(state, count) == state,
        drain(state, count).take() == (state, None::<PacketView>),
    decreases count,
{
    if count > 0 {
        lemma_take_of_nothing(state, (count - 1) as nat);
    }
}

/// Taking hands the packets over in the order in which they wait, and
/// changes nothing else while packets are left.
pub proof fn lemma_take_in_order(state: State, count: nat)
    requires
        state.wf(),
        count <= state.ready.len(),
    ensures
        drain(state, count).wf(),
        drain(state, count).ready == state.ready.skip(count as int),
        drain(state, count).samples == state.samples,
        count < state.ready.len() ==> drain(state, count).mode == state.mode
            && drain(state, count).take().1 == Some(state.ready[count as int]),
    decreases count,
{
    if count > 0 {
        lemma_take_in_order(state, (count - 1) as nat);
        let at = drain(state, (count - 1) as nat);
        assert(at.ready.drop_first() =~= state.ready.skip(count as int));
    } else {
        assert(state.ready.skip(0) =~= state.ready);
    }
}

/// Once all the output was taken, the transcoder is idle, and the next push
/// and the next flush are accepted.
pub proof fn lemma_drained_is_idle(state: State)
    requires
        state.wf(),
        state.mode is OutputPending,
    ensures
        drain(state, state.ready.len()).mode is Idle,
        drain(state, state.ready.len()).ready.len() == 0,
        drain(state, state.ready.len()).push().1 is Ok,
        drain(state, state.ready.len()).flush().1 is Ok,
{
    let last = (state.ready.len() - 1) as nat;
    lemma_take_in_order(state, last);
    lemma_take_in_order(state, state.ready.len());
}

/// While output waits, a push and a flush fail with an error of the kind
/// `Again` and change nothing. Both are taken exactly where the transcoder
/// is idle; it then holds no output, and holds none right after either.
pub proof fn lemma_output_goes_first(state: State)
    requires
        state.wf(),
    ensures
        state.ready.len() > 0 ==> {
            &&& state.push().0 == state
            &&& state.push().1 matches Err(error) && error.kind == ErrorKind::Again
            &&& state.flush().0 == state
            &&& state.flush().1 matches Err(error) && error.kind == ErrorKind::Again
        },
        state.push().1 is Ok <==> state.mode is Idle,
        state.flush().1 is Ok <==> state.mode is Idle,
        state.mode is Idle ==> state.ready.len() == 0,
        state.push().1 is Ok ==> state.push().0.ready.len() == 0,
        state.flush().1 is Ok ==> state.flush().0.ready.len() == 0,
{
}

} // verus!
