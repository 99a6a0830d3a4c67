use std::collections::VecDeque;
use std::marker::PhantomData;
use vstd::prelude::*;

use crate::parser::WebsocketParser;
use crate::transformer::{Transformer, TransformerBatch};

verus! {

/// What one poll of a stream gives.
#[derive(Debug, PartialEq, Eq)]
pub enum StreamPoll<T> {
    /// The next item.
    Ready(T),
    /// No item now: every frame handed in so far has been used up.
    Pending,
    /// The raw stream has ended and every item has been given out.
    Exhausted,
}

/// All the sequences of `parts`, one after another.
pub open spec fn flatten<X>(parts: Seq<Seq<X>>) -> Seq<X>
    decreases parts.len(),
{
    if parts.len() == 0 {
        seq![]
    } else {
        flatten(parts.drop_last()) + parts.last()
    }
}

/// Appends the items of `items`, in order, to `out`.
pub(crate) fn append_vec<X>(out: &mut VecDeque<X>, items: Vec<X>)
    ensures
        final(out)@ == old(out)@ + items@,
{
    let ghost all = items@;
    let mut items = items;
    let mut reversed: Vec<X> = Vec::new();
    while items.len() > 0
        invariant
            all.len() == items@.len() + reversed@.len(),
            forall|i: int| 0 <= i < items@.len() ==> #[trigger] items@[i] == all[i],
            forall|i: int|
                0 <= i < reversed@.len() ==> #[trigger] reversed@[i] == all[all.len() - 1 - i],
        decreases items@.len(),
    {
        let item = items.pop().unwrap();
        reversed.push(item);
    }
    let ghost start = out@;
    while reversed.len() > 0
        invariant
            out@.len() + reversed@.len() == start.len() + all.len(),
            out@.len() >= start.len(),
            forall|i: int| 0 <= i < start.len() ==> #[trigger] out@[i] == start[i],
            forall|i: int| start.len() <= i < out@.len() ==> #[trigger] out@[i] == all[i - start.len()],
            forall|i: int|
                0 <= i < reversed@.len() ==> #[trigger] reversed@[i] == all[all.len() - 1 - i],
        decreases reversed@.len(),
    {
        let item = reversed.pop().unwrap();
        out.push_back(item);
    }
    assert(out@ =~= start + all);
}

/// Drains one connection's raw frames through a parser and a transformer,
/// holding the results of one frame in a buffer and giving them out one at a
/// time, oldest first, before it takes the next frame.
///
/// Frames are handed in with `push_frame` as the transport delivers them, and
/// `end_of_stream` records that the connection has closed.
pub struct ExchangeStream<Protocol, StTransformer> where
    StTransformer: TransformerBatch,
    Protocol: WebsocketParser<StTransformer::Input, StTransformer::Error>,
 {
    /// Frames handed in and not yet taken, oldest first.
    pub stream: VecDeque<Result<Protocol::Message, Protocol::Error>>,
    /// Whether the raw stream has ended.
    pub stream_ended: bool,
    pub transformer: StTransformer,
    /// Results made from the last frame taken and not yet given out.
    pub buffer: VecDeque<Result<StTransformer::OutputItem, StTransformer::Error>>,
    pub protocol_marker: PhantomData<Protocol>,
    /// The transformer as it was before the first frame.
    pub initial: Ghost<StTransformer>,
    /// Every frame handed in so far.
    pub arrived: Ghost<Seq<Result<Protocol::Message, Protocol::Error>>>,
    /// How many of the frames handed in have been taken.
    pub taken: Ghost<nat>,
    /// Every result given out so far.
    pub emitted: Ghost<Seq<Result<StTransformer::OutputItem, StTransformer::Error>>>,
}

impl<Protocol, StTransformer> ExchangeStream<Protocol, StTransformer> where
    StTransformer: TransformerBatch,
    Protocol: WebsocketParser<StTransformer::Input, StTransformer::Error>,
 {
    /// What one frame yields, the transformer being `t`: nothing where the
    /// parser skips it, the parse error where it fails, and otherwise what the
    /// transformer makes of the message.
    pub open spec fn frame_results(
        t: StTransformer,
        frame: Result<Protocol::Message, Protocol::Error>,
    ) -> Seq<Result<StTransformer::OutputItem, StTransformer::Error>> {
        match Protocol::parse_spec(frame) {
            None => seq![],
            Some(Err(e)) => seq![Err(e)],
            Some(Ok(m)) => t.transform_spec(m),
        }
    }

    /// The transformer, starting as `t0`, once `frames` have gone through it;
    /// only the frames that parse to a message reach it.
    pub open spec fn state_after(
        t0: StTransformer,
        frames: Seq<Result<Protocol::Message, Protocol::Error>>,
    ) -> StTransformer
        decreases frames.len(),
    {
        if frames.len() == 0 {
            t0
        } else {
            let t = Self::state_after(t0, frames.drop_last());
            match Protocol::parse_spec(frames.last()) {
                Some(Ok(m)) => t.next_spec(m),
                _ => t,
            }
        }
    }

    /// The results of `frames`, frame by frame in arrival order, the
    /// transformer starting as `t0`.
    pub open spec fn outputs_of(
        t0: StTransformer,
        frames: Seq<Result<Protocol::Message, Protocol::Error>>,
    ) -> Seq<Result<StTransformer::OutputItem, StTransformer::Error>>
        decreases frames.len(),
    {
        if frames.len() == 0 {
            seq![]
        } else {
            Self::outputs_of(t0, frames.drop_last()) + Self::frame_results(
                Self::state_after(t0, frames.drop_last()),
                frames.last(),
            )
        }
    }

    /// The frames taken so far.
    pub open spec fn taken_frames(&self) -> Seq<Result<Protocol::Message, Protocol::Error>> {
        self.arrived@.take(self.taken@ as int)
    }

    pub open spec fn wf(&self) -> bool {
        &&& self.taken@ <= self.arrived@.len()
        &&& self.stream@ == self.arrived@.subrange(self.taken@ as int, self.arrived@.len() as int)
        &&& self.transformer == Self::state_after(self.initial@, self.taken_frames())
        &&& self.emitted@ + self.buffer@ == Self::outputs_of(self.initial@, self.taken_frames())
    }

    pub fn new(transformer: StTransformer) -> (r: Self)
        ensures
            r.wf(),
            r.transformer == transformer,
            r.initial@ == transformer,
            r.arrived@.len() == 0,
            r.emitted@.len() == 0,
            r.buffer@.len() == 0,
            !r.stream_ended,
    {
        let ghost t0 = transformer;
        let r = ExchangeStream {
            stream: VecDeque::new(),
            stream_ended: false,
            transformer,
            buffer: VecDeque::new(),
            protocol_marker: PhantomData,
            initial: Ghost(t0),
            arrived: Ghost(Seq::empty()),
            taken: Ghost(0),
            emitted: Ghost(Seq::empty()),
        };
        assert(r.taken_frames() =~= Seq::empty());
        assert(r.stream@ =~= r.arrived@.subrange(0, 0));
        assert(r.emitted@ + r.buffer@ =~= seq![]);
        r
    }

    /// Hands in the next frame that the transport delivered.
    pub fn push_frame(&mut self, frame: Result<Protocol::Message, Protocol::Error>)
        requires
            old(self).wf(),
        ensures
            final(self).wf(),
            final(self).arrived@ == old(self).arrived@.push(frame),
            final(self).initial == old(self).initial,
            final(self).taken == old(self).taken,
            final(self).transformer == old(self).transformer,
            final(self).emitted == old(self).emitted,
            final(self).buffer == old(self).buffer,
            final(self).stream_ended == old(self).stream_ended,
    {
        let ghost before = self.taken_frames();
        self.stream.push_back(frame);
        self.arrived = Ghost(self.arrived@.push(frame));
        assert(self.taken_frames() =~= before);
        assert(self.stream@ =~= self.arrived@.subrange(
            self.taken@ as int,
            self.arrived@.len() as int,
        ));
    }

    /// Records that the raw stream has ended: once its frames are used up the
    /// stream is exhausted.
    pub fn end_of_stream(&mut self)
        requires
            old(self).wf(),
        ensures
            final(self).wf(),
            final(self).stream_ended,
            final(self).stream == old(self).stream,
            final(self).buffer == old(self).buffer,
            final(self).transformer == old(self).transformer,
            final(self).initial == old(self).initial,
            final(self).arrived == old(self).arrived,
            final(self).taken == old(self).taken,
            final(self).emitted == old(self).emitted,
    {
        self.stream_ended = true;
    }

    /// Gives out the oldest buffered result; with an empty buffer, takes frames
    /// until one yields results: a frame the parser skips yields none, a parse
    /// error yields itself, a message yields what the transformer makes of it.
    pub fn poll_next(&mut self) -> (r: StreamPoll<Result<StTransformer::OutputItem, StTransformer::Error>>)
        requires
            old(self).wf(),
        ensures
            final(self).wf(),
            final(self).initial == old(self).initial,
            final(self).arrived == old(self).arrived,
            final(self).stream_ended == old(self).stream_ended,
            old(self).buffer@.len() > 0 ==> {
                &&& r == StreamPoll::Ready(old(self).buffer@[0])
                &&& final(self).buffer@ == old(self).buffer@.drop_first()
                &&& final(self).transformer == old(self).transformer
                &&& final(self).taken == old(self).taken
                &&& final(self).stream == old(self).stream
            },
            old(self).taken@ <= final(self).taken@,
            final(self).taken@ > old(self).taken@ ==> {
                &&& old(self).buffer@.len() == 0
                &&& Self::outputs_of(
                    old(self).initial@,
                    old(self).arrived@.take(final(self).taken@ - 1),
                ) == old(self).emitted@
            },
            match r {
                StreamPoll::Ready(item) => final(self).emitted@ == old(self).emitted@.push(item),
                StreamPoll::Pending => {
                    &&& final(self).emitted == old(self).emitted
                    &&& !final(self).stream_ended
                    &&& final(self).taken@ == final(self).arrived@.len()
                    &&& final(self).buffer@.len() == 0
                },
                StreamPoll::Exhausted => {
                    &&& final(self).emitted == old(self).emitted
                    &&& final(self).stream_ended
                    &&& final(self).taken@ == final(self).arrived@.len()
                    &&& final(self).buffer@.len() == 0
                },
            },
    {
        while self.buffer.len() == 0 && self.stream.len() > 0
            invariant
                self.wf(),
                self.initial == old(self).initial,
                self.arrived == old(self).arrived,
                self.stream_ended == old(self).stream_ended,
                self.emitted == old(self).emitted,
                old(self).taken@ <= self.taken@,
                old(self).buffer@.len() > 0 ==> self.buffer == old(self).buffer && self.taken
                    == old(self).taken && self.transformer == old(self).transformer && self.stream
                    == old(self).stream,
                self.taken@ > old(self).taken@ ==> {
                    &&& old(self).buffer@.len() == 0
                    &&& Self::outputs_of(self.initial@, self.arrived@.take(self.taken@ - 1))
                        == old(self).emitted@
                },
            decreases self.stream@.len(),
        {
            let ghost k = self.taken@;
            let ghost before = self.taken_frames();
            let ghost t_before = self.transformer;
            let frame = self.stream.pop_front().unwrap();
            let ghost g_frame = frame;
            assert(g_frame == self.arrived@[k as int]);
            match Protocol::parse(frame) {
                None => {},
                Some(Err(error)) => {
                    self.buffer.push_back(Err(error));
                },
                Some(Ok(message)) => {
                    let results = self.transformer.transform_many(message);
                    append_vec(&mut self.buffer, results);
                },
            }
            self.taken = Ghost(k + 1);
            proof {
                let now = self.taken_frames();
                assert(now.drop_last() =~= before);
                assert(now.last() == g_frame);
                assert(before =~= self.arrived@.take(self.taken@ - 1));
                assert(self.buffer@ =~= Self::frame_results(t_before, g_frame));
                assert(self.emitted@ + self.buffer@ =~= Self::outputs_of(self.initial@, now));
                assert(self.stream@ =~= self.arrived@.subrange(
                    self.taken@ as int,
                    self.arrived@.len() as int,
                ));
            }
        }
        let ghost full_buffer = self.buffer@;
        match self.buffer.pop_front() {
            Some(item) => {
                let ghost prev = self.emitted@;
                self.emitted = Ghost(self.emitted@.push(item));
                assert(self.emitted@ + self.buffer@ =~= prev + full_buffer);
                StreamPoll::Ready(item)
            },
            None => {
                if self.stream_ended {
                    StreamPoll::Exhausted
                } else {
                    StreamPoll::Pending
                }
            },
        }
    }
}

/// Everything given out, followed by what waits in the buffer, is the
/// concatenation, frame by frame in arrival order, of what each taken frame
/// yields: the transformer's results on the parsed message, the parse error,
/// or nothing for a skipped frame. Once every frame is taken and the buffer is
/// empty, what was given out is exactly that concatenation over every frame.
pub proof fn lemma_exchange_stream_order<Protocol, StTransformer>(
    s: &ExchangeStream<Protocol, StTransformer>,
) where
    StTransformer: TransformerBatch,
    Protocol: WebsocketParser<StTransformer::Input, StTransformer::Error>,

    requires
        s.wf(),
    ensures
        s.emitted@ + s.buffer@ == ExchangeStream::<Protocol, StTransformer>::outputs_of(
            s.initial@,
            s.arrived@.take(s.taken@ as int),
        ),
        s.buffer@.len() == 0 && s.stream@.len() == 0 ==> s.emitted@
            == ExchangeStream::<Protocol, StTransformer>::outputs_of(s.initial@, s.arrived@),
{
    if s.buffer@.len() == 0 && s.stream@.len() == 0 {
        assert(s.emitted@ + s.buffer@ =~= s.emitted@);
        assert(s.arrived@.take(s.taken@ as int) =~= s.arrived@);
    }
}

} // verus!
