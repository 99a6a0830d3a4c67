use std::collections::VecDeque;
use vstd::prelude::*;

use crate::exchange_stream::append_vec;
use crate::backoff::{delay_after, sleeps_of, ReconnectionBackoffPolicy, ReconnectionState};

verus! {

/// One element of a reconnecting stream: either a marker that the connection
/// behind it ended and is being re-established, or an item of that connection.
#[derive(Debug, PartialEq, Eq)]
pub enum StreamEvent<Origin, T> {
    Reconnecting(Origin),
    Item(T),
}

/// Whether each attempt succeeded.
pub open spec fn outcomes<S, E>(attempts: Seq<Result<S, E>>) -> Seq<bool> {
    attempts.map_values(|a: Result<S, E>| a is Ok)
}

/// The connections that the successful attempts produced, in order.
pub open spec fn successes<S, E>(attempts: Seq<Result<S, E>>) -> Seq<S>
    decreases attempts.len(),
{
    if attempts.len() == 0 {
        seq![]
    } else {
        match attempts.last() {
            Ok(s) => successes(attempts.drop_last()).push(s),
            Err(_) => successes(attempts.drop_last()),
        }
    }
}

/// `kept` is what remains of `items` once the first error that `is_terminal`
/// marks has ended it: the items up to and including that error, or all of
/// them where no error is terminal.
pub open spec fn cut_at_terminal<T, E, F: Fn(&E) -> bool>(
    items: Seq<Result<T, E>>,
    kept: Seq<Result<T, E>>,
    is_terminal: F,
) -> bool {
    &&& kept.len() <= items.len()
    &&& kept == items.take(kept.len() as int)
    &&& forall|i: int|
        0 <= i < kept.len() - 1 && (#[trigger] items[i]) is Err ==> is_terminal.ensures(
            (&items[i]->Err_0,),
            false,
        )
    &&& kept.len() < items.len() ==> {
        &&& kept.len() > 0
        &&& items[kept.len() - 1] is Err
        &&& is_terminal.ensures((&items[kept.len() - 1]->Err_0,), true)
    }
}

/// A finite run of a stream's items, oldest first, on which the stages of a
/// reconnecting pipeline are applied one after another.
pub struct RecoverableStream<I> {
    pub items: VecDeque<I>,
}

impl<I> RecoverableStream<I> {
    pub open spec fn view(&self) -> Seq<I> {
        self.items@
    }

    pub fn new() -> (r: Self)
        ensures
            r@ == Seq::<I>::empty(),
    {
        RecoverableStream { items: VecDeque::new() }
    }

    /// Appends one item at the end of the run.
    pub fn push(&mut self, item: I)
        ensures
            final(self)@ == old(self)@.push(item),
    {
        self.items.push_back(item);
    }

    pub fn len(&self) -> (r: usize)
        ensures
            r == self@.len(),
    {
        self.items.len()
    }

    /// The items, oldest first.
    pub fn into_vec(self) -> (r: Vec<I>)
        ensures
            r@ == self@,
    {
        let ghost all = self@;
        let mut rest = self.items;
        let mut out: Vec<I> = Vec::new();
        while rest.len() > 0
            invariant
                all == out@ + rest@,
            decreases rest@.len(),
        {
            let item = rest.pop_front().unwrap();
            out.push(item);
        }
        out
    }
}

impl<S, E> RecoverableStream<Result<S, E>> {
    /// Goes through a run of connection attempts under `policy`: each success
    /// resets the delay and passes its connection on; each failure is dropped,
    /// and calls for a sleep of the current delay, which then grows. Returns the
    /// connections and the sleeps, in order.
    pub fn with_reconnect_backoff(self, policy: ReconnectionBackoffPolicy) -> (r: (
        RecoverableStream<S>,
        Vec<u64>,
    ))
        requires
            policy.wf(),
        ensures
            r.0@ == successes(self@),
            r.1@.map_values(|d: u64| d as int) == sleeps_of(policy, outcomes(self@)),
    {
        let ghost all = self@;
        let ghost mut done: Seq<Result<S, E>> = seq![];
        let mut rest = self.items;
        let mut streams: VecDeque<S> = VecDeque::new();
        let mut sleeps: Vec<u64> = Vec::new();
        let mut state = ReconnectionState::from(policy);
        while rest.len() > 0
            invariant
                all == done + rest@,
                state.wf(),
                state.policy == policy,
                state.backoff_ms_current == delay_after(policy, outcomes(done)),
                streams@ == successes(done),
                sleeps@.map_values(|d: u64| d as int) == sleeps_of(policy, outcomes(done)),
            decreases rest@.len(),
        {
            let attempt = rest.pop_front().unwrap();
            let ghost prev = done;
            proof {
                done = done.push(attempt);
                assert(done.drop_last() =~= prev);
                assert(outcomes(done).drop_last() =~= outcomes(prev));
            }
            let old_sleeps = Ghost(sleeps@);
            match attempt {
                Ok(stream) => {
                    state.record_attempt(true);
                    streams.push_back(stream);
                },
                Err(_) => {
                    let sleep = state.record_attempt(false);
                    sleeps.push(sleep.unwrap());
                    assert(sleeps@.map_values(|d: u64| d as int) =~= old_sleeps@.map_values(
                        |d: u64| d as int,
                    ).push(delay_after(policy, outcomes(prev))));
                },
            }
        }
        assert(done =~= all);
        (RecoverableStream { items: streams }, sleeps)
    }
}

/// Whether `item` ends its connection: it does exactly when it is an error
/// that `is_terminal` marks. The item itself is passed on either way.
pub fn ends_connection<T, E, F: Fn(&E) -> bool>(item: &Result<T, E>, is_terminal: &F) -> (r: bool)
    requires
        forall|e: &E| is_terminal.requires((e,)),
    ensures
        r ==> item is Err && is_terminal.ensures((&item->Err_0,), true),
        !r && item is Err ==> is_terminal.ensures((&item->Err_0,), false),
{
    match item {
        Ok(_) => false,
        Err(e) => is_terminal(e),
    }
}

/// Ends `items` at its first error that `is_terminal` marks; that error is the
/// last item kept. Errors that are not terminal pass through as they are.
pub fn truncate_at_terminal<T, E, F: Fn(&E) -> bool>(items: Vec<Result<T, E>>, is_terminal: &F) -> (r:
    Vec<Result<T, E>>)
    requires
        forall|e: &E| is_terminal.requires((e,)),
    ensures
        cut_at_terminal(items@, r@, *is_terminal),
{
    let n = items.len();
    let mut kept: usize = n;
    let mut found = false;
    let mut i: usize = 0;
    while i < n && !found
        invariant
            n == items@.len(),
            i <= n,
            forall|e: &E| is_terminal.requires((e,)),
            !found ==> kept == n,
            found ==> {
                &&& 0 < kept <= n
                &&& items@[kept - 1] is Err
                &&& is_terminal.ensures((&items@[kept - 1]->Err_0,), true)
            },
            forall|j: int|
                0 <= j < i && (#[trigger] items@[j]) is Err && !(found && j == kept - 1)
                    ==> is_terminal.ensures((&items@[j]->Err_0,), false),
            found ==> kept == i,
        decreases n - i,
    {
        let terminal = ends_connection(&items[i], is_terminal);
        if terminal {
            kept = i + 1;
            found = true;
        }
        i = i + 1;
    }
    let mut items = items;
    items.truncate(kept);
    items
}

impl<T, E> RecoverableStream<Vec<Result<T, E>>> {
    /// Ends each connection's items at its first terminal error, so that the
    /// connection is given up and a new one is made; the other errors stay in
    /// place as items.
    pub fn with_termination_on_error<F: Fn(&E) -> bool>(self, is_terminal: F) -> (r:
        RecoverableStream<Vec<Result<T, E>>>)
        requires
            forall|e: &E| is_terminal.requires((e,)),
        ensures
            r@.len() == self@.len(),
            forall|i: int|
                0 <= i < self@.len() ==> cut_at_terminal(self@[i]@, #[trigger] r@[i]@, is_terminal),
    {
        let ghost all = self@;
        let ghost mut done: int = 0;
        let mut rest = self.items;
        let mut out: VecDeque<Vec<Result<T, E>>> = VecDeque::new();
        while rest.len() > 0
            invariant
                0 <= done <= all.len(),
                rest@ == all.subrange(done, all.len() as int),
                out@.len() == done,
                forall|e: &E| is_terminal.requires((e,)),
                forall|i: int|
                    0 <= i < done ==> cut_at_terminal(all[i]@, #[trigger] out@[i]@, is_terminal),
            decreases rest@.len(),
        {
            let inner = rest.pop_front().unwrap();
            let kept = truncate_at_terminal(inner, &is_terminal);
            out.push_back(kept);
            proof {
                done = done + 1;
            }
        }
        RecoverableStream { items: out }
    }
}

/// The events of a run of connections: each connection's items, in order,
/// followed by one `Reconnecting` marker, whose origin for connection `i` is
/// `marks[i]`.
pub open spec fn reconnection_events<O, T>(inners: Seq<Seq<T>>, marks: Seq<O>) -> Seq<
    StreamEvent<O, T>,
>
    decreases inners.len(),
{
    if inners.len() == 0 {
        seq![]
    } else {
        (reconnection_events(inners.drop_last(), marks.drop_last()) + items_of(inners.last())).push(
            StreamEvent::Reconnecting(marks.last()),
        )
    }
}

pub open spec fn items_of<O, T>(items: Seq<T>) -> Seq<StreamEvent<O, T>> {
    items.map_values(|t: T| StreamEvent::Item(t))
}

/// The number of `Reconnecting` markers in `events`.
pub open spec fn count_reconnecting<O, T>(events: Seq<StreamEvent<O, T>>) -> nat
    decreases events.len(),
{
    if events.len() == 0 {
        0
    } else {
        count_reconnecting(events.drop_last()) + if events.last() is Reconnecting {
            1nat
        } else {
            0nat
        }
    }
}

/// What one event becomes once errors are handed to the handler: a marker
/// stays, a successful item is unwrapped, a failed item is dropped.
pub open spec fn handled_event<O, T, E>(event: StreamEvent<O, Result<T, E>>) -> Option<StreamEvent<O, T>> {
    match event {
        StreamEvent::Reconnecting(o) => Some(StreamEvent::Reconnecting(o)),
        StreamEvent::Item(Ok(t)) => Some(StreamEvent::Item(t)),
        StreamEvent::Item(Err(_)) => None,
    }
}

/// The events that remain once errors are handed to the handler, in order.
pub open spec fn handled<O, T, E>(events: Seq<StreamEvent<O, Result<T, E>>>) -> Seq<
    StreamEvent<O, T>,
>
    decreases events.len(),
{
    if events.len() == 0 {
        seq![]
    } else {
        let prev = handled(events.drop_last());
        match handled_event(events.last()) {
            Some(kept) => prev.push(kept),
            None => prev,
        }
    }
}

/// Hands a failed item's error to `on_error` and drops the item; unwraps a
/// successful item; passes a marker on.
pub fn handle_event<O, T, E, F: Fn(E)>(event: StreamEvent<O, Result<T, E>>, on_error: &F) -> (r:
    Option<StreamEvent<O, T>>)
    requires
        forall|e: E| on_error.requires((e,)),
    ensures
        r == handled_event(event),
{
    match event {
        StreamEvent::Reconnecting(o) => Some(StreamEvent::Reconnecting(o)),
        StreamEvent::Item(Ok(t)) => Some(StreamEvent::Item(t)),
        StreamEvent::Item(Err(e)) => {
            on_error(e);
            None
        },
    }
}

/// Appends the items of `items`, in order and each wrapped as an `Item`, to `out`.
fn push_items<O, T>(out: &mut VecDeque<StreamEvent<O, T>>, items: Vec<T>)
    ensures
        final(out)@ == old(out)@ + items_of::<O, T>(items@),
{
    let ghost all = items@;
    let ghost start = out@;
    let mut queue: VecDeque<T> = VecDeque::new();
    append_vec(&mut queue, items);
    assert(queue@ =~= all);
    while queue.len() > 0
        invariant
            out@.len() + queue@.len() == start.len() + all.len(),
            out@.len() >= start.len(),
            forall|i: int| 0 <= i < start.len() ==> #[trigger] out@[i] == start[i],
            forall|i: int|
                start.len() <= i < out@.len() ==> #[trigger] out@[i] == StreamEvent::<O, T>::Item(
                    all[i - start.len()],
                ),
            forall|i: int|
                0 <= i < queue@.len() ==> #[trigger] queue@[i] == all[all.len() - queue@.len() + i],
        decreases queue@.len(),
    {
        let item = queue.pop_front().unwrap();
        out.push_back(StreamEvent::Item(item));
    }
    assert(out@ =~= start + items_of::<O, T>(all));
}

/// The marker that follows the last item of a connection: `Reconnecting`
/// with a clone of `origin`.
pub fn reconnecting_marker<O: Clone, T>(origin: &O) -> (r: StreamEvent<O, T>)
    ensures
        r is Reconnecting,
        cloned(*origin, r->Reconnecting_0),
{
    StreamEvent::Reconnecting(origin.clone())
}

impl<T> RecoverableStream<Vec<T>> {
    /// Flattens a run of connections into one run of events: the items of each
    /// connection, followed by one `Reconnecting` marker that carries a clone
    /// of `origin`.
    pub fn with_reconnection_events<O: Clone>(self, origin: O) -> (r: RecoverableStream<
        StreamEvent<O, T>,
    >)
        ensures
            exists|marks: Seq<O>|
                {
                    &&& marks.len() == self@.len()
                    &&& forall|i: int| 0 <= i < marks.len() ==> cloned(origin, #[trigger] marks[i])
                    &&& r@ == reconnection_events(self@.map_values(|v: Vec<T>| v@), marks)
                },
    {
        let ghost all = self@.map_values(|v: Vec<T>| v@);
        let ghost mut done: int = 0;
        let ghost mut marks: Seq<O> = seq![];
        let mut rest = self.items;
        let mut out: VecDeque<StreamEvent<O, T>> = VecDeque::new();
        while rest.len() > 0
            invariant
                0 <= done <= all.len(),
                all.len() == done + rest@.len(),
                forall|i: int| 0 <= i < rest@.len() ==> #[trigger] rest@[i]@ == all[done + i],
                marks.len() == done,
                forall|i: int| 0 <= i < marks.len() ==> cloned(origin, #[trigger] marks[i]),
                out@ == reconnection_events(all.take(done), marks),
            decreases rest@.len(),
        {
            let inner = rest.pop_front().unwrap();
            let ghost inner_view = inner@;
            push_items(&mut out, inner);
            let marker = reconnecting_marker::<O, T>(&origin);
            let ghost mark = marker->Reconnecting_0;
            out.push_back(marker);
            proof {
                let upto = all.take(done + 1);
                assert(upto.drop_last() =~= all.take(done));
                assert(upto.last() == inner_view);
                let next_marks = marks.push(mark);
                assert(next_marks.drop_last() =~= marks);
                marks = next_marks;
                done = done + 1;
            }
        }
        assert(all.take(done) =~= all);
        RecoverableStream { items: out }
    }
}

impl<O, T, E> RecoverableStream<StreamEvent<O, Result<T, E>>> {
    /// Hands each failed item to `on_error` and drops it; successful items are
    /// unwrapped and markers pass through, in order.
    pub fn with_error_handler<F: Fn(E)>(self, on_error: F) -> (r: RecoverableStream<
        StreamEvent<O, T>,
    >)
        requires
            forall|e: E| on_error.requires((e,)),
        ensures
            r@ == handled(self@),
    {
        let ghost all = self@;
        let ghost mut done: Seq<StreamEvent<O, Result<T, E>>> = seq![];
        let mut rest = self.items;
        let mut out: VecDeque<StreamEvent<O, T>> = VecDeque::new();
        while rest.len() > 0
            invariant
                all == done + rest@,
                out@ == handled(done),
                forall|e: E| on_error.requires((e,)),
            decreases rest@.len(),
        {
            let event = rest.pop_front().unwrap();
            let ghost prev = done;
            proof {
                done = done.push(event);
                assert(done.drop_last() =~= prev);
            }
            match handle_event(event, &on_error) {
                Some(kept) => out.push_back(kept),
                None => {},
            }
        }
        assert(done =~= all);
        RecoverableStream { items: out }
    }
}

/// The number of events that `inners` flattens to: each connection's items and its marker.
pub open spec fn events_len<T>(inners: Seq<Seq<T>>) -> int
    decreases inners.len(),
{
    if inners.len() == 0 {
        0
    } else {
        events_len(inners.drop_last()) + inners.last().len() + 1
    }
}

proof fn lemma_count_append<O, T>(a: Seq<StreamEvent<O, T>>, b: Seq<StreamEvent<O, T>>)
    ensures
        count_reconnecting(a + b) == count_reconnecting(a) + count_reconnecting(b),
    decreases b.len(),
{
    if b.len() == 0 {
        assert(a + b =~= a);
    } else {
        assert((a + b).drop_last() =~= a + b.drop_last());
        lemma_count_append(a, b.drop_last());
    }
}

proof fn lemma_count_items<O, T>(items: Seq<T>)
    ensures
        count_reconnecting(items_of::<O, T>(items)) == 0,
    decreases items.len(),
{
    if items.len() > 0 {
        assert(items_of::<O, T>(items).drop_last() =~= items_of::<O, T>(items.drop_last()));
        lemma_count_items::<O, T>(items.drop_last());
    }
}

proof fn lemma_events_len_nonneg<T>(inners: Seq<Seq<T>>)
    ensures
        events_len(inners) >= 0,
    decreases inners.len(),
{
    if inners.len() > 0 {
        lemma_events_len_nonneg(inners.drop_last());
    }
}

/// Flattening `M` connections yields exactly `M` `Reconnecting` markers, and the
/// marker of connection `i` stands immediately after that connection's last item.
pub proof fn lemma_reconnection_markers<O, T>(inners: Seq<Seq<T>>, marks: Seq<O>)
    requires
        marks.len() == inners.len(),
    ensures
        reconnection_events(inners, marks).len() == events_len(inners),
        count_reconnecting(reconnection_events(inners, marks)) == inners.len(),
        forall|i: int|
            0 <= i < inners.len() ==> {
                let end = #[trigger] events_len(inners.take(i + 1));
                &&& 0 < end <= events_len(inners)
                &&& reconnection_events(inners, marks)[end - 1] == StreamEvent::<O, T>::Reconnecting(
                    marks[i],
                )
                &&& inners[i].len() > 0 ==> reconnection_events(inners, marks)[end - 2]
                    == StreamEvent::<O, T>::Item(inners[i].last())
            },
    decreases inners.len(),
{
    if inners.len() > 0 {
        let n = inners.len() as int;
        let head = inners.drop_last();
        let head_marks = marks.drop_last();
        let last = inners.last();
        let pre = reconnection_events(head, head_marks);
        let ev = reconnection_events(inners, marks);
        lemma_reconnection_markers(head, head_marks);
        lemma_count_append(pre, items_of::<O, T>(last));
        lemma_count_items::<O, T>(last);
        assert(ev.drop_last() =~= pre + items_of::<O, T>(last));
        assert forall|i: int| 0 <= i < n implies {
            let end = #[trigger] events_len(inners.take(i + 1));
            &&& 0 < end <= events_len(inners)
            &&& ev[end - 1] == StreamEvent::<O, T>::Reconnecting(marks[i])
            &&& inners[i].len() > 0 ==> ev[end - 2] == StreamEvent::<O, T>::Item(inners[i].last())
        } by {
            if i < n - 1 {
                assert(inners.take(i + 1) =~= head.take(i + 1));
                let end = events_len(head.take(i + 1));
                assert(0 < end <= events_len(head));
                assert(ev[end - 1] == pre[end - 1]);
                if inners[i].len() > 0 {
                    let upto = head.take(i + 1);
                    assert(upto.drop_last() =~= head.take(i));
                    lemma_events_len_nonneg(head.take(i));
                    assert(ev[end - 2] == pre[end - 2]);
                }
            } else {
                assert(inners.take(i + 1) =~= inners);
                lemma_events_len_nonneg(head);
            }
        }
    }
}

} // verus!
