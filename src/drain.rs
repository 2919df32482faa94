//! Draining one output stream of the child: everything read is captured,
//! and, when echoing is on, complete lines are handed on as soon as they are
//! seen while a trailing partial line waits for more input or the end.
use vstd::prelude::*;

verus! {

/// Bytes that end a line for echoing purposes: `\n` and `\r`.
pub open spec fn is_line_end(b: u8) -> bool {
    b == 10 || b == 13
}

/// Length of the longest prefix of `s` that ends with a line end, or 0.
pub open spec fn complete_lines_len(s: Seq<u8>) -> nat
    decreases s.len(),
{
    if s.len() == 0 {
        0
    } else if is_line_end(s.last()) {
        s.len()
    } else {
        complete_lines_len(s.drop_last())
    }
}

/// The abstract state of a drainer: what was captured, how much of it has
/// been handed to the echo sink, and whether echoing is on.
pub struct DrainState {
    pub captured: Seq<u8>,
    pub forwarded: nat,
    pub tee: bool,
}

/// A drainer before anything has been read.
pub open spec fn initial_state(tee: bool) -> DrainState {
    DrainState { captured: Seq::empty(), forwarded: 0, tee }
}

/// The state after `chunk` has been read: it is captured, and when echoing is
/// on, the pending bytes up to and including their last line end move on.
pub open spec fn after_chunk(s: DrainState, chunk: Seq<u8>) -> DrainState {
    let captured = s.captured + chunk;
    DrainState {
        captured,
        forwarded: if s.tee {
            s.forwarded + complete_lines_len(captured.subrange(s.forwarded as int, captured.len() as int))
        } else {
            s.forwarded
        },
        tee: s.tee,
    }
}

/// The state at end of stream: when echoing is on, nothing stays pending.
pub open spec fn after_end(s: DrainState) -> DrainState {
    DrainState {
        captured: s.captured,
        forwarded: if s.tee { s.captured.len() } else { s.forwarded },
        tee: s.tee,
    }
}

/// The bytes handed to the sink in the step from `s` to `t`.
pub open spec fn handed_on(s: DrainState, t: DrainState) -> Seq<u8> {
    t.captured.subrange(s.forwarded as int, t.forwarded as int)
}

/// The sink writes of one step: one write of the bytes handed on, or none.
pub open spec fn step_writes(s: DrainState, t: DrainState) -> Seq<Seq<u8>> {
    if handed_on(s, t).len() > 0 {
        seq![handed_on(s, t)]
    } else {
        Seq::empty()
    }
}

/// The state after reading `chunks` in order.
pub open spec fn run(chunks: Seq<Seq<u8>>, tee: bool) -> DrainState
    decreases chunks.len(),
{
    if chunks.len() == 0 {
        initial_state(tee)
    } else {
        after_chunk(run(chunks.drop_last(), tee), chunks.last())
    }
}

/// The sink writes made while reading `chunks`, before the end of stream.
pub open spec fn run_writes(chunks: Seq<Seq<u8>>, tee: bool) -> Seq<Seq<u8>>
    decreases chunks.len(),
{
    if chunks.len() == 0 {
        Seq::empty()
    } else {
        let prev = run(chunks.drop_last(), tee);
        run_writes(chunks.drop_last(), tee) + step_writes(prev, after_chunk(prev, chunks.last()))
    }
}

/// Every sink write of a whole drain of `chunks`, end of stream included.
pub open spec fn all_writes(chunks: Seq<Seq<u8>>, tee: bool) -> Seq<Seq<u8>> {
    let s = run(chunks, tee);
    run_writes(chunks, tee) + step_writes(s, after_end(s))
}

/// The chunks joined end to end.
pub open spec fn flatten(chunks: Seq<Seq<u8>>) -> Seq<u8>
    decreases chunks.len(),
{
    if chunks.len() == 0 {
        Seq::empty()
    } else {
        flatten(chunks.drop_last()) + chunks.last()
    }
}

/// `complete_lines_len` picks the longest prefix ending in a line end: what
/// follows it holds no line end.
pub proof fn lemma_complete_lines(s: Seq<u8>)
    ensures
        complete_lines_len(s) <= s.len(),
        complete_lines_len(s) > 0 ==> is_line_end(s[complete_lines_len(s) - 1]),
        forall|j: int| complete_lines_len(s) <= j < s.len() ==> !is_line_end(#[trigger] s[j]),
    decreases s.len(),
{
    if s.len() > 0 && !is_line_end(s.last()) {
        lemma_complete_lines(s.drop_last());
        assert forall|j: int| complete_lines_len(s) <= j < s.len() implies !is_line_end(
            #[trigger] s[j],
        ) by {
            if j < s.len() - 1 {
                assert(s[j] == s.drop_last()[j]);
            }
        }
    }
}

/// A run over any chunks keeps the handed-on part within what was captured,
/// and hands on nothing while echoing is off.
pub proof fn lemma_run_consistent(chunks: Seq<Seq<u8>>, tee: bool)
    ensures
        run(chunks, tee).tee == tee,
        run(chunks, tee).forwarded <= run(chunks, tee).captured.len(),
        !tee ==> run(chunks, tee).forwarded == 0,
    decreases chunks.len(),
{
    if chunks.len() > 0 {
        lemma_run_consistent(chunks.drop_last(), tee);
        let prev = run(chunks.drop_last(), tee);
        let captured = prev.captured + chunks.last();
        lemma_complete_lines(captured.subrange(prev.forwarded as int, captured.len() as int));
    }
}

/// Whatever the chunks and whether or not a sink is attached, the drainer
/// captures exactly the input: the chunks joined end to end.
pub proof fn lemma_capture_is_input(chunks: Seq<Seq<u8>>, tee: bool)
    ensures
        run(chunks, tee).captured == flatten(chunks),
        after_end(run(chunks, tee)).captured == flatten(chunks),
    decreases chunks.len(),
{
    if chunks.len() > 0 {
        lemma_capture_is_input(chunks.drop_last(), tee);
    }
}

/// The writes made while reading join up to the handed-on prefix of the capture.
proof fn lemma_run_writes_prefix(chunks: Seq<Seq<u8>>, tee: bool)
    ensures
        flatten(run_writes(chunks, tee)) == run(chunks, tee).captured.take(
            run(chunks, tee).forwarded as int,
        ),
    decreases chunks.len(),
{
    if chunks.len() > 0 {
        let rest = chunks.drop_last();
        lemma_run_writes_prefix(rest, tee);
        lemma_run_consistent(rest, tee);
        lemma_run_consistent(chunks, tee);
        let prev = run(rest, tee);
        let next = run(chunks, tee);
        lemma_flatten_push(run_writes(rest, tee), step_writes(prev, next));
        assert(prev.captured.take(prev.forwarded as int) + handed_on(prev, next)
            =~= next.captured.take(next.forwarded as int));
    }
}

/// Joining a list with at most one more element appended.
proof fn lemma_flatten_push(a: Seq<Seq<u8>>, b: Seq<Seq<u8>>)
    requires
        b.len() <= 1,
    ensures
        flatten(a + b) == flatten(a) + (if b.len() == 1 { b[0] } else { Seq::empty() }),
{
    if b.len() == 1 {
        assert((a + b).drop_last() =~= a);
    } else {
        assert(a + b =~= a);
        assert(flatten(a) + Seq::<u8>::empty() =~= flatten(a));
    }
}

/// With a sink attached, everything written to it, joined in order, is exactly
/// the input: no byte is dropped or repeated, however the input was chunked.
pub proof fn lemma_tee_writes_input(chunks: Seq<Seq<u8>>)
    ensures
        flatten(all_writes(chunks, true)) == flatten(chunks),
{
    let s = run(chunks, true);
    lemma_run_writes_prefix(chunks, true);
    lemma_run_consistent(chunks, true);
    lemma_capture_is_input(chunks, true);
    lemma_flatten_push(run_writes(chunks, true), step_writes(s, after_end(s)));
    assert(s.captured.take(s.forwarded as int) + handed_on(s, after_end(s)) =~= s.captured);
}

/// Without a sink nothing is ever written: the capture alone carries the data.
pub proof fn lemma_no_sink_no_writes(chunks: Seq<Seq<u8>>)
    ensures
        all_writes(chunks, false).len() == 0,
{
    lemma_run_consistent(chunks, false);
    lemma_run_writes_empty(chunks);
}

/// Without a sink, no write is made while reading.
proof fn lemma_run_writes_empty(chunks: Seq<Seq<u8>>)
    ensures
        run_writes(chunks, false).len() == 0,
    decreases chunks.len(),
{
    if chunks.len() > 0 {
        lemma_run_writes_empty(chunks.drop_last());
        lemma_run_consistent(chunks.drop_last(), false);
    }
}

/// A drainer of one stream.
pub struct StreamDrainer {
    captured: Vec<u8>,
    forwarded: usize,
    tee: bool,
}

impl View for StreamDrainer {
    type V = DrainState;

    closed spec fn view(&self) -> DrainState {
        DrainState { captured: self.captured@, forwarded: self.forwarded as nat, tee: self.tee }
    }
}

impl StreamDrainer {
    /// The drainer's consistency: the handed-on part is a prefix of what was
    /// captured, and nothing is handed on while echoing is off.
    pub open spec fn wf(&self) -> bool {
        &&& self@.forwarded <= self@.captured.len()
        &&& !self@.tee ==> self@.forwarded == 0
    }

    /// A drainer that has read nothing; `tee` says whether a sink is attached.
    pub fn new(tee: bool) -> (r: Self)
        ensures
            r.wf(),
            r@ == initial_state(tee),
    {
        StreamDrainer { captured: Vec::new(), forwarded: 0, tee }
    }

    /// Takes in one chunk read from the stream; returns the bytes to write to
    /// the sink now, if any.
    pub fn feed(&mut self, chunk: &[u8]) -> (r: Option<Vec<u8>>)
        requires
            old(self).wf(),
            old(self)@.captured.len() + chunk@.len() <= usize::MAX,
        ensures
            final(self).wf(),
            final(self)@ == after_chunk(old(self)@, chunk@),
            r is None <==> handed_on(old(self)@, final(self)@).len() == 0,
            r matches Some(w) ==> w@ == handed_on(old(self)@, final(self)@),
            r matches Some(w) ==> is_line_end(w@.last()),
            forall|j: int|
                final(self)@.tee && final(self)@.forwarded <= j < final(self)@.captured.len()
                    ==> !is_line_end(#[trigger] final(self)@.captured[j]),
    {
        let ghost start = self@;
        let mut i: usize = 0;
        while i < chunk.len()
            invariant
                0 <= i <= chunk@.len(),
                self.forwarded == start.forwarded,
                self.tee == start.tee,
                self.captured@ == start.captured + chunk@.subrange(0, i as int),
                start.captured.len() + chunk@.len() <= usize::MAX,
            decreases chunk@.len() - i,
        {
            self.captured.push(chunk[i]);
            i = i + 1;
        }
        assert(chunk@.subrange(0, chunk@.len() as int) == chunk@);
        let ghost captured = self.captured@;
        let ghost pending = captured.subrange(start.forwarded as int, captured.len() as int);
        proof {
            lemma_complete_lines(pending);
        }
        if !self.tee {
            return None;
        }
        let fwd = self.forwarded;
        let mut k = self.captured.len();
        while k > fwd && !(self.captured[k - 1] == 10 || self.captured[k - 1] == 13)
            invariant
                fwd <= k <= self.captured@.len(),
                self.captured@ == captured,
                fwd == start.forwarded,
                pending == captured.subrange(fwd as int, captured.len() as int),
                complete_lines_len(pending) == complete_lines_len(
                    captured.subrange(fwd as int, k as int),
                ),
            decreases k,
        {
            assert(captured.subrange(fwd as int, k as int).drop_last() == captured.subrange(
                fwd as int,
                k - 1,
            ));
            k = k - 1;
        }
        proof {
            let done = captured.subrange(fwd as int, k as int);
            if k > fwd {
                assert(done.last() == captured[k - 1]);
            }
            assert(complete_lines_len(pending) == k - fwd);
            assert forall|j: int| k <= j < captured.len() implies !is_line_end(
                #[trigger] captured[j],
            ) by {
                assert(captured[j] == pending[j - fwd]);
            }
        }
        self.forwarded = k;
        if k == fwd {
            return None;
        }
        let mut w: Vec<u8> = Vec::new();
        let mut j = fwd;
        while j < k
            invariant
                fwd <= j <= k <= self.captured@.len(),
                w@ == self.captured@.subrange(fwd as int, j as int),
            decreases k - j,
        {
            w.push(self.captured[j]);
            j = j + 1;
        }
        Some(w)
    }

    /// Marks the end of the stream; returns what was still pending for the
    /// sink, if any.
    pub fn finish(&mut self) -> (r: Option<Vec<u8>>)
        requires
            old(self).wf(),
        ensures
            final(self).wf(),
            final(self)@ == after_end(old(self)@),
            r is None <==> handed_on(old(self)@, final(self)@).len() == 0,
            r matches Some(w) ==> w@ == handed_on(old(self)@, final(self)@),
    {
        let fwd = self.forwarded;
        let len = self.captured.len();
        if !self.tee || fwd == len {
            self.forwarded = if self.tee { len } else { fwd };
            return None;
        }
        let mut w: Vec<u8> = Vec::new();
        let mut j = fwd;
        while j < len
            invariant
                fwd <= j <= len == self.captured@.len(),
                w@ == self.captured@.subrange(fwd as int, j as int),
            decreases len - j,
        {
            w.push(self.captured[j]);
            j = j + 1;
        }
        self.forwarded = len;
        Some(w)
    }

    /// How many bytes were captured so far.
    pub fn captured_len(&self) -> (r: usize)
        ensures
            r == self@.captured.len(),
    {
        self.captured.len()
    }

    /// Gives up the drainer for what it captured.
    pub fn into_captured(self) -> (r: Vec<u8>)
        ensures
            r@ == self@.captured,
    {
        self.captured
    }
}

} // verus!
