//! The callback trampoline state machine and the per-call inference session.
//!
//! The native engine reports progress for one inference call through a
//! sequence of callback invocations: zero or more non-terminal states
//! followed by exactly one terminal state.  This module models one such
//! call as a [`Session`]: fragments forwarded so far (in order), whether
//! the per-call context is still live, and how many times it has been
//! released.  The transition relation is [`spec_step`]; the executable
//! decision table is [`trampoline_step`].
//!
//! The laws proved here:
//! - a session's context is released exactly once over any invocation
//!   sequence that ends in its first terminal state
//!   ([`lemma_single_release`]);
//! - nothing is delivered after the session closes
//!   ([`lemma_no_post_close`]);
//! - fragments are delivered in exactly the order they were forwarded
//!   ([`lemma_ordering`]).

use vstd::prelude::*;
use vstd::string::StringExecFns;

verus! {

/// Call state reported by the native engine for one callback invocation.
#[derive(Clone, Copy, Debug, PartialEq, Eq, Structural)]
pub enum LlmCallState {
    /// A new text fragment is available.
    Normal,
    /// The engine is buffering; no output yet.
    Waiting,
    /// Generation completed; terminal.
    Finish,
    /// The engine reported a failure; terminal.
    Error,
    /// A state value this bridge does not recognize, carried verbatim;
    /// treated as terminal.
    Unknown(i32),
}

/// Native value of the call state that carries a new fragment.
pub const RUN_NORMAL_STATE: i32 = 0;

/// Native value of the call state that reports buffering.
pub const RUN_WAITING_STATE: i32 = 1;

/// Native value of the call state that reports completion.
pub const RUN_FINISH_STATE: i32 = 2;

/// Native value of the call state that reports a failure.
pub const RUN_ERROR_STATE: i32 = 3;

/// The call state that a raw native state value denotes.
pub open spec fn spec_classify(state: i32) -> LlmCallState {
    if state == RUN_NORMAL_STATE {
        LlmCallState::Normal
    } else if state == RUN_WAITING_STATE {
        LlmCallState::Waiting
    } else if state == RUN_FINISH_STATE {
        LlmCallState::Finish
    } else if state == RUN_ERROR_STATE {
        LlmCallState::Error
    } else {
        LlmCallState::Unknown(state)
    }
}

/// Maps a raw native state value to the call state it denotes.
pub fn classify_state(state: i32) -> (s: LlmCallState)
    ensures
        s == spec_classify(state),
{
    if state == RUN_NORMAL_STATE {
        LlmCallState::Normal
    } else if state == RUN_WAITING_STATE {
        LlmCallState::Waiting
    } else if state == RUN_FINISH_STATE {
        LlmCallState::Finish
    } else if state == RUN_ERROR_STATE {
        LlmCallState::Error
    } else {
        LlmCallState::Unknown(state)
    }
}

/// What the boundary layer found in the native result of one invocation.
#[derive(Clone, Debug)]
pub enum FragmentPayload {
    /// The result held text that decoded cleanly.
    Text(String),
    /// The invocation carried no result at all.
    MissingResult,
    /// The result carried no text.
    MissingText,
    /// The result's text could not be decoded as valid text.
    Undecodable,
}

/// The digit character of one decimal digit value.
pub open spec fn spec_digit_char(d: int) -> char {
    if d == 0 {
        '0'
    } else if d == 1 {
        '1'
    } else if d == 2 {
        '2'
    } else if d == 3 {
        '3'
    } else if d == 4 {
        '4'
    } else if d == 5 {
        '5'
    } else if d == 6 {
        '6'
    } else if d == 7 {
        '7'
    } else if d == 8 {
        '8'
    } else {
        '9'
    }
}

/// The decimal digits of a non-negative value, most significant first.
pub open spec fn spec_udecimal(n: int) -> Seq<char>
    decreases n,
{
    if n < 10 {
        seq![spec_digit_char(n)]
    } else {
        spec_udecimal(n / 10).push(spec_digit_char(n % 10))
    }
}

/// The decimal rendering of a value, with a leading minus sign when it is
/// negative.
pub open spec fn spec_decimal(n: int) -> Seq<char> {
    if n >= 0 {
        spec_udecimal(n)
    } else {
        seq!['-'] + spec_udecimal(-n)
    }
}

fn digit_str(d: u32) -> (r: &'static str)
    requires
        d < 10,
    ensures
        r@ == seq![spec_digit_char(d as int)],
{
    proof {
        reveal_strlit("0");
        reveal_strlit("1");
        reveal_strlit("2");
        reveal_strlit("3");
        reveal_strlit("4");
        reveal_strlit("5");
        reveal_strlit("6");
        reveal_strlit("7");
        reveal_strlit("8");
        reveal_strlit("9");
    }
    let r: &'static str = if d == 0 {
        "0"
    } else if d == 1 {
        "1"
    } else if d == 2 {
        "2"
    } else if d == 3 {
        "3"
    } else if d == 4 {
        "4"
    } else if d == 5 {
        "5"
    } else if d == 6 {
        "6"
    } else if d == 7 {
        "7"
    } else if d == 8 {
        "8"
    } else {
        "9"
    };
    proof {
        assert(r@ =~= seq![spec_digit_char(d as int)]);
    }
    r
}

fn udecimal_string(n: u32) -> (r: String)
    ensures
        r@ == spec_udecimal(n as int),
    decreases n,
{
    if n < 10 {
        digit_str(n).to_owned()
    } else {
        let mut s = udecimal_string(n / 10);
        s.append(digit_str(n % 10));
        proof {
            assert(spec_udecimal((n / 10) as int) + seq![spec_digit_char((n % 10) as int)]
                =~= spec_udecimal((n / 10) as int).push(spec_digit_char((n % 10) as int)));
        }
        s
    }
}

/// Renders a value in decimal, exactly as [`spec_decimal`] says.
pub fn decimal_string(n: i32) -> (r: String)
    ensures
        r@ == spec_decimal(n as int),
{
    if n >= 0 {
        udecimal_string(n as u32)
    } else {
        let magnitude = (-(n as i64)) as u32;
        let mut s = "-".to_owned();
        s.append(udecimal_string(magnitude).as_str());
        proof {
            reveal_strlit("-");
            assert("-"@ =~= seq!['-']);
            assert(magnitude as int == -(n as int));
        }
        s
    }
}

/// Whether a call state is terminal: after it, no further fragments for
/// the session will arrive and its context must be released.
pub open spec fn spec_terminal(state: LlmCallState) -> bool {
    match state {
        LlmCallState::Normal => false,
        LlmCallState::Waiting => false,
        LlmCallState::Finish => true,
        LlmCallState::Error => true,
        LlmCallState::Unknown(_) => true,
    }
}

/// The fragment (if any) that one invocation forwards to the consumer.
///
/// A clean fragment is forwarded unless empty; a missing or undecodable
/// result becomes a diagnostic placeholder rather than ending the session;
/// an engine failure or an unrecognized state forwards a placeholder and
/// then terminates; completion and buffering forward nothing.
pub open spec fn spec_forward(state: LlmCallState, payload: FragmentPayload) -> Option<Seq<char>> {
    match state {
        LlmCallState::Normal => match payload {
            FragmentPayload::Text(s) => if s@.len() == 0 {
                None
            } else {
                Some(s@)
            },
            FragmentPayload::MissingResult => Some("[NULL_RESULT]"@),
            FragmentPayload::MissingText => Some("[NULL_TEXT]"@),
            FragmentPayload::Undecodable => Some("[INVALID_UTF8]"@),
        },
        LlmCallState::Waiting => None,
        LlmCallState::Finish => None,
        LlmCallState::Error => Some("[ERROR]"@),
        LlmCallState::Unknown(code) => Some(
            "[UNKNOWN_STATE_"@ + spec_decimal(code as int) + "]"@,
        ),
    }
}

/// What the trampoline decides for one invocation: the fragment to
/// forward, if any, and whether to release the session's context.
pub struct StepEffect {
    /// Fragment to hand to the delivery channel, if any.
    pub forward: Option<String>,
    /// Whether this invocation is terminal for its session.
    pub terminal: bool,
}

/// View of an optional fragment as an optional character sequence.
pub open spec fn opt_text_view(o: Option<String>) -> Option<Seq<char>> {
    match o {
        Some(s) => Some(s@),
        None => None,
    }
}

/// The trampoline's decision table (the state table of the protocol),
/// as one pure function from call state and payload to effect.
pub fn trampoline_step(state: LlmCallState, payload: FragmentPayload) -> (e: StepEffect)
    ensures
        opt_text_view(e.forward) == spec_forward(state, payload),
        e.terminal == spec_terminal(state),
{
    match state {
        LlmCallState::Normal => {
            let forward = match payload {
                FragmentPayload::Text(s) => if s.as_str().is_empty() {
                    None
                } else {
                    Some(s)
                },
                FragmentPayload::MissingResult => Some("[NULL_RESULT]".to_owned()),
                FragmentPayload::MissingText => Some("[NULL_TEXT]".to_owned()),
                FragmentPayload::Undecodable => Some("[INVALID_UTF8]".to_owned()),
            };
            StepEffect { forward, terminal: false }
        },
        LlmCallState::Waiting => StepEffect { forward: None, terminal: false },
        LlmCallState::Finish => StepEffect { forward: None, terminal: true },
        LlmCallState::Error => StepEffect { forward: Some("[ERROR]".to_owned()), terminal: true },
        LlmCallState::Unknown(code) => {
            let mut s = "[UNKNOWN_STATE_".to_owned();
            s.append(decimal_string(code).as_str());
            s.append("]");
            StepEffect { forward: Some(s), terminal: true }
        },
    }
}

/// Mathematical state of one session: whether the per-call context is
/// still live, how many times it has been released, and the fragments
/// forwarded so far, in delivery order.
#[verifier::ext_equal]
pub ghost struct SessionV {
    pub live: bool,
    pub releases: nat,
    pub queue: Seq<Seq<char>>,
}

impl SessionV {
    /// Well-formedness: the context of a live session has never been
    /// released, and no context is ever released twice.
    pub open spec fn inv(self) -> bool {
        &&& self.live ==> self.releases == 0
        &&& self.releases <= 1
    }
}

/// The state of a session that was just created.
pub open spec fn fresh_session() -> SessionV {
    SessionV { live: true, releases: 0, queue: Seq::empty() }
}

/// How one callback invocation transforms a session: a closed session is
/// left untouched; a live one gains the forwarded fragment (if any), and a
/// terminal state closes it and releases its context.
pub open spec fn spec_step(s: SessionV, state: LlmCallState, payload: FragmentPayload) -> SessionV {
    if !s.live {
        s
    } else {
        SessionV {
            live: !spec_terminal(state),
            releases: if spec_terminal(state) {
                s.releases + 1
            } else {
                s.releases
            },
            queue: match spec_forward(state, payload) {
                Some(t) => s.queue.push(t),
                None => s.queue,
            },
        }
    }
}

/// One recorded callback invocation: the state the engine reported and
/// what the boundary layer found in the result.
pub ghost struct Invocation {
    pub state: LlmCallState,
    pub payload: FragmentPayload,
}

/// A whole sequence of invocations applied in order.
pub open spec fn spec_run(s: SessionV, calls: Seq<Invocation>) -> SessionV
    decreases calls.len(),
{
    if calls.len() == 0 {
        s
    } else {
        spec_run(spec_step(s, calls[0].state, calls[0].payload), calls.drop_first())
    }
}

/// The fragments that a sequence of invocations forwards, in order.
pub open spec fn spec_forwards(calls: Seq<Invocation>) -> Seq<Seq<char>>
    decreases calls.len(),
{
    if calls.len() == 0 {
        Seq::empty()
    } else {
        match spec_forward(calls[0].state, calls[0].payload) {
            Some(t) => seq![t] + spec_forwards(calls.drop_first()),
            None => spec_forwards(calls.drop_first()),
        }
    }
}

/// The views of a sequence of owned fragments.
pub open spec fn texts_of(q: Seq<String>) -> Seq<Seq<char>> {
    q.map_values(|s: String| s@)
}

/// One in-flight inference call: the delivery queue of fragments forwarded
/// so far, whether the per-call context is still live, and a count of how
/// many times it has been released.
pub struct Session {
    /// Whether the per-call context has not yet been released.
    pub live: bool,
    /// How many times the per-call context has been released.
    pub releases: u32,
    /// Fragments forwarded to the consumer so far, oldest first.
    pub queue: Vec<String>,
}

impl View for Session {
    type V = SessionV;

    open spec fn view(&self) -> SessionV {
        SessionV { live: self.live, releases: self.releases as nat, queue: texts_of(self.queue@) }
    }
}

proof fn lemma_texts_push(q: Seq<String>, s: String)
    ensures
        texts_of(q.push(s)) == texts_of(q).push(s@),
{
    assert(texts_of(q.push(s)) =~= texts_of(q).push(s@));
}

impl Session {
    /// Creates the session for one inference call, before the native run
    /// entry point is invoked.
    pub fn new() -> (s: Session)
        ensures
            s@ == fresh_session(),
            s@.inv(),
    {
        let s = Session { live: true, releases: 0, queue: Vec::new() };
        proof {
            assert(s@ =~= fresh_session());
        }
        s
    }

    /// Applies one callback invocation to this session: exactly the
    /// trampoline's decision table, plus the guarantee that an invocation
    /// arriving after the session closed changes nothing.
    pub fn on_callback(&mut self, state: LlmCallState, payload: FragmentPayload)
        requires
            old(self)@.inv(),
        ensures
            final(self)@ == spec_step(old(self)@, state, payload),
            final(self)@.inv(),
    {
        if !self.live {
            return ;
        }
        let ghost pre = self@;
        let e = trampoline_step(state, payload);
        match e.forward {
            Some(s) => {
                proof {
                    lemma_texts_push(self.queue@, s);
                }
                self.queue.push(s);
            },
            None => {},
        }
        if e.terminal {
            self.live = false;
            self.releases = self.releases + 1;
        }
        proof {
            assert(self@ =~= spec_step(pre, state, payload));
        }
    }

    /// Releases the per-call context directly, without an invocation: the
    /// path taken when the native run call itself is rejected and the
    /// caller, not the trampoline, owns cleanup.
    pub fn release(&mut self)
        requires
            old(self)@.inv(),
            old(self)@.live,
        ensures
            final(self)@ == (SessionV {
                live: false,
                releases: old(self)@.releases + 1,
                queue: old(self)@.queue,
            }),
            final(self)@.inv(),
    {
        self.live = false;
        self.releases = self.releases + 1;
        proof {
            assert(self@ =~= SessionV { live: false, releases: old(self)@.releases + 1, queue: old(self)@.queue });
        }
    }

    /// Hands the fragments of a finished session to the consumer as a
    /// lazy, single-pass sequence.
    pub fn into_stream(self) -> (st: FragmentStream)
        requires
            !self@.live,
        ensures
            st.inv(),
            st.remaining() == self@.queue,
    {
        let st = FragmentStream { fragments: self.queue, cursor: 0 };
        proof {
            assert(st.remaining() =~= texts_of(st.fragments@));
        }
        st
    }
}

/// Law: over any invocation sequence whose states are all non-terminal
/// except the last, a fresh session's context is released exactly once,
/// and the session ends closed.
pub proof fn lemma_single_release(calls: Seq<Invocation>)
    requires
        calls.len() > 0,
        forall|i: int|
            0 <= i < calls.len() - 1 ==> !spec_terminal(#[trigger] calls[i].state),
        spec_terminal(calls.last().state),
    ensures
        spec_run(fresh_session(), calls).releases == 1,
        !spec_run(fresh_session(), calls).live,
{
    lemma_single_release_from(fresh_session(), calls);
}

proof fn lemma_single_release_from(s: SessionV, calls: Seq<Invocation>)
    requires
        s.live,
        s.releases == 0,
        calls.len() > 0,
        forall|i: int|
            0 <= i < calls.len() - 1 ==> !spec_terminal(#[trigger] calls[i].state),
        spec_terminal(calls.last().state),
    ensures
        spec_run(s, calls).releases == 1,
        !spec_run(s, calls).live,
    decreases calls.len(),
{
    let s1 = spec_step(s, calls[0].state, calls[0].payload);
    if calls.len() == 1 {
        assert(calls[0] == calls.last());
        assert(spec_run(s1, calls.drop_first()) == s1);
    } else {
        assert(!spec_terminal(calls[0].state));
        let rest = calls.drop_first();
        assert(rest.last() == calls.last());
        assert(forall|i: int|
            0 <= i < rest.len() - 1 ==> !spec_terminal(#[trigger] rest[i].state)) by {
            assert(forall|i: int| 0 <= i < rest.len() - 1 ==> rest[i] == calls[i + 1]);
        }
        lemma_single_release_from(s1, rest);
    }
}

/// Law: once a session is closed, further invocations deliver nothing and
/// change nothing, however many arrive and whatever they carry.
pub proof fn lemma_no_post_close(s: SessionV, calls: Seq<Invocation>)
    requires
        !s.live,
    ensures
        spec_run(s, calls) == s,
    decreases calls.len(),
{
    if calls.len() > 0 {
        assert(spec_step(s, calls[0].state, calls[0].payload) == s);
        lemma_no_post_close(s, calls.drop_first());
    }
}

/// Law: a live session delivers exactly the forwarded fragments of its
/// non-terminal invocations, appended in invocation order.
pub proof fn lemma_ordering(s: SessionV, calls: Seq<Invocation>)
    requires
        s.live,
        forall|i: int| 0 <= i < calls.len() ==> !spec_terminal(#[trigger] calls[i].state),
    ensures
        spec_run(s, calls).queue == s.queue + spec_forwards(calls),
        spec_run(s, calls).live,
    decreases calls.len(),
{
    if calls.len() == 0 {
        assert(s.queue + spec_forwards(calls) =~= s.queue);
    } else {
        assert(!spec_terminal(calls[0].state));
        let s1 = spec_step(s, calls[0].state, calls[0].payload);
        let rest = calls.drop_first();
        assert(forall|i: int| 0 <= i < rest.len() ==> !spec_terminal(#[trigger] rest[i].state)) by {
            assert(forall|i: int| 0 <= i < rest.len() ==> rest[i] == calls[i + 1]);
        }
        lemma_ordering(s1, rest);
        match spec_forward(calls[0].state, calls[0].payload) {
            Some(t) => {
                assert(s.queue.push(t) + spec_forwards(rest) =~= s.queue + (seq![t]
                    + spec_forwards(rest)));
            },
            None => {},
        }
    }
}

/// Concatenation of the fragments of `q` from position `i` on.
pub open spec fn concat_from(q: Seq<Seq<char>>, i: int) -> Seq<char>
    decreases q.len() - i,
{
    if i < 0 || i >= q.len() {
        Seq::empty()
    } else {
        q[i] + concat_from(q, i + 1)
    }
}

/// The consumer-facing end of one inference call: a finite, single-pass
/// sequence of text fragments whose end is unambiguous.
pub struct FragmentStream {
    /// Every fragment the call delivered, oldest first.
    pub fragments: Vec<String>,
    /// How many fragments have been taken already.
    pub cursor: usize,
}

impl FragmentStream {
    /// Well-formedness: the cursor never passes the end.
    pub open spec fn inv(&self) -> bool {
        self.cursor <= self.fragments.len()
    }

    /// The fragments not yet taken, in delivery order.
    pub open spec fn remaining(&self) -> Seq<Seq<char>> {
        texts_of(self.fragments@).skip(self.cursor as int)
    }

    /// Takes the next fragment, in delivery order; `None` once the
    /// sequence has ended, which is the sole end-of-stream signal.
    pub fn next(&mut self) -> (r: Option<String>)
        requires
            old(self).inv(),
        ensures
            final(self).inv(),
            old(self).remaining().len() > 0 ==> {
                &&& r matches Some(s) && s@ == old(self).remaining()[0]
                &&& final(self).remaining() == old(self).remaining().drop_first()
            },
            old(self).remaining().len() == 0 ==> r is None && *final(self) == *old(self),
    {
        if self.cursor < self.fragments.len() {
            let s = self.fragments[self.cursor].clone();
            self.cursor = self.cursor + 1;
            proof {
                assert(self.remaining() =~= old(self).remaining().drop_first());
            }
            Some(s)
        } else {
            None
        }
    }

    /// Drains the rest of the stream into one text, in delivery order.
    pub fn collect_remaining(&mut self) -> (r: String)
        requires
            old(self).inv(),
        ensures
            final(self).inv(),
            r@ == concat_from(texts_of(old(self).fragments@), old(self).cursor as int),
            final(self).remaining().len() == 0,
    {
        let ghost texts = texts_of(self.fragments@);
        let ghost start = self.cursor as int;
        let mut r = String::new();
        while self.cursor < self.fragments.len()
            invariant
                self.inv(),
                texts == texts_of(self.fragments@),
                start <= self.cursor as int <= self.fragments.len(),
                concat_from(texts, start) == r@ + concat_from(texts, self.cursor as int),
            decreases self.fragments.len() - self.cursor,
        {
            let ghost prev = r@;
            let ghost cur = self.cursor as int;
            r.append(self.fragments[self.cursor].as_str());
            self.cursor = self.cursor + 1;
            proof {
                assert((prev + texts[cur]) + concat_from(texts, cur + 1) =~= prev + (texts[cur]
                    + concat_from(texts, cur + 1)));
            }
        }
        proof {
            assert(concat_from(texts, self.cursor as int) =~= Seq::<char>::empty());
            assert(r@ =~= concat_from(texts, start));
        }
        r
    }
}

/// One prompt blob joined from the turns of a conversation, separated by
/// line breaks: empty for no turns, and otherwise the turns in order with
/// one separator between each pair.
pub open spec fn spec_join_lines(msgs: Seq<Seq<char>>) -> Seq<char>
    decreases msgs.len(),
{
    if msgs.len() == 0 {
        Seq::empty()
    } else if msgs.len() == 1 {
        msgs[0]
    } else {
        spec_join_lines(msgs.drop_last()) + "\n"@ + msgs.last()
    }
}

/// Joins the messages of one request into the single prompt blob handed
/// to the native run entry point.
pub fn join_messages(messages: &Vec<String>) -> (r: String)
    ensures
        r@ == spec_join_lines(texts_of(messages@)),
{
    let ghost texts = texts_of(messages@);
    let mut r = String::new();
    let mut i: usize = 0;
    while i < messages.len()
        invariant
            texts == texts_of(messages@),
            i <= messages.len(),
            r@ == spec_join_lines(texts.take(i as int)),
        decreases messages.len() - i,
    {
        if i > 0 {
            r.append("\n");
        }
        r.append(messages[i].as_str());
        proof {
            let k = i as int;
            assert(texts.take(k + 1).drop_last() =~= texts.take(k));
            assert(texts.take(k + 1).last() == texts[k]);
            if k == 0 {
                assert(r@ =~= spec_join_lines(texts.take(1)));
            }
        }
        i = i + 1;
    }
    proof {
        assert(texts.take(messages@.len() as int) =~= texts);
    }
    r
}

} // verus!
