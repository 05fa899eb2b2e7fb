//! What holds of a session over a whole run.
//!
//! A run is the sequence of events that a session is handed, in the order in
//! which its caller saw them. The functions here say what state such a run
//! leaves and which actions it asked for; the laws below them are proved of
//! every run.

use crate::frame::{input_text, outbound_text};
use crate::session::{
    ending, initial, next_state, reaction, ActionModel, EndReason, EventModel, Phase,
    SessionModel,
};
use vstd::prelude::*;

verus! {

/// The state of a session that started in `s` and was handed `trace`.
pub open spec fn run(s: SessionModel, trace: Seq<EventModel>) -> SessionModel
    decreases trace.len(),
{
    if trace.len() == 0 {
        s
    } else {
        next_state(run(s, trace.drop_last()), trace.last())
    }
}

/// The actions that a session that started in `s` asked for, one for each
/// event of `trace`.
pub open spec fn reactions(s: SessionModel, trace: Seq<EventModel>) -> Seq<ActionModel>
    decreases trace.len(),
{
    if trace.len() == 0 {
        Seq::empty()
    } else {
        reactions(s, trace.drop_last()).push(reaction(run(s, trace.drop_last()), trace.last()))
    }
}

/// The texts that the actions write to the process, in order.
pub open spec fn inputs_written(actions: Seq<ActionModel>) -> Seq<Seq<char>>
    decreases actions.len(),
{
    if actions.len() == 0 {
        Seq::empty()
    } else {
        let before = inputs_written(actions.drop_last());
        match actions.last() {
            ActionModel::WriteInput(text) => before.push(text),
            _ => before,
        }
    }
}

/// The frames that the actions send to the client, in order.
pub open spec fn frames_sent(actions: Seq<ActionModel>) -> Seq<Seq<char>>
    decreases actions.len(),
{
    if actions.len() == 0 {
        Seq::empty()
    } else {
        let before = frames_sent(actions.drop_last());
        match actions.last() {
            ActionModel::SendFrame(text) => before.push(text),
            _ => before,
        }
    }
}

/// The input line of each client payload of `trace`, in order.
pub open spec fn inputs_due(trace: Seq<EventModel>) -> Seq<Seq<char>>
    decreases trace.len(),
{
    if trace.len() == 0 {
        Seq::empty()
    } else {
        let before = inputs_due(trace.drop_last());
        match trace.last() {
            EventModel::ClientText(payload) => before.push(input_text(payload)),
            _ => before,
        }
    }
}

/// The frame of each output line of `trace`, in order.
pub open spec fn frames_due(trace: Seq<EventModel>) -> Seq<Seq<char>>
    decreases trace.len(),
{
    if trace.len() == 0 {
        Seq::empty()
    } else {
        let before = frames_due(trace.drop_last());
        match trace.last() {
            EventModel::Output(stream, line) => before.push(outbound_text(stream, line)),
            _ => before,
        }
    }
}

/// A run asks for exactly one action for each event.
pub proof fn lemma_one_action_per_event(s: SessionModel, trace: Seq<EventModel>)
    ensures
        reactions(s, trace).len() == trace.len(),
    decreases trace.len(),
{
    if trace.len() > 0 {
        lemma_one_action_per_event(s, trace.drop_last());
    }
}

/// The state after the first `i + 1` events is the state after the first
/// `i`, moved on by event `i`.
pub proof fn lemma_run_extends(s: SessionModel, trace: Seq<EventModel>, i: int)
    requires
        0 <= i < trace.len(),
    ensures
        run(s, trace.take(i + 1)) == next_state(run(s, trace.take(i)), trace[i]),
{
    assert(trace.take(i + 1).drop_last() =~= trace.take(i));
}

/// The action for event `i` of a run is the reaction of the state that the
/// events before it left.
pub proof fn lemma_reaction_at(s: SessionModel, trace: Seq<EventModel>, i: int)
    requires
        0 <= i < trace.len(),
    ensures
        reactions(s, trace).len() == trace.len(),
        reactions(s, trace)[i] == reaction(run(s, trace.take(i)), trace[i]),
    decreases trace.len(),
{
    lemma_one_action_per_event(s, trace);
    let before = trace.drop_last();
    lemma_one_action_per_event(s, before);
    if i == trace.len() - 1 {
        assert(trace.take(i) =~= before);
    } else {
        lemma_reaction_at(s, before, i);
        assert(before.take(i) =~= trace.take(i));
    }
}

/// Once a run has ended the session, the state never changes again.
pub proof fn lemma_end_is_final(s: SessionModel, trace: Seq<EventModel>, i: int, j: int)
    requires
        0 <= i <= j <= trace.len(),
        run(s, trace.take(i)).phase is Terminated,
    ensures
        run(s, trace.take(j)) == run(s, trace.take(i)),
    decreases j - i,
{
    if i < j {
        lemma_end_is_final(s, trace, i, j - 1);
        lemma_run_extends(s, trace, j - 1);
    }
}

/// A terminated session performs no further I/O: whatever arrives after
/// the session has ended, the answer is `Close` and the state stays as it is.
/// Nothing is written to the process and nothing is sent to the client.
pub proof fn law_silent_after_end(s: SessionModel, trace: Seq<EventModel>, i: int, j: int)
    requires
        0 <= i <= j < trace.len(),
        run(s, trace.take(i)).phase is Terminated,
    ensures
        reactions(s, trace).len() == trace.len(),
        reactions(s, trace)[j] == ActionModel::Close,
        run(s, trace) == run(s, trace.take(i)),
{
    lemma_end_is_final(s, trace, i, j);
    lemma_end_is_final(s, trace, i, trace.len() as int);
    lemma_reaction_at(s, trace, j);
    assert(trace.take(trace.len() as int) =~= trace);
}

/// Every event that ends a session silences it: after the client has closed
/// its channel, after the process has exited, and after a write or a send
/// has failed, each later event is answered with `Close`.
pub proof fn law_nothing_follows_a_terminal_event(trace: Seq<EventModel>, i: int, j: int)
    requires
        0 <= i < j < trace.len(),
        ending(trace[i]) is Some,
    ensures
        reactions(initial(), trace).len() == trace.len(),
        reactions(initial(), trace)[j] == ActionModel::Close,
        !(reactions(initial(), trace)[j] is WriteInput),
        !(reactions(initial(), trace)[j] is SendFrame),
{
    lemma_run_extends(initial(), trace, i);
    law_silent_after_end(initial(), trace, i + 1, j);
}

/// The exit of the process ends a running session at once: the state becomes
/// `Terminated(ProcessExited(status))` with the status that was observed,
/// and the action for that very event is `Close`.
pub proof fn law_exit_ends_the_session(s: SessionModel, status: Option<i32>)
    requires
        s.phase is Running,
    ensures
        next_state(s, EventModel::Exited(status)).phase == Phase::Terminated(
            EndReason::ProcessExited(status),
        ),
        reaction(s, EventModel::Exited(status)) == ActionModel::Close,
{
}

/// Relaying keeps order and loses nothing. Let the first `n` events of a run
/// be those that the session handled while it was running (so event `n`, if
/// there is one, ended it). Then the texts written to the process are the
/// input lines of the client payloads among those `n` events, each once and
/// in the order of arrival; and the frames sent to the client are the frames
/// of the output lines among them, each once and in the order of arrival.
pub proof fn law_relay_in_order(s: SessionModel, trace: Seq<EventModel>, n: int)
    requires
        0 <= n <= trace.len(),
        run(s, trace.take(n)).phase is Running,
        n < trace.len() ==> ending(trace[n]) is Some,
    ensures
        inputs_written(reactions(s, trace)) == inputs_due(trace.take(n)),
        frames_sent(reactions(s, trace)) == frames_due(trace.take(n)),
    decreases trace.len(),
{
    if trace.len() == 0 {
        assert(trace.take(n) =~= trace);
    } else {
        let before = trace.drop_last();
        let last = trace.last();
        let acts = reactions(s, trace);
        lemma_one_action_per_event(s, before);
        assert(acts.drop_last() =~= reactions(s, before));
        assert(acts.last() == reaction(run(s, before), last));
        if n == trace.len() {
            assert(trace.take(n) =~= trace);
            assert(before.take(n - 1) =~= before);
            law_relay_in_order(s, before, n - 1);
        } else if n == trace.len() - 1 {
            assert(trace.take(n) =~= before);
            assert(before.take(n) =~= before);
            law_relay_in_order(s, before, n);
        } else {
            lemma_run_extends(s, trace, n);
            lemma_end_is_final(s, trace, n + 1, trace.len() - 1);
            assert(trace.take(trace.len() - 1) =~= before);
            assert(before.take(n) =~= trace.take(n));
            law_relay_in_order(s, before, n);
        }
    }
}

} // verus!
