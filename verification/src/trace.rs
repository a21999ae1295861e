//! Runs of the machine: what holds after any sequence of events.

use crate::controller::{Controller, Lifecycle, EXIT_OK};
use crate::event::Event;
use vstd::prelude::*;

verus! {

/// The state reached from `start` by taking `events` one after the other.
pub open spec fn run(start: Lifecycle, events: Seq<Event>) -> Lifecycle
    decreases events.len(),
{
    if events.len() == 0 {
        start
    } else {
        run(start, events.drop_last()).after(events.last())
    }
}

/// As long as nobody quits, the shell keeps running, and the window is as
/// visible as the latest event wants it: shown after `Show`, hidden after
/// `Hide` and after a close request, whatever came before.
pub proof fn lemma_latest_event_decides_visibility(start: Controller, events: Seq<Event>)
    requires
        !events.contains(Event::Quit),
    ensures
        run(Lifecycle::Running(start), events) is Running,
        events.len() == 0 ==> run(Lifecycle::Running(start), events) == Lifecycle::Running(start),
        events.len() > 0 ==> Some(run(Lifecycle::Running(start), events)->Running_0.window.visibility)
            == events.last().target(),
    decreases events.len(),
{
    if events.len() > 0 {
        let earlier = events.drop_last();
        assert forall|e: Event| earlier.contains(e) implies events.contains(e) by {
            let i = choose|i: int| 0 <= i < earlier.len() && earlier[i] == e;
            assert(events[i] == e);
        }
        lemma_latest_event_decides_visibility(start, earlier);
        assert(events.contains(events.last()));
    }
}

/// A run ends with the process gone exactly when it holds a `Quit`, and the
/// exit code is then the code for success, whatever the window was doing.
pub proof fn lemma_quit_alone_terminates(start: Controller, events: Seq<Event>)
    ensures
        run(Lifecycle::Running(start), events) is Terminated <==> events.contains(Event::Quit),
        events.contains(Event::Quit) ==> run(Lifecycle::Running(start), events)
            == (Lifecycle::Terminated { exit_code: EXIT_OK }),
    decreases events.len(),
{
    if events.len() > 0 {
        let earlier = events.drop_last();
        lemma_quit_alone_terminates(start, earlier);
        assert(events.contains(events.last()));
        assert forall|e: Event| earlier.contains(e) implies events.contains(e) by {
            let i = choose|i: int| 0 <= i < earlier.len() && earlier[i] == e;
            assert(events[i] == e);
        }
        if events.contains(Event::Quit) && events.last() != Event::Quit {
            let i = choose|i: int| 0 <= i < events.len() && events[i] == Event::Quit;
            assert(earlier[i] == Event::Quit);
        }
    }
}

/// Once the process is gone, no event brings it back or changes its exit code.
pub proof fn lemma_terminated_stays(exit_code: i32, events: Seq<Event>)
    ensures
        run(Lifecycle::Terminated { exit_code }, events) == (Lifecycle::Terminated { exit_code }),
    decreases events.len(),
{
    if events.len() > 0 {
        lemma_terminated_stays(exit_code, events.drop_last());
    }
}

} // verus!
