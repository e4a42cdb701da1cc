//! The frame loop's decisions.
//!
//! Each display refresh hands the state the interactions the toolkit saw
//! on that frame, in order: a text edit, a slider drag, a click of the
//! increment button, a click of Quit. `handle_event` applies one of them;
//! `render_frame` applies a whole frame's worth and reports whether Quit
//! was asked for. What each interaction does to the state is fixed by
//! `apply_event`.

use vstd::prelude::*;

use crate::app::{clamp_value, AppView, TemplateApp, SLIDER_MAX, VALUE_UNIT};

verus! {

/// One user interaction reported by the toolkit during a frame.
pub enum UiEvent {
    /// The text field now holds this text.
    LabelEdited(String),
    /// The slider was dragged to this many fixed-point units.
    SliderSet(i64),
    /// The increment button was clicked.
    IncrementClicked,
    /// Quit was chosen from the menu.
    QuitClicked,
}

/// The mathematical content of an interaction.
pub ghost enum EventView {
    LabelEdited(Seq<char>),
    SliderSet(int),
    IncrementClicked,
    QuitClicked,
}

impl View for UiEvent {
    type V = EventView;

    open spec fn view(&self) -> EventView {
        match self {
            UiEvent::LabelEdited(text) => EventView::LabelEdited(text@),
            UiEvent::SliderSet(v) => EventView::SliderSet(*v as int),
            UiEvent::IncrementClicked => EventView::IncrementClicked,
            UiEvent::QuitClicked => EventView::QuitClicked,
        }
    }
}

/// What the state must do once the frame is over.
#[derive(Clone, Copy, PartialEq, Eq, Structural, Debug)]
pub enum UiAction {
    /// Keep running.
    Continue,
    /// Terminate the process.
    Quit,
}

/// The state after one interaction: a text edit replaces the label
/// exactly, a slider drag clamps to the slider's range, the increment
/// button adds one unit without a clamp, and Quit leaves the state alone.
pub open spec fn apply_event(s: AppView, e: EventView) -> AppView {
    match e {
        EventView::LabelEdited(text) => AppView { label: text, value: s.value },
        EventView::SliderSet(v) => AppView { label: s.label, value: clamp_value(v) },
        EventView::IncrementClicked => AppView { label: s.label, value: s.value + VALUE_UNIT as int },
        EventView::QuitClicked => s,
    }
}

/// The state after a sequence of interactions, applied in order.
pub open spec fn apply_events(s: AppView, evs: Seq<EventView>) -> AppView
    decreases evs.len(),
{
    if evs.len() == 0 {
        s
    } else {
        apply_events(apply_event(s, evs[0]), evs.drop_first())
    }
}

/// Whether some interaction of the sequence asked to quit.
pub open spec fn any_quit(evs: Seq<EventView>) -> bool {
    exists|i: int| 0 <= i < evs.len() && evs[i] is QuitClicked
}

/// The views of a frame's interactions, in order.
pub open spec fn views_of(events: Seq<UiEvent>) -> Seq<EventView> {
    events.map_values(|e: UiEvent| e@)
}

/// Applying one more interaction after a sequence is the same as
/// appending it to the sequence.
pub proof fn lemma_apply_events_push(s: AppView, evs: Seq<EventView>, e: EventView)
    ensures
        apply_events(s, evs.push(e)) == apply_event(apply_events(s, evs), e),
    decreases evs.len(),
{
    if evs.len() == 0 {
        assert(evs.push(e)[0] == e);
        assert(evs.push(e).drop_first() =~= Seq::<EventView>::empty());
        assert(apply_events(s, evs.push(e)) == apply_events(
            apply_event(s, e),
            Seq::<EventView>::empty(),
        ));
        assert(apply_events(apply_event(s, e), Seq::<EventView>::empty()) == apply_event(s, e));
    } else {
        assert(evs.push(e)[0] == evs[0]);
        assert(evs.push(e).drop_first() =~= evs.drop_first().push(e));
        lemma_apply_events_push(apply_event(s, evs[0]), evs.drop_first(), e);
        assert(apply_events(s, evs.push(e)) == apply_events(
            apply_event(s, evs[0]),
            evs.drop_first().push(e),
        ));
        assert(apply_events(s, evs) == apply_events(apply_event(s, evs[0]), evs.drop_first()));
    }
}

/// No interaction raises the value above one unit more than where it
/// stood, or above one unit past the slider's range.
pub proof fn lemma_apply_event_bound(s: AppView, e: EventView)
    ensures
        apply_event(s, e).value <= vstd::math::max(s.value, SLIDER_MAX as int) + VALUE_UNIT as int,
{
}

impl TemplateApp {
    /// Apply one interaction to the state and say whether it asked to
    /// quit.
    pub fn handle_event(&mut self, event: &UiEvent) -> (action: UiAction)
        requires
            event@ is IncrementClicked ==> old(self)@.value + VALUE_UNIT as int <= i64::MAX as int,
        ensures
            final(self)@ == apply_event(old(self)@, event@),
            action == (if event@ is QuitClicked {
                UiAction::Quit
            } else {
                UiAction::Continue
            }),
    {
        match event {
            UiEvent::LabelEdited(text) => {
                self.set_label(text.clone());
                UiAction::Continue
            },
            UiEvent::SliderSet(v) => {
                self.set_value(*v);
                UiAction::Continue
            },
            UiEvent::IncrementClicked => {
                self.increment();
                UiAction::Continue
            },
            UiEvent::QuitClicked => UiAction::Quit,
        }
    }

    /// Apply a frame's interactions in order and say whether any of them
    /// asked to quit. The bound in `requires` is what the machine's
    /// integers force: each interaction can raise the value by at most
    /// one unit.
    pub fn render_frame(&mut self, events: &Vec<UiEvent>) -> (action: UiAction)
        requires
            vstd::math::max(old(self)@.value, SLIDER_MAX as int) + VALUE_UNIT as int
                * events@.len() <= i64::MAX as int,
        ensures
            final(self)@ == apply_events(old(self)@, views_of(events@)),
            action == (if any_quit(views_of(events@)) {
                UiAction::Quit
            } else {
                UiAction::Continue
            }),
    {
        let ghost evs = views_of(events@);
        let ghost bound = vstd::math::max(old(self)@.value, SLIDER_MAX as int);
        let mut quit = false;
        let mut i: usize = 0;
        while i < events.len()
            invariant
                i <= events@.len(),
                evs == views_of(events@),
                evs.len() == events@.len(),
                bound == vstd::math::max(old(self)@.value, SLIDER_MAX as int),
                bound + VALUE_UNIT as int * evs.len() <= i64::MAX as int,
                self@ == apply_events(old(self)@, evs.take(i as int)),
                self@.value <= bound + VALUE_UNIT as int * i,
                quit == any_quit(evs.take(i as int)),
            decreases events@.len() - i,
        {
            let ghost prefix = evs.take(i as int);
            let ghost prev = self@;
            proof {
                assert(evs[i as int] == events@[i as int]@);
                lemma_apply_events_push(old(self)@, prefix, evs[i as int]);
                assert(evs.take(i as int + 1) =~= prefix.push(evs[i as int]));
                lemma_apply_event_bound(prev, evs[i as int]);
                assert(vstd::math::max(prev.value, SLIDER_MAX as int) <= bound + VALUE_UNIT
                    as int * (i as int));
            }
            let action = self.handle_event(&events[i]);
            if action == UiAction::Quit {
                quit = true;
            }
            proof {
                let next = evs.take(i as int + 1);
                if any_quit(prefix) {
                    let w = choose|k: int| 0 <= k < prefix.len() && prefix[k] is QuitClicked;
                    assert(next[w] is QuitClicked);
                }
                if evs[i as int] is QuitClicked {
                    assert(next[i as int] is QuitClicked);
                }
                if any_quit(next) && !any_quit(prefix) && !(evs[i as int] is QuitClicked) {
                    let w = choose|k: int| 0 <= k < next.len() && next[k] is QuitClicked;
                    assert(prefix[w] == next[w]);
                }
            }
            i += 1;
        }
        proof {
            assert(evs.take(evs.len() as int) =~= evs);
        }
        if quit {
            UiAction::Quit
        } else {
            UiAction::Continue
        }
    }
}

} // verus!
