//! The compact plan-progress strip between the transcript and the composer.
//!
//! The agent's plan is the most recent todo call of the transcript: updates
//! re-emit the whole list, so the latest call carries the current state.
use vstd::prelude::*;
use crate::entry::{MessagePart, SessionMessageEntry, TodoItem, Tool};
use crate::text::{copy_option, decimal, decimal_text};
use crate::theme::{solid, solid_tint, Theme, Tint};

verus! {

/// The latest plan, reduced to what the strip paints.
#[derive(Debug, PartialEq)]
pub struct PlanProgress {
    /// Total planned steps.
    pub total: usize,
    /// Steps marked done.
    pub done: usize,
    /// First unfinished step's text; `None` only when every step is done.
    pub current: Option<String>,
}

/// The number of steps marked done.
pub open spec fn done_count(items: Seq<TodoItem>) -> nat
    decreases items.len(),
{
    if items.len() == 0 {
        0
    } else {
        done_count(items.drop_last()) + (if items.last().done {
            1nat
        } else {
            0
        })
    }
}

/// The text of the first unfinished step.
pub open spec fn first_open(items: Seq<TodoItem>) -> Option<Seq<char>>
    decreases items.len(),
{
    if items.len() == 0 {
        None
    } else if !items[0].done {
        Some(items[0].text@)
    } else {
        first_open(items.subrange(1, items.len() as int))
    }
}

/// Whether a progress is that of a list.
pub open spec fn progress_of(progress: PlanProgress, items: Seq<TodoItem>) -> bool {
    &&& progress.total == items.len()
    &&& progress.done == done_count(items)
    &&& progress.current.deep_view() == first_open(items)
}

/// The newest todo list among some parts.
pub open spec fn newest_list_in(parts: Seq<MessagePart>) -> Option<Seq<TodoItem>>
    decreases parts.len(),
{
    if parts.len() == 0 {
        None
    } else {
        match parts.last() {
            MessagePart::Tool(part) => match part.call.tool {
                Tool::Todo { items } => Some(items@),
                _ => newest_list_in(parts.drop_last()),
            },
            _ => newest_list_in(parts.drop_last()),
        }
    }
}

/// The newest todo list of a transcript: the newest entry, then the newest
/// part.
pub open spec fn newest_list(entries: Seq<SessionMessageEntry>) -> Option<Seq<TodoItem>>
    decreases entries.len(),
{
    if entries.len() == 0 {
        None
    } else if newest_list_in(entries.last().parts@) is Some {
        newest_list_in(entries.last().parts@)
    } else {
        newest_list(entries.drop_last())
    }
}

impl PlanProgress {
    /// Every step done.
    pub fn is_complete(&self) -> (r: bool)
        ensures
            r == self.current is None,
    {
        self.current.is_none()
    }

    /// The strip's bar as done steps over all steps; an empty plan fills
    /// nothing.
    pub fn fraction(&self) -> (r: (usize, usize))
        ensures
            self.total == 0 ==> r == (0usize, 1usize),
            self.total > 0 ==> r == (self.done, self.total),
    {
        if self.total == 0 {
            return (0, 1);
        }
        (self.done, self.total)
    }
}

/// The progress of a transcript: that of its newest todo list. An empty
/// newest list reads as a cleared plan.
pub fn plan_progress(entries: &Vec<SessionMessageEntry>) -> (r: Option<PlanProgress>)
    ensures
        r is Some <==> (newest_list(entries@) is Some && newest_list(entries@)->0.len() > 0),
        r matches Some(progress) ==> progress_of(progress, newest_list(entries@)->0),
{
    let mut n: usize = entries.len();
    proof {
        assert(entries@.take(n as int) =~= entries@);
    }
    while n > 0
        invariant
            n <= entries@.len(),
            newest_list(entries@) == newest_list(entries@.take(n as int)),
        decreases n,
    {
        let ghost front = entries@.take(n as int);
        let parts: &Vec<MessagePart> = &entries[n - 1].parts;
        let mut k: usize = parts.len();
        proof {
            assert(parts@.take(k as int) =~= parts@);
        }
        while k > 0
            invariant
                k <= parts@.len(),
                0 < n <= entries@.len(),
                parts@ == entries@[n - 1].parts@,
                front == entries@.take(n as int),
                newest_list(entries@) == newest_list(front),
                newest_list_in(parts@) == newest_list_in(parts@.take(k as int)),
            decreases k,
        {
            let ghost seen = parts@.take(k as int);
            match &parts[k - 1] {
                MessagePart::Tool(part) => match &part.call.tool {
                    Tool::Todo { items } => {
                        proof {
                            assert(newest_list_in(parts@) == Some(items@));
                            assert(front.last().parts@ == parts@);
                        }
                        return plan_progress_from_items(items);
                    },
                    _ => {},
                },
                _ => {},
            }
            proof {
                assert(seen.drop_last() =~= parts@.take(k - 1));
            }
            k -= 1;
        }
        proof {
            assert(front.drop_last() =~= entries@.take(n - 1));
            assert(front.last().parts@ == parts@);
        }
        n -= 1;
    }
    None
}

/// Reduces one todo list to the strip's progress.
pub fn plan_progress_from_items(items: &Vec<TodoItem>) -> (r: Option<PlanProgress>)
    ensures
        r is Some <==> items@.len() > 0,
        r matches Some(progress) ==> progress_of(progress, items@),
{
    if items.len() == 0 {
        return None;
    }
    let mut done: usize = 0;
    let mut current: Option<String> = None;
    let mut i: usize = 0;
    proof {
        assert(items@.take(0) =~= Seq::<TodoItem>::empty());
        assert(items@.subrange(0, items@.len() as int) =~= items@);
    }
    while i < items.len()
        invariant
            done <= i <= items@.len(),
            done == done_count(items@.take(i as int)),
            current is Some ==> current.deep_view() == first_open(items@),
            current is None ==> first_open(items@) == first_open(
                items@.subrange(i as int, items@.len() as int),
            ),
        decreases items@.len() - i,
    {
        let ghost rest = items@.subrange(i as int, items@.len() as int);
        proof {
            let front = items@.take(i + 1);
            assert(front.drop_last() =~= items@.take(i as int));
            assert(rest.subrange(1, rest.len() as int) =~= items@.subrange(
                i + 1,
                items@.len() as int,
            ));
        }
        if items[i].done {
            done += 1;
        } else if current.is_none() {
            current = Some(items[i].text.clone());
        }
        i += 1;
    }
    proof {
        assert(items@.take(i as int) =~= items@);
    }
    Some(PlanProgress { total: items.len(), done, current })
}

/// The mark before the strip's label.
#[derive(Debug, Clone, Copy, PartialEq, Eq, Structural)]
pub enum PlanIcon {
    Check,
    Checklist,
}

/// What the strip shows.
pub struct PlanStrip {
    pub icon: PlanIcon,
    pub icon_tint: Tint,
    pub label: &'static str,
    pub counter: String,
    pub counter_tint: Tint,
    pub fill: Tint,
    pub step: Option<String>,
}

/// The strip itself: one line of chrome, in the success hue once the plan is
/// complete.
pub fn render(progress: &PlanProgress, theme: &Theme) -> (r: PlanStrip)
    ensures
        r.counter@ == decimal_text(progress.done as nat) + "/"@ + decimal_text(
            progress.total as nat,
        ),
        r.step.deep_view() == progress.current.deep_view(),
        progress.current is None ==> {
            &&& r.icon is Check
            &&& r.label@ == "Plan complete"@
            &&& r.icon_tint == solid_tint(theme.success)
            &&& r.counter_tint == solid_tint(theme.success)
            &&& r.fill == solid_tint(theme.success)
        },
        progress.current is Some ==> {
            &&& r.icon is Checklist
            &&& r.label@ == "Plan"@
            &&& r.icon_tint == solid_tint(theme.text_muted)
            &&& r.counter_tint == (Tint { color: theme.text_muted, percent: 70 })
            &&& r.fill == solid_tint(theme.accent)
        },
{
    let mut counter: String = decimal(progress.done as u64);
    counter.append("/");
    let total: String = decimal(progress.total as u64);
    counter.append(total.as_str());
    let step: Option<String> = copy_option(&progress.current);
    if progress.is_complete() {
        PlanStrip {
            icon: PlanIcon::Check,
            icon_tint: solid(theme.success),
            label: "Plan complete",
            counter,
            counter_tint: solid(theme.success),
            fill: solid(theme.success),
            step,
        }
    } else {
        PlanStrip {
            icon: PlanIcon::Checklist,
            icon_tint: solid(theme.text_muted),
            label: "Plan",
            counter,
            counter_tint: Tint { color: theme.text_muted, percent: 70 },
            fill: solid(theme.accent),
            step,
        }
    }
}

/// A plan is complete exactly when every step is done, and never counts more
/// done steps than steps.
pub proof fn complete_means_every_step_done(items: Seq<TodoItem>)
    ensures
        done_count(items) <= items.len(),
        first_open(items) is None <==> done_count(items) == items.len(),
    decreases items.len(),
{
    if items.len() > 0 {
        let rest = items.subrange(1, items.len() as int);
        complete_means_every_step_done(rest);
        done_count_from_front(items);
    }
}

/// Counting from the front gives the same count.
proof fn done_count_from_front(items: Seq<TodoItem>)
    requires
        items.len() > 0,
    ensures
        done_count(items) == done_count(items.subrange(1, items.len() as int)) + (if items[0].done {
            1nat
        } else {
            0
        }),
    decreases items.len(),
{
    let rest = items.subrange(1, items.len() as int);
    if items.len() > 1 {
        done_count_from_front(items.drop_last());
        assert(items.drop_last().subrange(1, items.len() - 1) =~= rest.drop_last());
    } else {
        assert(items.drop_last() =~= Seq::<TodoItem>::empty());
        assert(rest =~= Seq::<TodoItem>::empty());
    }
}

} // verus!
