//! Task records and their extraction from the syntax tree.
//!
//! A checklist item is a list-item node whose checkbox tri-state is
//! explicitly checked or unchecked; its display text is the first text leaf
//! of its first paragraph child.  A task record holds that text with the
//! deadline pass and then the completion pass applied, the checked flag, and
//! the parsed timestamps.  The extractor visits every node of the tree once,
//! in document order, and collects the records.

use vstd::prelude::*;

use crate::annotation::{annotate, annotate_spec, COMPLETED_ICON, DEADLINE_ICON};
use crate::datetime::DateTime;
use crate::node::MdNode;

verus! {

/// One extracted unit of work.
pub struct Task {
    /// The checklist item's display text with every recognized temporal
    /// annotation removed.
    pub text: String,
    /// The checked state of the source checklist item.
    pub done: bool,
    /// Timestamp of the deadline annotation, when one was found.
    pub deadline: Option<DateTime>,
    /// Timestamp of the completion annotation, when one was found.
    pub completed_at: Option<DateTime>,
}

/// The mathematical image of a [`Task`].
pub struct TaskView {
    pub text: Seq<char>,
    pub done: bool,
    pub deadline: Option<DateTime>,
    pub completed_at: Option<DateTime>,
}

impl View for Task {
    type V = TaskView;

    open spec fn view(&self) -> TaskView {
        TaskView {
            text: self.text@,
            done: self.done,
            deadline: self.deadline,
            completed_at: self.completed_at,
        }
    }
}

impl DeepView for Task {
    type V = TaskView;

    open spec fn deep_view(&self) -> TaskView {
        self.view()
    }
}

/// Children of the first paragraph among `cs`, if there is one.
pub open spec fn first_paragraph(cs: Seq<MdNode>) -> Option<Seq<MdNode>>
    decreases cs.len(),
{
    if cs.len() == 0 {
        None
    } else {
        match cs[0] {
            MdNode::Paragraph { children } => Some(children@),
            _ => first_paragraph(cs.drop_first()),
        }
    }
}

/// Value of the first text leaf among `cs`, if there is one.
pub open spec fn first_text(cs: Seq<MdNode>) -> Option<Seq<char>>
    decreases cs.len(),
{
    if cs.len() == 0 {
        None
    } else {
        match cs[0] {
            MdNode::Text { value } => Some(value@),
            _ => first_text(cs.drop_first()),
        }
    }
}

/// Raw display text and checked flag of a checklist item: a list item with
/// an explicit checkbox state, a paragraph child, and a text leaf in that
/// paragraph.  `None` for every other node shape.
pub open spec fn checklist_text(n: MdNode) -> Option<(Seq<char>, bool)> {
    match n {
        MdNode::ListItem { checked: Some(done), children } => {
            match first_paragraph(children@) {
                Some(pcs) => match first_text(pcs) {
                    Some(t) => Some((t, done)),
                    None => None,
                },
                None => None,
            }
        },
        _ => None,
    }
}

/// The task record a node yields: its checklist text with the deadline pass
/// and then the completion pass applied, or `None` for a node that is no
/// checklist item.
pub open spec fn task_of(n: MdNode) -> Option<TaskView> {
    match checklist_text(n) {
        None => None,
        Some(raw) => {
            let first = annotate_spec(raw.0, DEADLINE_ICON);
            let second = annotate_spec(first.1, COMPLETED_ICON);
            Some(
                TaskView { text: second.1, done: raw.1, deadline: first.0, completed_at: second.0 },
            )
        },
    }
}

/// Task records of the subtree rooted at `n`, in document order.
pub open spec fn tasks_of(n: MdNode) -> Seq<TaskView>
    decreases n,
{
    (match task_of(n) {
        Some(t) => seq![t],
        None => Seq::<TaskView>::empty(),
    }) + (match n {
        MdNode::Container { children } => tasks_of_children(children@),
        MdNode::ListItem { checked: _, children } => tasks_of_children(children@),
        MdNode::Paragraph { children } => tasks_of_children(children@),
        MdNode::Text { value: _ } => Seq::<TaskView>::empty(),
    })
}

/// Task records of the subtrees rooted at `cs`, left to right.
pub open spec fn tasks_of_children(cs: Seq<MdNode>) -> Seq<TaskView>
    decreases cs,
{
    if cs.len() == 0 {
        Seq::empty()
    } else {
        tasks_of(cs[0]) + tasks_of_children(cs.drop_first())
    }
}

impl Task {
    /// Raw display text and checked flag of a checklist-item node, and
    /// `None` for any other node shape, as [`checklist_text`] reads it.
    #[verifier::loop_isolation(false)]
    pub fn extract_task_text(node: &MdNode) -> (r: Option<(String, bool)>)
        ensures
            match checklist_text(*node) {
                None => r is None,
                Some(p) => r matches Some(q) && q.0@ == p.0 && q.1 == p.1,
            },
    {
        match node {
            MdNode::ListItem { checked: Some(done), children } => {
                let mut i: usize = 0;
                proof {
                    assert(children@.skip(0) =~= children@);
                }
                while i < children.len()
                    invariant
                        i <= children@.len(),
                        first_paragraph(children@) == first_paragraph(
                            children@.skip(i as int),
                        ),
                    decreases children@.len() - i,
                {
                    proof {
                        assert(children@.skip(i as int)[0] == children@[i as int]);
                        assert(children@.skip(i as int).drop_first() =~= children@.skip(
                            i as int + 1,
                        ));
                    }
                    match &children[i] {
                        MdNode::Paragraph { children: pchildren } => {
                            return Self::first_text_value(pchildren, *done);
                        },
                        _ => {},
                    }
                    i = i + 1;
                }
                proof {
                    assert(children@.skip(children@.len() as int) =~= Seq::<MdNode>::empty());
                }
                None
            },
            _ => None,
        }
    }

    /// Value of the first text leaf among `pchildren`, paired with `done`;
    /// `None` when the paragraph holds no text leaf.
    fn first_text_value(pchildren: &Vec<MdNode>, done: bool) -> (r: Option<(String, bool)>)
        ensures
            match first_text(pchildren@) {
                None => r is None,
                Some(t) => r matches Some(q) && q.0@ == t && q.1 == done,
            },
    {
        let mut i: usize = 0;
        proof {
            assert(pchildren@.skip(0) =~= pchildren@);
        }
        while i < pchildren.len()
            invariant
                i <= pchildren@.len(),
                first_text(pchildren@) == first_text(pchildren@.skip(i as int)),
            decreases pchildren@.len() - i,
        {
            proof {
                assert(pchildren@.skip(i as int)[0] == pchildren@[i as int]);
                assert(pchildren@.skip(i as int).drop_first() =~= pchildren@.skip(i as int + 1));
            }
            match &pchildren[i] {
                MdNode::Text { value } => {
                    return Some((value.clone(), done));
                },
                _ => {},
            }
            i = i + 1;
        }
        proof {
            assert(pchildren@.skip(pchildren@.len() as int) =~= Seq::<MdNode>::empty());
        }
        None
    }

    /// Builds the task record of a checklist-item node: the deadline pass,
    /// then the completion pass on its outcome; `None` for any other node.
    pub fn from_node(node: &MdNode) -> (r: Option<Task>)
        ensures
            match task_of(*node) {
                None => r is None,
                Some(tv) => r matches Some(t) && t@ == tv,
            },
    {
        match Self::extract_task_text(node) {
            None => None,
            Some((text, done)) => {
                let (deadline, text) = annotate(text, DEADLINE_ICON);
                let (completed_at, text) = annotate(text, COMPLETED_ICON);
                Some(Task { text, done, deadline, completed_at })
            },
        }
    }
}

/// Visits `node` and every node below it once, appending the task records
/// in document order.
fn collect_tasks(node: &MdNode, out: &mut Vec<Task>)
    ensures
        final(out).deep_view() == old(out).deep_view() + tasks_of(*node),
    decreases *node,
{
    let ghost base = out.deep_view();
    match Task::from_node(node) {
        Some(t) => {
            let ghost tv = t@;
            out.push(t);
            proof {
                assert(out.deep_view() =~= base + seq![tv]);
            }
        },
        None => {},
    }
    match node {
        MdNode::Container { children } => collect_from_children(children, out),
        MdNode::ListItem { checked: _, children } => collect_from_children(children, out),
        MdNode::Paragraph { children } => collect_from_children(children, out),
        MdNode::Text { value: _ } => {},
    }
    proof {
        assert(out.deep_view() =~= base + tasks_of(*node));
    }
}

/// Visits the subtrees rooted at `cs` left to right, appending their task
/// records.
fn collect_from_children(cs: &Vec<MdNode>, out: &mut Vec<Task>)
    ensures
        final(out).deep_view() == old(out).deep_view() + tasks_of_children(cs@),
    decreases cs@,
{
    let ghost base = out.deep_view();
    let mut i: usize = 0;
    proof {
        assert(cs@.skip(0) =~= cs@);
    }
    while i < cs.len()
        invariant
            i <= cs@.len(),
            out.deep_view() + tasks_of_children(cs@.skip(i as int)) == base + tasks_of_children(
                cs@,
            ),
        decreases cs@.len() - i,
    {
        proof {
            assert(cs@.skip(i as int)[0] == cs@[i as int]);
            assert(cs@.skip(i as int).drop_first() =~= cs@.skip(i as int + 1));
        }
        let ghost before = out.deep_view();
        collect_tasks(&cs[i], out);
        proof {
            assert(out.deep_view() + tasks_of_children(cs@.skip(i as int + 1)) =~= before
                + tasks_of_children(cs@.skip(i as int)));
        }
        i = i + 1;
    }
    proof {
        assert(cs@.skip(cs@.len() as int) =~= Seq::<MdNode>::empty());
        assert(out.deep_view() =~= base + tasks_of_children(cs@));
    }
}

/// Visits every node of the tree exactly once and returns the task records
/// of all checklist items, in document order.
pub fn extract_tasks(root: &MdNode) -> (r: Vec<Task>)
    ensures
        r.deep_view() == tasks_of(*root),
{
    let mut out: Vec<Task> = Vec::new();
    proof {
        assert(out.deep_view() =~= Seq::<TaskView>::empty());
    }
    collect_tasks(root, &mut out);
    proof {
        assert(out.deep_view() =~= tasks_of(*root));
    }
    out
}

/// A list item without an explicit checkbox marker yields no task record.
pub proof fn lemma_unchecked_item_no_task(n: MdNode)
    requires
        n matches MdNode::ListItem { checked: None, children: _ },
    ensures
        task_of(n) is None,
{
}

/// A checked list item with no paragraph child, or with no text leaf in its
/// first paragraph, yields no task record.
pub proof fn lemma_no_text_no_task(n: MdNode)
    requires
        n matches MdNode::ListItem { checked: Some(_), children: cvec } && (first_paragraph(cvec@)
            is None || (first_paragraph(cvec@) matches Some(p) && first_text(p) is None)),
    ensures
        task_of(n) is None,
{
}

/// Every timestamp a task record carries names a real calendar date and a
/// real time of day: an annotation pass only accepts calendar-valid numbers.
pub proof fn lemma_timestamps_valid(n: MdNode)
    ensures
        task_of(n) matches Some(t) ==> ((t.deadline matches Some(d) ==> d.valid()) && (
        t.completed_at matches Some(c) ==> c.valid())),
{
}

/// Every task record carries exactly the checked state of its source
/// checklist item.
pub proof fn lemma_done_matches_checked(n: MdNode)
    ensures
        n matches MdNode::ListItem { checked: Some(c), children: _ } ==> (task_of(n) matches Some(
            t,
        ) ==> t.done == c),
{
}

} // verus!
