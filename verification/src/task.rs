use vstd::prelude::*;

use crate::event::Feedback;
use crate::html::Html;
use crate::id::{Generator, Id};
use crate::interact::{interact_event_ens, interact_value_of, Interact};
use crate::parallel::{Combine, Parallel};
use crate::share::{ShareRegistry, ViewerEntry};
use crate::task_value::TaskValue;
use crate::value::{tv_view, Value, ValueV};
use crate::view::{view_html, Viewer};

verus! {

/// Errors a running task can raise.
///
/// `Feedback` reports that two composed branches produced structurally
/// incompatible feedback: a composition error, fatal to the task.
#[derive(Clone, Copy, Debug, PartialEq, Eq, Structural, Hash)]
pub enum TaskError {
    Feedback,
}

/// The share identities a task exposes: none, one cell, or the pair of
/// both branches' shares under a `Both` composition.
#[derive(Debug, PartialEq, Eq, Hash)]
pub enum ShareRef {
    Nothing,
    One(Id),
    Pair(Box<ShareRef>, Box<ShareRef>),
}

/// The closed composition tree of running tasks.
#[derive(Debug, PartialEq, Eq, Hash)]
pub enum Task {
    Interact(Interact),
    Viewer(Viewer),
    Parallel(Box<Parallel>),
}

/// Two feedback streams are structurally incompatible when both replace
/// the same element.
pub open spec fn replace_conflict(a: Seq<Feedback>, b: Seq<Feedback>) -> bool {
    exists|i: int, j: int|
        0 <= i < a.len() && 0 <= j < b.len() && (#[trigger] a[i]).is_replace() && (
        #[trigger] b[j]).is_replace() && a[i].target() == b[j].target()
}

fn fb_is_replace(f: &Feedback) -> (r: bool)
    ensures
        r == f.is_replace(),
{
    match f {
        Feedback::Replace { .. } => true,
        _ => false,
    }
}

fn fb_target(f: &Feedback) -> (r: Id)
    ensures
        r == f.target(),
{
    match f {
        Feedback::Insert { id, .. } => *id,
        Feedback::Replace { id, .. } => *id,
        Feedback::Append { id, .. } => *id,
        Feedback::Remove { id } => *id,
        Feedback::Valid { id } => *id,
        Feedback::Invalid { id } => *id,
    }
}

/// Merges two branches' feedback by concatenation in left-to-right order;
/// structurally incompatible streams are a fatal composition error.
pub fn merged_with(a: Vec<Feedback>, b: Vec<Feedback>) -> (r: Result<Vec<Feedback>, TaskError>)
    ensures
        !replace_conflict(a@, b@) ==> (r matches Ok(v) && v@ == a@ + b@),
        replace_conflict(a@, b@) ==> r == Err::<Vec<Feedback>, TaskError>(TaskError::Feedback),
{
    let mut i: usize = 0;
    let an = a.len();
    let bn = b.len();
    while i < an
        invariant
            i <= an,
            an == a.len(),
            bn == b.len(),
            forall|k: int, j: int|
                0 <= k < i && 0 <= j < b@.len() ==> !((#[trigger] a@[k]).is_replace() && (
                #[trigger] b@[j]).is_replace() && a@[k].target() == b@[j].target()),
        decreases an - i,
    {
        if fb_is_replace(&a[i]) {
            let t = fb_target(&a[i]);
            let mut j: usize = 0;
            while j < bn
                invariant
                    j <= bn,
                    i < an,
                    an == a.len(),
                    bn == b.len(),
                    a@[i as int].is_replace(),
                    t == a@[i as int].target(),
                    forall|l: int|
                        0 <= l < j ==> !((#[trigger] b@[l]).is_replace() && b@[l].target() == t),
                decreases bn - j,
            {
                if fb_is_replace(&b[j]) {
                    let u = fb_target(&b[j]);
                    if u == t {
                        return Err(TaskError::Feedback);
                    }
                }
                j = j + 1;
            }
        }
        i = i + 1;
    }
    let mut out = a;
    let mut rest = b;
    out.append(&mut rest);
    Ok(out)
}

/// What a `Both` composition's value is: the lattice merge of the branch
/// values, the surviving contents paired up.
pub open spec fn tv_pair(a: TaskValue<ValueV>, b: TaskValue<ValueV>) -> TaskValue<ValueV> {
    match a.spec_and(b) {
        TaskValue::Stable((x, y)) => TaskValue::Stable(ValueV::Pair(Box::new(x), Box::new(y))),
        TaskValue::Unstable((x, y)) => TaskValue::Unstable(
            ValueV::Pair(Box::new(x), Box::new(y)),
        ),
        TaskValue::Empty => TaskValue::Empty,
    }
}

/// The value a task currently denotes, computed fresh on demand.
pub open spec fn task_value_of(t: Task, reg: ShareRegistry) -> TaskValue<ValueV>
    decreases t,
{
    match t {
        Task::Interact(a) => interact_value_of(a),
        Task::Viewer(v) => reg.value_of(v.share),
        Task::Parallel(p) => match p.combine {
            Combine::Both => tv_pair(
                task_value_of(p.tasks.0, reg),
                task_value_of(p.tasks.1, reg),
            ),
            Combine::Either => task_value_of(p.tasks.0, reg).spec_or(
                task_value_of(p.tasks.1, reg),
            ),
            Combine::Left => task_value_of(p.tasks.0, reg),
            Combine::Right => task_value_of(p.tasks.1, reg),
        },
    }
}

/// The share identities a task exposes under each policy. An `Either`
/// composition deliberately exposes no share value: its policy only
/// requires the two branches to agree on the kind of share they carry.
pub open spec fn share_of(t: Task) -> ShareRef
    decreases t,
{
    match t {
        Task::Interact(a) => match a.share {
            Some(s) => ShareRef::One(s),
            None => ShareRef::Nothing,
        },
        Task::Viewer(v) => ShareRef::One(v.share),
        Task::Parallel(p) => match p.combine {
            Combine::Both => ShareRef::Pair(
                Box::new(share_of(p.tasks.0)),
                Box::new(share_of(p.tasks.1)),
            ),
            Combine::Either => ShareRef::Nothing,
            Combine::Left => share_of(p.tasks.0),
            Combine::Right => share_of(p.tasks.1),
        },
    }
}

/// The markup a task renders to: both branch trees concatenated.
pub open spec fn task_repr(t: Task, reg: ShareRegistry) -> Seq<char>
    decreases t,
{
    match t {
        Task::Interact(a) => a.editor.html_spec(),
        Task::Viewer(v) => view_html(v.id, v.color, reg.value_of(v.share)),
        Task::Parallel(p) => task_repr(p.tasks.0, reg) + task_repr(p.tasks.1, reg),
    }
}

/// How many identifiers starting the task allocates.
pub open spec fn task_needs(t: Task) -> int
    decreases t,
{
    match t {
        Task::Interact(a) => a.editor.start_needs(),
        Task::Viewer(_) => 1,
        Task::Parallel(p) => task_needs(p.tasks.0) + task_needs(p.tasks.1),
    }
}

/// How many leaf tasks the tree holds; each can allocate at most three
/// identifiers while handling one event.
pub open spec fn task_leaves(t: Task) -> int
    decreases t,
{
    match t {
        Task::Interact(_) => 1,
        Task::Viewer(_) => 1,
        Task::Parallel(p) => task_leaves(p.tasks.0) + task_leaves(p.tasks.1),
    }
}

/// A tree has at least one leaf.
pub proof fn lemma_task_leaves_pos(t: Task)
    ensures
        task_leaves(t) >= 1,
    decreases t,
{
    match t {
        Task::Parallel(p) => {
            lemma_task_leaves_pos(p.tasks.0);
            lemma_task_leaves_pos(p.tasks.1);
        },
        _ => {},
    }
}

/// Starting a task allocates a non-negative number of identifiers.
pub proof fn lemma_task_needs_nonneg(t: Task)
    ensures
        task_needs(t) >= 0,
    decreases t,
{
    match t {
        Task::Parallel(p) => {
            lemma_task_needs_nonneg(p.tasks.0);
            lemma_task_needs_nonneg(p.tasks.1);
        },
        _ => {},
    }
}

/// Structural invariant of a started task tree.
pub open spec fn task_wf(t: Task) -> bool
    decreases t,
{
    match t {
        Task::Interact(a) => a.editor.wf(),
        Task::Viewer(v) => v.id.0 != 0,
        Task::Parallel(p) => task_wf(p.tasks.0) && task_wf(p.tasks.1),
    }
}

/// Every identifier the task owns was allocated below `b`.
pub open spec fn task_below(t: Task, b: u64) -> bool
    decreases t,
{
    match t {
        Task::Interact(a) => a.editor.below(b),
        Task::Viewer(v) => v.id.0 < b,
        Task::Parallel(p) => task_below(p.tasks.0, b) && task_below(p.tasks.1, b),
    }
}

/// Identifier bounds persist as the allocator grows.
pub proof fn lemma_task_below_mono(t: Task, b1: u64, b2: u64)
    requires
        task_below(t, b1),
        b1 <= b2,
    ensures
        task_below(t, b2),
    decreases t,
{
    match t {
        Task::Parallel(p) => {
            lemma_task_below_mono(p.tasks.0, b1, b2);
            lemma_task_below_mono(p.tasks.1, b1, b2);
        },
        _ => {},
    }
}

/// Exact effect of starting a task tree: identifiers are allocated in
/// left-to-right branch order, each leaf taking the next ones.
pub open spec fn task_start_ens(pre: Task, post: Task, g0: Generator) -> bool
    decreases pre,
{
    match (pre, post) {
        (Task::Interact(a), Task::Interact(b)) => b.share == a.share
            && crate::editor::AnyEditor::start_ens(a.editor, b.editor, g0),
        (Task::Viewer(a), Task::Viewer(b)) => b == (Viewer { id: Id(g0.next), ..a }),
        (Task::Parallel(p), Task::Parallel(q)) => q.combine == p.combine && task_start_ens(
            p.tasks.0,
            q.tasks.0,
            g0,
        ) && task_start_ens(
            p.tasks.1,
            q.tasks.1,
            Generator { next: (g0.next + task_needs(p.tasks.0)) as u64 },
        ),
        _ => false,
    }
}

/// The viewer bindings a started task tree has registered, in
/// left-to-right order.
pub open spec fn task_bindings(t: Task) -> Seq<ViewerEntry>
    decreases t,
{
    match t {
        Task::Interact(_) => Seq::empty(),
        Task::Viewer(v) => seq![
            ViewerEntry { element: v.id, share: v.share, color: v.color },
        ],
        Task::Parallel(p) => task_bindings(p.tasks.0) + task_bindings(p.tasks.1),
    }
}

/// Relation between two branch results and the merged one: an error in a
/// branch is fatal; otherwise the streams either conflict, which is fatal,
/// or concatenate.
pub open spec fn merge_rel(
    ra: Result<Vec<Feedback>, TaskError>,
    rb: Result<Vec<Feedback>, TaskError>,
    r: Result<Vec<Feedback>, TaskError>,
) -> bool {
    if ra is Err || rb is Err {
        r is Err
    } else if replace_conflict(ra->Ok_0@, rb->Ok_0@) {
        r == Err::<Vec<Feedback>, TaskError>(TaskError::Feedback)
    } else {
        r matches Ok(v) && v@ == ra->Ok_0@ + rb->Ok_0@
    }
}

/// Marks the intermediate state between the two branches of a composite
/// step; used only to guide instantiation.
pub open spec fn step_witness(
    gm: Generator,
    regm: ShareRegistry,
    ra: Result<Vec<Feedback>, TaskError>,
) -> bool {
    true
}

/// Marks the right branch's result in a composite step; used only to
/// guide instantiation.
pub open spec fn branch_witness(rb: Result<Vec<Feedback>, TaskError>) -> bool {
    true
}

/// Exact effect of routing one event through a task tree: every branch of
/// every composition sees the event, in left-to-right order, and the
/// feedback streams are merged by concatenation.
pub open spec fn task_event_ens(
    pre: Task,
    post: Task,
    ev: crate::event::Event,
    g0: Generator,
    g1: Generator,
    reg0: ShareRegistry,
    reg1: ShareRegistry,
    r: Result<Vec<Feedback>, TaskError>,
) -> bool
    decreases pre,
{
    match (pre, post) {
        (Task::Interact(a), Task::Interact(b)) => interact_event_ens(
            a,
            b,
            ev,
            g0,
            g1,
            reg0,
            reg1,
            r,
        ),
        (Task::Viewer(a), Task::Viewer(b)) => a == b && g1 == g0 && reg1 == reg0 && r is Ok
            && r->Ok_0@.len() == 0,
        (Task::Parallel(p), Task::Parallel(q)) => {
            &&& q.combine == p.combine
            &&& exists|gm: Generator, regm: ShareRegistry, ra: Result<Vec<Feedback>, TaskError>|
                {
                    &&& #[trigger] step_witness(gm, regm, ra)
                    &&& task_event_ens(p.tasks.0, q.tasks.0, ev, g0, gm, reg0, regm, ra)
                    &&& if ra is Err {
                        q.tasks.1 == p.tasks.1 && g1 == gm && reg1 == regm && r == ra
                    } else {
                        exists|rb: Result<Vec<Feedback>, TaskError>|
                            {
                                &&& #[trigger] branch_witness(rb)
                                &&& task_event_ens(p.tasks.1, q.tasks.1, ev, gm, g1, regm, reg1, rb)
                                &&& merge_rel(ra, rb, r)
                            }
                    }
                }
        },
        _ => false,
    }
}

/// A step of a lone interaction task is a step of the tree holding it.
pub proof fn lemma_step_interact(
    pre: Interact,
    post: Interact,
    ev: crate::event::Event,
    g0: Generator,
    g1: Generator,
    reg0: ShareRegistry,
    reg1: ShareRegistry,
    r: Result<Vec<Feedback>, TaskError>,
)
    requires
        interact_event_ens(pre, post, ev, g0, g1, reg0, reg1, r),
    ensures
        task_event_ens(Task::Interact(pre), Task::Interact(post), ev, g0, g1, reg0, reg1, r),
{
}

/// A viewer ignores every event: the tree holding it steps to itself.
pub proof fn lemma_step_viewer(
    v: Viewer,
    ev: crate::event::Event,
    g0: Generator,
    reg0: ShareRegistry,
    r: Result<Vec<Feedback>, TaskError>,
)
    requires
        r is Ok,
        r->Ok_0@.len() == 0,
    ensures
        task_event_ens(Task::Viewer(v), Task::Viewer(v), ev, g0, g0, reg0, reg0, r),
{
}

/// A failing left branch aborts the composite step.
pub proof fn lemma_step_parallel_err(
    pb: Box<Parallel>,
    qb: Box<Parallel>,
    ev: crate::event::Event,
    g0: Generator,
    gm: Generator,
    reg0: ShareRegistry,
    regm: ShareRegistry,
    ra: Result<Vec<Feedback>, TaskError>,
)
    requires
        qb.combine == pb.combine,
        task_event_ens(pb.tasks.0, qb.tasks.0, ev, g0, gm, reg0, regm, ra),
        ra is Err,
        qb.tasks.1 == pb.tasks.1,
    ensures
        task_event_ens(Task::Parallel(pb), Task::Parallel(qb), ev, g0, gm, reg0, regm, ra),
{
    let pre = Task::Parallel(pb);
    let post = Task::Parallel(qb);
    assert(pre->Parallel_0 == pb);
    assert(post->Parallel_0 == qb);
    assert(task_event_ens(pre, post, ev, g0, gm, reg0, regm, ra)) by {
        assert(step_witness(gm, regm, ra));
        assert(task_event_ens(pre->Parallel_0.tasks.0, post->Parallel_0.tasks.0, ev, g0, gm, reg0, regm, ra));
    }
}

/// A composite step: both branches step in order and the feedback streams
/// merge.
pub proof fn lemma_step_parallel_ok(
    pb: Box<Parallel>,
    qb: Box<Parallel>,
    ev: crate::event::Event,
    g0: Generator,
    gm: Generator,
    g1: Generator,
    reg0: ShareRegistry,
    regm: ShareRegistry,
    reg1: ShareRegistry,
    ra: Result<Vec<Feedback>, TaskError>,
    rb: Result<Vec<Feedback>, TaskError>,
    r: Result<Vec<Feedback>, TaskError>,
)
    requires
        qb.combine == pb.combine,
        task_event_ens(pb.tasks.0, qb.tasks.0, ev, g0, gm, reg0, regm, ra),
        ra is Ok,
        task_event_ens(pb.tasks.1, qb.tasks.1, ev, gm, g1, regm, reg1, rb),
        merge_rel(ra, rb, r),
    ensures
        task_event_ens(Task::Parallel(pb), Task::Parallel(qb), ev, g0, g1, reg0, reg1, r),
{
    let pre = Task::Parallel(pb);
    let post = Task::Parallel(qb);
    assert(pre->Parallel_0 == pb);
    assert(post->Parallel_0 == qb);
    assert(task_event_ens(pre, post, ev, g0, g1, reg0, reg1, r)) by {
        assert(step_witness(gm, regm, ra));
        assert(branch_witness(rb));
        assert(task_event_ens(pre->Parallel_0.tasks.0, post->Parallel_0.tasks.0, ev, g0, gm, reg0, regm, ra));
        assert(task_event_ens(pre->Parallel_0.tasks.1, post->Parallel_0.tasks.1, ev, gm, g1, regm, reg1, rb));
    }
}

impl Task {
    /// Starts the task: allocates every owned element identifier, in
    /// left-to-right branch order, and registers each viewer's binding.
    pub fn start(&mut self, gen: &mut Generator, reg: &mut ShareRegistry)
        requires
            old(gen).wf(),
            old(gen).next + task_needs(*old(self)) <= u64::MAX,
        ensures
            final(gen).wf(),
            final(gen).next == old(gen).next + task_needs(*old(self)),
            task_wf(*final(self)),
            task_below(*final(self), final(gen).next),
            final(reg).cells == old(reg).cells,
            final(reg).viewers@ == old(reg).viewers@ + task_bindings(*final(self)),
            task_start_ens(*old(self), *final(self), *old(gen)),
        decreases *old(self),
    {
        match self {
            Task::Interact(a) => {
                a.start(gen, reg);
                proof {
                    assert(reg.viewers@ =~= old(reg).viewers@ + task_bindings(*self));
                }
            },
            Task::Viewer(v) => {
                v.start(gen, reg);
                proof {
                    assert(reg.viewers@ =~= old(reg).viewers@ + task_bindings(*self));
                }
            },
            Task::Parallel(p) => {
                proof {
                    lemma_task_needs_nonneg(old(self)->Parallel_0.tasks.0);
                    lemma_task_needs_nonneg(old(self)->Parallel_0.tasks.1);
                }
                p.tasks.0.start(gen, reg);
                let ghost gmid = *gen;
                let ghost regmid = *reg;
                p.tasks.1.start(gen, reg);
                proof {
                    lemma_task_below_mono(self->Parallel_0.tasks.0, gmid.next, gen.next);
                    assert(reg.viewers@ =~= old(reg).viewers@ + task_bindings(*self));
                    assert(gmid == (Generator {
                        next: (old(gen).next + task_needs(old(self)->Parallel_0.tasks.0)) as u64,
                    }));
                }
            },
        }
    }

    /// Routes one event, per [`task_event_ens`]: both branches of every
    /// composition see it; only owners produce non-empty feedback.
    #[verifier::rlimit(50)]
    pub fn on_event(
        &mut self,
        event: &crate::event::Event,
        gen: &mut Generator,
        reg: &mut ShareRegistry,
    ) -> (r: Result<Vec<Feedback>, TaskError>)
        requires
            task_wf(*old(self)),
            task_below(*old(self), old(gen).next),
            old(gen).wf(),
            old(gen).next + 3 * task_leaves(*old(self)) <= u64::MAX,
            old(reg).wf(),
        ensures
            task_event_ens(
                *old(self),
                *final(self),
                *event,
                *old(gen),
                *final(gen),
                *old(reg),
                *final(reg),
                r,
            ),
            task_wf(*final(self)),
            task_below(*final(self), final(gen).next),
            final(gen).wf(),
            final(gen).next >= old(gen).next,
            final(gen).next <= old(gen).next + 3 * task_leaves(*old(self)),
            final(reg).wf(),
            final(reg).viewers == old(reg).viewers,
            forall|b: u64| old(reg).below(b) ==> final(reg).below(b),
        decreases *old(self),
    {
        match self {
            Task::Interact(a) => {
                let r = a.on_event(event, gen, reg);
                proof {
                    let ghost r_g = r;
                    lemma_step_interact(
                        old(self)->Interact_0,
                        self->Interact_0,
                        *event,
                        *old(gen),
                        *gen,
                        *old(reg),
                        *reg,
                        r_g,
                    );
                }
                r
            },
            Task::Viewer(v) => {
                let r = v.on_event(event);
                proof {
                    assert(r is None);
                }
                let out: Vec<Feedback> = Vec::new();
                proof {
                    lemma_step_viewer(
                        *v,
                        *event,
                        *old(gen),
                        *old(reg),
                        Ok::<Vec<Feedback>, TaskError>(out),
                    );
                }
                Ok(out)
            },
            Task::Parallel(p) => {
                proof {
                    lemma_task_leaves_pos(old(self)->Parallel_0.tasks.0);
                    lemma_task_leaves_pos(old(self)->Parallel_0.tasks.1);
                }
                let ra = p.tasks.0.on_event(event, gen, reg);
                let ghost gmid = *gen;
                let ghost regmid = *reg;
                let ghost ra_g = ra;
                match ra {
                    Err(e) => {
                        proof {
                            lemma_task_below_mono(
                                self->Parallel_0.tasks.1,
                                old(gen).next,
                                gen.next,
                            );
                            lemma_step_parallel_err(
                                old(self)->Parallel_0,
                                self->Parallel_0,
                                *event,
                                *old(gen),
                                gmid,
                                *old(reg),
                                regmid,
                                ra_g,
                            );
                        }
                        Err(e)
                    },
                    Ok(a_out) => {
                        let ghost a_out_g = a_out;
                        proof {
                            lemma_task_below_mono(
                                old(self)->Parallel_0.tasks.1,
                                old(gen).next,
                                gen.next,
                            );
                        }
                        let rb = p.tasks.1.on_event(event, gen, reg);
                        let ghost rb_g = rb;
                        match rb {
                            Err(e) => {
                                proof {
                                    lemma_task_below_mono(
                                        self->Parallel_0.tasks.0,
                                        gmid.next,
                                        gen.next,
                                    );
                                    assert(merge_rel(
                                        ra_g,
                                        rb_g,
                                        Err::<Vec<Feedback>, TaskError>(e),
                                    ));
                                    lemma_step_parallel_ok(
                                        old(self)->Parallel_0,
                                        self->Parallel_0,
                                        *event,
                                        *old(gen),
                                        gmid,
                                        *gen,
                                        *old(reg),
                                        regmid,
                                        *reg,
                                        ra_g,
                                        rb_g,
                                        Err::<Vec<Feedback>, TaskError>(e),
                                    );
                                }
                                Err(e)
                            },
                            Ok(b_out) => {
                                let ghost b_out_g = b_out;
                                let merged = merged_with(a_out, b_out);
                                proof {
                                    let ghost merged_g = merged;
                                    lemma_task_below_mono(
                                        self->Parallel_0.tasks.0,
                                        gmid.next,
                                        gen.next,
                                    );
                                    assert(merge_rel(ra_g, rb_g, merged_g));
                                    lemma_step_parallel_ok(
                                        old(self)->Parallel_0,
                                        self->Parallel_0,
                                        *event,
                                        *old(gen),
                                        gmid,
                                        *gen,
                                        *old(reg),
                                        regmid,
                                        *reg,
                                        ra_g,
                                        rb_g,
                                        merged_g,
                                    );
                                }
                                merged
                            },
                        }
                    },
                }
            },
        }
    }

    /// Snapshot of the task's current value, computed fresh on demand and
    /// never caching across events; safely callable at any time.
    pub fn value(&self, reg: &ShareRegistry) -> (r: TaskValue<Value>)
        ensures
            tv_view(r) == task_value_of(*self, *reg),
        decreases *self,
    {
        match self {
            Task::Interact(a) => a.value(),
            Task::Viewer(v) => v.value(reg),
            Task::Parallel(p) => {
                match p.combine {
                    Combine::Both => {
                        let a = p.tasks.0.value(reg);
                        let b = p.tasks.1.value(reg);
                        match a.and(b) {
                            TaskValue::Stable((x, y)) => TaskValue::Stable(
                                Value::Pair(Box::new(x), Box::new(y)),
                            ),
                            TaskValue::Unstable((x, y)) => TaskValue::Unstable(
                                Value::Pair(Box::new(x), Box::new(y)),
                            ),
                            TaskValue::Empty => TaskValue::Empty,
                        }
                    },
                    Combine::Either => {
                        let a = p.tasks.0.value(reg);
                        let b = p.tasks.1.value(reg);
                        a.or(b)
                    },
                    Combine::Left => p.tasks.0.value(reg),
                    Combine::Right => p.tasks.1.value(reg),
                }
            },
        }
    }

    /// The policy-selected share identities.
    pub fn share(&self) -> (r: ShareRef)
        ensures
            r == share_of(*self),
        decreases *self,
    {
        match self {
            Task::Interact(a) => match a.share {
                Some(s) => ShareRef::One(s),
                None => ShareRef::Nothing,
            },
            Task::Viewer(v) => ShareRef::One(v.share),
            Task::Parallel(p) => match p.combine {
                Combine::Both => ShareRef::Pair(
                    Box::new(p.tasks.0.share()),
                    Box::new(p.tasks.1.share()),
                ),
                Combine::Either => ShareRef::Nothing,
                Combine::Left => p.tasks.0.share(),
                Combine::Right => p.tasks.1.share(),
            },
        }
    }

    /// Renders the whole element tree; a pure function of task state and
    /// of the observed shares' current values.
    pub fn to_repr(&self, reg: &ShareRegistry) -> (h: Html)
        requires
            task_wf(*self),
        ensures
            h@ == task_repr(*self, *reg),
        decreases *self,
    {
        match self {
            Task::Interact(a) => a.to_repr(),
            Task::Viewer(v) => v.to_html(reg),
            Task::Parallel(p) => {
                let mut left = p.tasks.0.to_repr(reg);
                let right = p.tasks.1.to_repr(reg);
                left.0.append(right.0.as_str());
                left
            },
        }
    }
}

} // verus!
