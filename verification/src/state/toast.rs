//! Short notifications shown over the interface until dismissed.
use vstd::prelude::*;

verus! {

/// How serious a notification is.
#[derive(Clone, Copy, Debug, PartialEq, Eq)]
pub enum ToastKind {
    Info,
    Warning,
    Error,
}

/// One notification; its id tells it apart from the others on screen.
#[derive(Clone, Debug, PartialEq)]
pub struct Toast {
    pub id: u32,
    pub kind: ToastKind,
    pub message: String,
}

/// The id after `id`: one more, wrapping to 0 after `u32::MAX`.
pub open spec fn next_toast_id(id: u32) -> u32 {
    if id == u32::MAX {
        0
    } else {
        (id + 1) as u32
    }
}

/// The source of toast ids: ids are handed out in turn, starting at 1.
pub struct ToastIds {
    next: u32,
}

impl ToastIds {
    /// The id that the next toast receives.
    pub closed spec fn peek(&self) -> u32 {
        self.next
    }

    /// A source whose first id is 1.
    pub fn new() -> (r: Self)
        ensures
            r.peek() == 1,
    {
        ToastIds { next: 1 }
    }

    /// Hands out the next id.
    pub fn take(&mut self) -> (r: u32)
        ensures
            r == old(self).peek(),
            final(self).peek() == next_toast_id(r),
    {
        let id = self.next;
        self.next = if id == u32::MAX {
            0
        } else {
            id + 1
        };
        id
    }
}

impl Toast {
    /// A notification of the given kind with the next id of `ids`.
    pub fn new(ids: &mut ToastIds, kind: ToastKind, message: String) -> (r: Self)
        ensures
            r.id == old(ids).peek(),
            final(ids).peek() == next_toast_id(old(ids).peek()),
            r.kind == kind,
            r.message == message,
    {
        Self { id: ids.take(), kind, message }
    }

    /// An informational notification.
    pub fn info(ids: &mut ToastIds, message: String) -> (r: Self)
        ensures
            r.id == old(ids).peek(),
            final(ids).peek() == next_toast_id(old(ids).peek()),
            r.kind == ToastKind::Info,
            r.message == message,
    {
        Self::new(ids, ToastKind::Info, message)
    }

    /// A warning.
    pub fn warning(ids: &mut ToastIds, message: String) -> (r: Self)
        ensures
            r.id == old(ids).peek(),
            final(ids).peek() == next_toast_id(old(ids).peek()),
            r.kind == ToastKind::Warning,
            r.message == message,
    {
        Self::new(ids, ToastKind::Warning, message)
    }

    /// An error notification.
    pub fn error(ids: &mut ToastIds, message: String) -> (r: Self)
        ensures
            r.id == old(ids).peek(),
            final(ids).peek() == next_toast_id(old(ids).peek()),
            r.kind == ToastKind::Error,
            r.message == message,
    {
        Self::new(ids, ToastKind::Error, message)
    }
}

/// The toasts of `s` whose id is not `id`, in their order.
pub open spec fn without_id(s: Seq<Toast>, id: u32) -> Seq<Toast> {
    s.filter(|t: Toast| t.id != id)
}

/// The notifications on screen, oldest first, and the source of their ids.
pub struct ToastStack {
    toasts: Vec<Toast>,
    ids: ToastIds,
}

impl View for ToastStack {
    type V = Seq<Toast>;

    closed spec fn view(&self) -> Seq<Toast> {
        self.toasts@
    }
}

impl ToastStack {
    /// The id that the next pushed toast receives.
    pub closed spec fn next_id(&self) -> u32 {
        self.ids.peek()
    }

    /// No toast on screen; the first one gets id 1.
    pub fn new() -> (r: Self)
        ensures
            r@ == Seq::<Toast>::empty(),
            r.next_id() == 1,
    {
        ToastStack { toasts: Vec::new(), ids: ToastIds::new() }
    }

    /// The toasts on screen, oldest first.
    pub fn toasts(&self) -> (r: &Vec<Toast>)
        ensures
            r@ == self@,
    {
        &self.toasts
    }

    /// Shows a new notification after the others, with the next id.
    pub fn push_toast(&mut self, kind: ToastKind, message: String)
        ensures
            final(self)@ == old(self)@.push(
                Toast { id: old(self).next_id(), kind, message },
            ),
            final(self).next_id() == next_toast_id(old(self).next_id()),
    {
        let t = Toast::new(&mut self.ids, kind, message);
        self.toasts.push(t);
    }

    /// Removes the notifications with the given id; the others keep their order.
    pub fn dismiss_toast(&mut self, id: u32)
        ensures
            final(self)@ == without_id(old(self)@, id),
            final(self).next_id() == old(self).next_id(),
    {
        let ghost old_toasts = self.toasts@;
        let mut kept: Vec<Toast> = Vec::new();
        let n = self.toasts.len();
        let mut i: usize = 0;
        while i < n
            invariant
                n == old_toasts.len(),
                self.toasts@ == old_toasts,
                i <= n,
                kept@ == without_id(old_toasts.take(i as int), id),
            decreases n - i,
        {
            reveal_with_fuel(Seq::filter, 1);
            assert(old_toasts.take(i + 1).drop_last() =~= old_toasts.take(i as int));
            let t = &self.toasts[i];
            if t.id != id {
                kept.push(Toast { id: t.id, kind: t.kind, message: t.message.clone() });
            }
            i = i + 1;
        }
        assert(old_toasts.take(n as int) =~= old_toasts);
        self.toasts = kept;
    }

    /// Removes every notification.
    pub fn clear_toasts(&mut self)
        ensures
            final(self)@ == Seq::<Toast>::empty(),
            final(self).next_id() == old(self).next_id(),
    {
        self.toasts = Vec::new();
    }
}

/// Dismissing an id that no toast on screen has changes nothing.
pub proof fn lemma_dismiss_absent_id(s: Seq<Toast>, id: u32)
    requires
        forall|i: int| 0 <= i < s.len() ==> #[trigger] s[i].id != id,
    ensures
        without_id(s, id) == s,
    decreases s.len(),
{
    reveal_with_fuel(Seq::filter, 1);
    if s.len() > 0 {
        lemma_dismiss_absent_id(s.drop_last(), id);
        assert(s.drop_last().push(s.last()) =~= s);
    } else {
        assert(s.filter(|t: Toast| t.id != id) =~= s);
    }
}

/// Dismissing the toast just pushed, when its id was not on screen before,
/// gives back the toasts that were on screen.
pub proof fn lemma_push_then_dismiss(s: Seq<Toast>, t: Toast)
    requires
        forall|i: int| 0 <= i < s.len() ==> #[trigger] s[i].id != t.id,
    ensures
        without_id(s.push(t), t.id) == s,
{
    reveal_with_fuel(Seq::filter, 1);
    lemma_dismiss_absent_id(s, t.id);
    assert(s.push(t).drop_last() =~= s);
}

/// Dismissing removes every toast with the id and keeps every other one.
pub proof fn lemma_dismiss_removes_only(s: Seq<Toast>, id: u32)
    ensures
        forall|i: int| 0 <= i < without_id(s, id).len() ==> #[trigger] without_id(s, id)[i].id != id,
        forall|t: Toast| s.contains(t) && t.id != id ==> #[trigger] without_id(s, id).contains(t),
{
    let f = |t: Toast| t.id != id;
    assert forall|i: int| 0 <= i < without_id(s, id).len() implies #[trigger] without_id(
        s,
        id,
    )[i].id != id by {
        s.lemma_filter_pred(f, i);
    }
    assert forall|t: Toast| s.contains(t) && t.id != id implies #[trigger] without_id(
        s,
        id,
    ).contains(t) by {
        let k = choose|k: int| 0 <= k < s.len() && s[k] == t;
        s.lemma_filter_contains(f, k);
    }
}

/// The id a source hands out after `n` more ids, starting from `start`.
pub open spec fn id_after(start: u32, n: nat) -> u32
    decreases n,
{
    if n == 0 {
        start
    } else {
        next_toast_id(id_after(start, (n - 1) as nat))
    }
}

/// A new source hands out 1, 2, 3, … in turn: the `n`-th id it hands out
/// (counting from 0) is `n + 1`, so the first `u32::MAX` toasts made from one
/// source have distinct ids, each at least 1, each larger than the ones
/// before it.
pub proof fn lemma_new_source_ids(n: nat, m: nat)
    requires
        n < m,
        m < u32::MAX,
    ensures
        id_after(1, n) == n + 1,
        id_after(1, m) == m + 1,
        1 <= id_after(1, n) < id_after(1, m),
{
    lemma_id_after_counts(n);
    lemma_id_after_counts(m);
}

proof fn lemma_id_after_counts(n: nat)
    requires
        n < u32::MAX,
    ensures
        id_after(1, n) == n + 1,
    decreases n,
{
    if n > 0 {
        lemma_id_after_counts((n - 1) as nat);
    }
}

/// Consecutive toasts get different ids.
pub proof fn lemma_next_id_differs(id: u32)
    ensures
        next_toast_id(id) != id,
{
}

} // verus!
