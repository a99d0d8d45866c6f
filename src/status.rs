use vstd::prelude::*;

verus! {

/// One file of the loaded list, keyed by its path.
#[derive(Clone, Debug)]
pub struct SourceFile {
    pub path: String,
}

impl SourceFile {
    /// A copy of this file's record.
    pub fn duplicate(&self) -> (r: SourceFile)
        ensures
            r == *self,
    {
        SourceFile { path: self.path.clone() }
    }
}

/// Where the token count of one loaded file stands.
#[derive(Clone, Debug)]
pub enum TokenStatus {
    NotCounted,
    Counting,
    Counted(usize),
    Failed(String),
}

/// What a background count reports: the path it was started for and its result.
pub type CountMessage = (String, Result<usize, String>);

/// No two loaded files share a path.
pub open spec fn paths_distinct(files: Seq<SourceFile>) -> bool {
    forall|i: int, j: int|
        0 <= i < files.len() && 0 <= j < files.len() && i != j ==> files[i].path@ != files[j].path@
}

/// Some loaded file has path `p`.
pub open spec fn has_path(files: Seq<SourceFile>, p: Seq<char>) -> bool {
    exists|i: int| 0 <= i < files.len() && files[i].path@ == p
}

/// The status that a finished count leads to.
pub open spec fn terminal_of(res: Result<usize, String>) -> TokenStatus {
    match res {
        Ok(n) => TokenStatus::Counted(n),
        Err(m) => TokenStatus::Failed(m),
    }
}

/// A selected file whose count was never started gets a background job,
/// provided a text source is there to read it.
pub open spec fn starts_count(s: TokenStatus, selected: bool, active: bool) -> bool {
    active && selected && s is NotCounted
}

/// The statuses after one dispatch: each file that gets a job is `Counting`.
pub open spec fn dispatch_all(st: Seq<TokenStatus>, sel: Seq<bool>, active: bool) -> Seq<
    TokenStatus,
> {
    Seq::new(
        st.len(),
        |i: int|
            if starts_count(st[i], sel[i], active) {
                TokenStatus::Counting
            } else {
                st[i]
            },
    )
}

/// The files among the first `n` that one dispatch starts a job for, in order.
pub open spec fn jobs_upto(
    files: Seq<SourceFile>,
    st: Seq<TokenStatus>,
    sel: Seq<bool>,
    active: bool,
    n: int,
) -> Seq<SourceFile>
    decreases n,
{
    if n <= 0 {
        Seq::empty()
    } else {
        let before = jobs_upto(files, st, sel, active, n - 1);
        if starts_count(st[n - 1], sel[n - 1], active) {
            before.push(files[n - 1])
        } else {
            before
        }
    }
}

/// The files that one dispatch starts a job for, in list order.
pub open spec fn jobs_of(
    files: Seq<SourceFile>,
    st: Seq<TokenStatus>,
    sel: Seq<bool>,
    active: bool,
) -> Seq<SourceFile> {
    jobs_upto(files, st, sel, active, files.len() as int)
}

/// The statuses after one message: a file of that path that is being
/// counted takes the result; everything else stays.
pub open spec fn apply_msg(files: Seq<SourceFile>, st: Seq<TokenStatus>, m: CountMessage) -> Seq<
    TokenStatus,
> {
    Seq::new(
        st.len(),
        |i: int|
            if files[i].path@ == m.0@ && st[i] is Counting {
                terminal_of(m.1)
            } else {
                st[i]
            },
    )
}

/// The statuses after the messages `msgs`, taken in order.
pub open spec fn apply_all(
    files: Seq<SourceFile>,
    st: Seq<TokenStatus>,
    msgs: Seq<CountMessage>,
) -> Seq<TokenStatus>
    decreases msgs.len(),
{
    if msgs.len() == 0 {
        st
    } else {
        apply_msg(files, apply_all(files, st, msgs.drop_last()), msgs.last())
    }
}

pub open spec fn counted_value(s: TokenStatus) -> nat {
    match s {
        TokenStatus::Counted(n) => n as nat,
        _ => 0,
    }
}

/// Sum of the counts of the selected files among the first `n`.
pub open spec fn sum_upto(st: Seq<TokenStatus>, sel: Seq<bool>, n: int) -> nat
    decreases n,
{
    if n <= 0 {
        0
    } else {
        sum_upto(st, sel, n - 1) + if sel[n - 1] {
            counted_value(st[n - 1])
        } else {
            0
        }
    }
}

/// Sum of the counts of all selected files.
pub open spec fn selected_sum(st: Seq<TokenStatus>, sel: Seq<bool>) -> nat {
    sum_upto(st, sel, st.len() as int)
}

/// Number of selected files among the first `n` that have no result yet:
/// their count was not started or is under way.
pub open spec fn pending_upto(st: Seq<TokenStatus>, sel: Seq<bool>, n: int) -> nat
    decreases n,
{
    if n <= 0 {
        0
    } else {
        pending_upto(st, sel, n - 1) + if sel[n - 1] && (st[n - 1] is NotCounted || st[n - 1]
            is Counting) {
            1nat
        } else {
            0nat
        }
    }
}

/// Number of selected files among the first `n` whose count failed.
pub open spec fn failed_upto(st: Seq<TokenStatus>, sel: Seq<bool>, n: int) -> nat
    decreases n,
{
    if n <= 0 {
        0
    } else {
        failed_upto(st, sel, n - 1) + if sel[n - 1] && st[n - 1] is Failed {
            1nat
        } else {
            0nat
        }
    }
}

pub proof fn lemma_jobs_empty_after_dispatch(
    files: Seq<SourceFile>,
    st: Seq<TokenStatus>,
    sel: Seq<bool>,
    active: bool,
    n: int,
)
    requires
        st.len() == files.len(),
        sel.len() == files.len(),
        n <= files.len(),
    ensures
        jobs_upto(files, dispatch_all(st, sel, active), sel, active, n).len() == 0,
    decreases n,
{
    if n > 0 {
        lemma_jobs_empty_after_dispatch(files, st, sel, active, n - 1);
    }
}

/// Dispatching twice in a row starts no job the second time: every file that
/// the first dispatch started is `Counting`, and the second changes nothing.
pub proof fn lemma_dispatch_idempotent(
    files: Seq<SourceFile>,
    st: Seq<TokenStatus>,
    sel: Seq<bool>,
    active: bool,
)
    requires
        st.len() == files.len(),
        sel.len() == files.len(),
    ensures
        jobs_of(files, dispatch_all(st, sel, active), sel, active).len() == 0,
        dispatch_all(dispatch_all(st, sel, active), sel, active) == dispatch_all(st, sel, active),
{
    lemma_jobs_empty_after_dispatch(files, st, sel, active, files.len() as int);
    assert(dispatch_all(dispatch_all(st, sel, active), sel, active) =~= dispatch_all(
        st,
        sel,
        active,
    ));
}

/// Draining no message leaves every status, and so the sum, as it was.
pub proof fn lemma_drain_nothing(files: Seq<SourceFile>, st: Seq<TokenStatus>, sel: Seq<bool>)
    ensures
        apply_all(files, st, Seq::empty()) == st,
        selected_sum(apply_all(files, st, Seq::empty()), sel) == selected_sum(st, sel),
{
}

/// A message for a path that is not loaded changes no status.
pub proof fn lemma_stale_message_dropped(
    files: Seq<SourceFile>,
    st: Seq<TokenStatus>,
    m: CountMessage,
)
    requires
        st.len() == files.len(),
        !has_path(files, m.0@),
    ensures
        apply_msg(files, st, m) == st,
{
    assert forall|i: int| 0 <= i < st.len() implies apply_msg(files, st, m)[i] == st[i] by {
        if files[i].path@ == m.0@ {
            assert(has_path(files, m.0@));
        }
    }
    assert(apply_msg(files, st, m) =~= st);
}

/// Two messages for different paths lead to the same statuses in either order.
pub proof fn lemma_messages_commute(
    files: Seq<SourceFile>,
    st: Seq<TokenStatus>,
    m1: CountMessage,
    m2: CountMessage,
)
    requires
        st.len() == files.len(),
        m1.0@ != m2.0@,
    ensures
        apply_msg(files, apply_msg(files, st, m1), m2) == apply_msg(
            files,
            apply_msg(files, st, m2),
            m1,
        ),
{
    assert(apply_msg(files, apply_msg(files, st, m1), m2) =~= apply_msg(
        files,
        apply_msg(files, st, m2),
        m1,
    ));
}

/// The statuses after draining messages whose paths differ pairwise depend on
/// which messages came, not on their order: a file being counted takes the
/// result of the message for its path, if one came; every other status stays.
pub proof fn lemma_drain_order_independent(
    files: Seq<SourceFile>,
    st: Seq<TokenStatus>,
    msgs: Seq<CountMessage>,
    i: int,
)
    requires
        st.len() == files.len(),
        0 <= i < st.len(),
        forall|a: int, b: int|
            0 <= a < msgs.len() && 0 <= b < msgs.len() && a != b ==> msgs[a].0@ != msgs[b].0@,
    ensures
        apply_all(files, st, msgs).len() == st.len(),
        (st[i] is Counting && exists|k: int| 0 <= k < msgs.len() && msgs[k].0@ == files[i].path@)
            ==> (forall|k: int|
            0 <= k < msgs.len() && msgs[k].0@ == files[i].path@ ==> apply_all(files, st, msgs)[i]
                == terminal_of(msgs[k].1)),
        !(st[i] is Counting && exists|k: int|
            0 <= k < msgs.len() && msgs[k].0@ == files[i].path@) ==> apply_all(files, st, msgs)[i]
            == st[i],
    decreases msgs.len(),
{
    if msgs.len() > 0 {
        let rest = msgs.drop_last();
        lemma_drain_order_independent(files, st, rest, i);
        let last = msgs.last();
        if st[i] is Counting && exists|k: int|
            0 <= k < rest.len() && rest[k].0@ == files[i].path@ {
            let k0 = choose|k: int| 0 <= k < rest.len() && rest[k].0@ == files[i].path@;
            assert(msgs[k0] == rest[k0]);
            assert(last.0@ != files[i].path@) by {
                assert(msgs[msgs.len() - 1] == last);
            }
            assert forall|k: int|
                0 <= k < msgs.len() && msgs[k].0@ == files[i].path@ implies k == k0 by {
                if k != k0 {
                    assert(msgs[k].0@ != msgs[k0].0@);
                }
            }
        } else {
            assert forall|k: int|
                0 <= k < rest.len() && #[trigger] rest[k].0@ == files[i].path@ implies !(
                st[i] is Counting) by {
                assert(rest[k] == msgs[k]);
            }
            if st[i] is Counting && last.0@ == files[i].path@ {
                assert forall|k: int|
                    0 <= k < msgs.len() && msgs[k].0@ == files[i].path@ implies k == msgs.len()
                    - 1 by {
                    if k != msgs.len() - 1 {
                        assert(msgs[k] == rest[k]);
                    }
                }
                assert(msgs[msgs.len() - 1] == last);
            } else {
                assert forall|k: int|
                    0 <= k < msgs.len() && msgs[k].0@ == files[i].path@ implies !(
                    st[i] is Counting) by {
                    if k < msgs.len() - 1 {
                        assert(msgs[k] == rest[k]);
                    } else {
                        assert(msgs[k] == last);
                    }
                }
            }
        }
    }
}

} // verus!
