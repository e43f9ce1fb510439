//! Unsent composer text kept per session, so that switching sessions and
//! back restores what was being typed. The drafts are modelled as a list
//! of (session id, text) pairs; an empty text is never kept.

use vstd::prelude::*;
use crate::json::str_eq;
use crate::model::diff::SessionKey;
use crate::model::composer_edit::ComposerState;

verus! {

/// The unsent text of one session.
#[derive(Debug, Clone, PartialEq, Eq)]
pub struct ComposerDraft {
    pub session_id: SessionKey,
    pub text: String,
}

pub type DraftsModel = Seq<(Seq<char>, Seq<char>)>;

pub open spec fn draft_view(d: ComposerDraft) -> (Seq<char>, Seq<char>) {
    (d.session_id.0@, d.text@)
}

pub open spec fn drafts_view(s: Seq<ComposerDraft>) -> DraftsModel {
    s.map_values(|d: ComposerDraft| draft_view(d))
}

/// Index of the first draft of `id` at or after `j`.
pub open spec fn first_of(m: DraftsModel, id: Seq<char>, j: int) -> Option<int>
    decreases m.len() - j,
{
    if j < 0 || j >= m.len() {
        None
    } else if m[j].0 == id {
        Some(j)
    } else {
        first_of(m, id, j + 1)
    }
}

/// The drafts without empty texts, in order.
pub open spec fn drop_empty(m: DraftsModel) -> DraftsModel
    decreases m.len(),
{
    if m.len() == 0 {
        m
    } else {
        (if m[0].1.len() > 0 { seq![m[0]] } else { Seq::empty() }) + drop_empty(m.drop_first())
    }
}

/// The drafts of sessions other than `id`, in order.
pub open spec fn keep_others(m: DraftsModel, id: Seq<char>) -> DraftsModel
    decreases m.len(),
{
    if m.len() == 0 {
        m
    } else {
        (if m[0].0 != id { seq![m[0]] } else { Seq::empty() }) + keep_others(m.drop_first(), id)
    }
}

/// Saving `text` as the draft of `id`: the first draft of `id` takes the
/// text, or a new draft is added when there is none and the text is not
/// empty; then empty drafts are dropped.
pub open spec fn spec_persist(m: DraftsModel, id: Seq<char>, text: Seq<char>) -> DraftsModel {
    drop_empty(
        match first_of(m, id, 0) {
            Some(i) => m.update(i, (id, text)),
            None => if text.len() > 0 { m.push((id, text)) } else { m },
        },
    )
}

/// The saved draft of `id`; empty when there is none.
pub open spec fn spec_load(m: DraftsModel, id: Seq<char>) -> Seq<char> {
    match first_of(m, id, 0) {
        Some(i) => m[i].1,
        None => Seq::empty(),
    }
}

/// Drafts as this module keeps them: one per session, none empty.
pub open spec fn drafts_wf(m: DraftsModel) -> bool {
    &&& forall|a: int, b: int| 0 <= a < b < m.len() ==> (#[trigger] m[a]).0 != (#[trigger] m[b]).0
    &&& forall|k: int| 0 <= k < m.len() ==> (#[trigger] m[k]).1.len() > 0
}

// ---------------------------------------------------------------------
// Lemmas.

proof fn lemma_first_of_found(m: DraftsModel, id: Seq<char>, j: int)
    ensures
        first_of(m, id, j) matches Some(i) ==> j <= i < m.len() && m[i].0 == id
            && forall|k: int| j <= k < i ==> (#[trigger] m[k]).0 != id,
        first_of(m, id, j) is None ==> forall|k: int| 0 <= j <= k < m.len() ==> (#[trigger] m[k]).0 != id,
    decreases m.len() - j,
{
    if 0 <= j < m.len() && m[j].0 != id {
        lemma_first_of_found(m, id, j + 1);
    }
}

proof fn lemma_first_of_unique(m: DraftsModel, id: Seq<char>, i: int, j: int)
    requires
        0 <= j <= i < m.len(),
        m[i].0 == id,
        forall|k: int| j <= k < i ==> (#[trigger] m[k]).0 != id,
    ensures
        first_of(m, id, j) == Some(i),
    decreases i - j,
{
    if j < i {
        lemma_first_of_unique(m, id, i, j + 1);
    }
}

proof fn lemma_first_of_absent(m: DraftsModel, id: Seq<char>, j: int)
    requires
        0 <= j,
        forall|k: int| j <= k < m.len() ==> (#[trigger] m[k]).0 != id,
    ensures
        first_of(m, id, j) is None,
    decreases m.len() - j,
{
    if j < m.len() {
        lemma_first_of_absent(m, id, j + 1);
    }
}

proof fn lemma_drop_empty_all_kept(m: DraftsModel)
    requires
        forall|k: int| 0 <= k < m.len() ==> (#[trigger] m[k]).1.len() > 0,
    ensures
        drop_empty(m) == m,
    decreases m.len(),
{
    if m.len() > 0 {
        let rest = m.drop_first();
        assert forall|k: int| 0 <= k < rest.len() implies (#[trigger] rest[k]).1.len() > 0 by {
            assert(rest[k] == m[k + 1]);
        }
        lemma_drop_empty_all_kept(rest);
        assert(seq![m[0]] + rest =~= m);
    }
}

proof fn lemma_drop_empty_one(m: DraftsModel, i: int)
    requires
        0 <= i < m.len(),
        m[i].1.len() == 0,
        forall|k: int| 0 <= k < m.len() && k != i ==> (#[trigger] m[k]).1.len() > 0,
    ensures
        drop_empty(m) == m.remove(i),
    decreases m.len(),
{
    let rest = m.drop_first();
    if i == 0 {
        assert forall|k: int| 0 <= k < rest.len() implies (#[trigger] rest[k]).1.len() > 0 by {
            assert(rest[k] == m[k + 1]);
        }
        lemma_drop_empty_all_kept(rest);
        assert(Seq::<(Seq<char>, Seq<char>)>::empty() + rest =~= m.remove(0));
    } else {
        assert forall|k: int| 0 <= k < rest.len() && k != i - 1 implies (#[trigger] rest[k]).1.len() > 0 by {
            assert(rest[k] == m[k + 1]);
        }
        lemma_drop_empty_one(rest, i - 1);
        assert(seq![m[0]] + rest.remove(i - 1) =~= m.remove(i));
    }
}

proof fn lemma_keep_others_excludes(m: DraftsModel, id: Seq<char>)
    ensures
        forall|k: int| 0 <= k < keep_others(m, id).len() ==> (#[trigger] keep_others(m, id)[k]).0 != id,
    decreases m.len(),
{
    if m.len() > 0 {
        let rest = m.drop_first();
        lemma_keep_others_excludes(rest, id);
        let head: DraftsModel = if m[0].0 != id { seq![m[0]] } else { Seq::empty() };
        assert forall|k: int| 0 <= k < keep_others(m, id).len() implies (#[trigger] keep_others(m, id)[k]).0 != id by {
            if k >= head.len() {
                assert(keep_others(m, id)[k] == keep_others(rest, id)[k - head.len()]);
            }
        }
    }
}

// ---------------------------------------------------------------------
// Laws.

/// Saving a draft and loading it back gives the saved text.
pub proof fn law_persist_then_load_round_trip(m: DraftsModel, id: Seq<char>, text: Seq<char>)
    requires
        drafts_wf(m),
    ensures
        spec_load(spec_persist(m, id, text), id) == text,
{
    lemma_first_of_found(m, id, 0);
    match first_of(m, id, 0) {
        Some(i) => {
            let m1 = m.update(i, (id, text));
            if text.len() > 0 {
                lemma_drop_empty_all_kept(m1);
                assert forall|k: int| 0 <= k < i implies (#[trigger] m1[k]).0 != id by {
                    assert(m1[k] == m[k]);
                }
                lemma_first_of_unique(m1, id, i, 0);
            } else {
                lemma_drop_empty_one(m1, i);
                let m2 = m1.remove(i);
                assert forall|k: int| 0 <= k < m2.len() implies (#[trigger] m2[k]).0 != id by {
                    if k < i {
                        assert(m2[k] == m[k]);
                    } else {
                        assert(m2[k] == m[k + 1]);
                    }
                }
                lemma_first_of_absent(m2, id, 0);
                assert(text =~= Seq::<char>::empty());
            }
        },
        None => {
            if text.len() > 0 {
                let m1 = m.push((id, text));
                lemma_drop_empty_all_kept(m1);
                assert forall|k: int| 0 <= k < m.len() implies (#[trigger] m1[k]).0 != id by {
                    assert(m1[k] == m[k]);
                }
                lemma_first_of_unique(m1, id, m.len() as int, 0);
            } else {
                lemma_drop_empty_all_kept(m);
                assert(text =~= Seq::<char>::empty());
            }
        },
    }
}

/// Saving a draft keeps one draft per session and no empty one.
pub proof fn law_persist_keeps_drafts_wf(m: DraftsModel, id: Seq<char>, text: Seq<char>)
    requires
        drafts_wf(m),
    ensures
        drafts_wf(spec_persist(m, id, text)),
{
    lemma_first_of_found(m, id, 0);
    match first_of(m, id, 0) {
        Some(i) => {
            let m1 = m.update(i, (id, text));
            if text.len() > 0 {
                lemma_drop_empty_all_kept(m1);
                assert forall|a: int, b: int| 0 <= a < b < m1.len() implies (#[trigger] m1[a]).0 != (#[trigger] m1[b]).0 by {
                    assert(m[a].0 != m[b].0);
                }
            } else {
                lemma_drop_empty_one(m1, i);
                let m2 = m1.remove(i);
                assert forall|a: int, b: int| 0 <= a < b < m2.len() implies (#[trigger] m2[a]).0 != (#[trigger] m2[b]).0 by {
                    let oa = if a < i { a } else { a + 1 };
                    let ob = if b < i { b } else { b + 1 };
                    assert(m2[a] == m[oa]);
                    assert(m2[b] == m[ob]);
                    assert(m[oa].0 != m[ob].0);
                }
                assert forall|k: int| 0 <= k < m2.len() implies (#[trigger] m2[k]).1.len() > 0 by {
                    if k < i {
                        assert(m2[k] == m[k]);
                    } else {
                        assert(m2[k] == m[k + 1]);
                    }
                }
            }
        },
        None => {
            if text.len() > 0 {
                let m1 = m.push((id, text));
                lemma_drop_empty_all_kept(m1);
                assert forall|a: int, b: int| 0 <= a < b < m1.len() implies (#[trigger] m1[a]).0 != (#[trigger] m1[b]).0 by {
                    if b == m.len() {
                        assert(m1[a] == m[a]);
                    } else {
                        assert(m[a].0 != m[b].0);
                    }
                }
            } else {
                lemma_drop_empty_all_kept(m);
            }
        },
    }
}

/// Saving the draft of one session leaves the draft of every other session
/// as it was.
pub proof fn law_persist_keeps_other_sessions(m: DraftsModel, id: Seq<char>, text: Seq<char>, other: Seq<char>)
    requires
        drafts_wf(m),
        other != id,
    ensures
        spec_load(spec_persist(m, id, text), other) == spec_load(m, other),
{
    lemma_first_of_found(m, id, 0);
    lemma_first_of_found(m, other, 0);
    let mo = first_of(m, other, 0);
    match first_of(m, id, 0) {
        Some(i) => {
            let m1 = m.update(i, (id, text));
            let m2 = if text.len() > 0 {
                lemma_drop_empty_all_kept(m1);
                m1
            } else {
                lemma_drop_empty_one(m1, i);
                m1.remove(i)
            };
            match mo {
                Some(j) => {
                    let j2 = if text.len() == 0 && j > i { j - 1 } else { j };
                    assert(m2[j2] == m[j]);
                    assert forall|k: int| 0 <= k < j2 implies (#[trigger] m2[k]).0 != other by {
                        if text.len() > 0 || k < i {
                            assert(m2[k] == m1[k]);
                        } else {
                            assert(m2[k] == m1[k + 1]);
                        }
                    }
                    lemma_first_of_unique(m2, other, j2, 0);
                },
                None => {
                    assert forall|k: int| 0 <= k < m2.len() implies (#[trigger] m2[k]).0 != other by {
                        if text.len() > 0 || k < i {
                            assert(m2[k] == m1[k]);
                        } else {
                            assert(m2[k] == m1[k + 1]);
                        }
                    }
                    lemma_first_of_absent(m2, other, 0);
                },
            }
        },
        None => {
            let m2 = if text.len() > 0 {
                let m1 = m.push((id, text));
                lemma_drop_empty_all_kept(m1);
                m1
            } else {
                lemma_drop_empty_all_kept(m);
                m
            };
            match mo {
                Some(j) => {
                    assert(m2[j] == m[j]);
                    assert forall|k: int| 0 <= k < j implies (#[trigger] m2[k]).0 != other by {
                        assert(m2[k] == m[k]);
                    }
                    lemma_first_of_unique(m2, other, j, 0);
                },
                None => {
                    assert forall|k: int| 0 <= k < m2.len() implies (#[trigger] m2[k]).0 != other by {
                        if k < m.len() {
                            assert(m2[k] == m[k]);
                        }
                    }
                    lemma_first_of_absent(m2, other, 0);
                },
            }
        },
    }
}

/// Leaving session `a` with `text` typed, entering `b`, then leaving `b`
/// with its loaded draft untouched and loading `a` again gives back `text`.
pub proof fn law_switch_away_and_back_restores_draft(m: DraftsModel, a: Seq<char>, b: Seq<char>, text: Seq<char>)
    requires
        drafts_wf(m),
    ensures
        ({
            let d1 = spec_persist(m, a, text);
            let d2 = spec_persist(d1, b, spec_load(d1, b));
            spec_load(d2, a) == text
        }),
{
    let d1 = spec_persist(m, a, text);
    law_persist_keeps_drafts_wf(m, a, text);
    law_persist_then_load_round_trip(m, a, text);
    if a == b {
        law_persist_then_load_round_trip(d1, b, spec_load(d1, b));
    } else {
        law_persist_keeps_other_sessions(d1, b, spec_load(d1, b), a);
    }
}

/// After clearing a session's draft, loading it gives nothing.
pub proof fn law_clear_then_load_is_empty(m: DraftsModel, id: Seq<char>)
    ensures
        spec_load(keep_others(m, id), id) == Seq::<char>::empty(),
{
    lemma_keep_others_excludes(m, id);
    lemma_first_of_absent(keep_others(m, id), id, 0);
}

// ---------------------------------------------------------------------
// Executable parts.

fn drop_empty_drafts(v: Vec<ComposerDraft>) -> (r: Vec<ComposerDraft>)
    ensures
        drafts_view(r@) == drop_empty(drafts_view(v@)),
{
    let ghost orig = drafts_view(v@);
    let mut rest = v;
    let mut out: Vec<ComposerDraft> = Vec::new();
    proof {
        assert(drafts_view(out@) =~= Seq::<(Seq<char>, Seq<char>)>::empty());
        assert(drafts_view(out@) + drop_empty(drafts_view(rest@)) =~= drop_empty(orig));
    }
    while rest.len() > 0
        invariant
            drafts_view(out@) + drop_empty(drafts_view(rest@)) == drop_empty(orig),
        decreases rest.len(),
    {
        let ghost before = rest@;
        let d = rest.remove(0);
        proof {
            assert(drafts_view(rest@) =~= drafts_view(before).drop_first());
            assert(drafts_view(before)[0] == draft_view(d));
        }
        if !d.text.as_str().is_empty() {
            let ghost o = out@;
            out.push(d);
            proof {
                assert(drafts_view(out@) =~= drafts_view(o) + seq![draft_view(d)]);
            }
        }
    }
    proof {
        assert(drop_empty(drafts_view(rest@)) =~= Seq::<(Seq<char>, Seq<char>)>::empty());
        assert(drafts_view(out@) + Seq::<(Seq<char>, Seq<char>)>::empty() =~= drafts_view(out@));
    }
    out
}

fn keep_other_drafts(v: Vec<ComposerDraft>, id: &str) -> (r: Vec<ComposerDraft>)
    ensures
        drafts_view(r@) == keep_others(drafts_view(v@), id@),
{
    let ghost orig = drafts_view(v@);
    let mut rest = v;
    let mut out: Vec<ComposerDraft> = Vec::new();
    proof {
        assert(drafts_view(out@) =~= Seq::<(Seq<char>, Seq<char>)>::empty());
        assert(drafts_view(out@) + keep_others(drafts_view(rest@), id@) =~= keep_others(orig, id@));
    }
    while rest.len() > 0
        invariant
            drafts_view(out@) + keep_others(drafts_view(rest@), id@) == keep_others(orig, id@),
        decreases rest.len(),
    {
        let ghost before = rest@;
        let d = rest.remove(0);
        proof {
            assert(drafts_view(rest@) =~= drafts_view(before).drop_first());
            assert(drafts_view(before)[0] == draft_view(d));
        }
        if !str_eq(d.session_id.0.as_str(), id) {
            let ghost o = out@;
            out.push(d);
            proof {
                assert(drafts_view(out@) =~= drafts_view(o) + seq![draft_view(d)]);
            }
        }
    }
    proof {
        assert(drafts_view(out@) + keep_others(drafts_view(rest@), id@) =~= drafts_view(out@));
    }
    out
}

fn find_draft(drafts: &Vec<ComposerDraft>, id: &str) -> (r: usize)
    ensures
        r <= drafts@.len(),
        r < drafts@.len() <==> first_of(drafts_view(drafts@), id@, 0) is Some,
        r < drafts@.len() ==> first_of(drafts_view(drafts@), id@, 0) == Some(r as int),
{
    let ghost m = drafts_view(drafts@);
    let mut i: usize = 0;
    while i < drafts.len() && !str_eq(drafts[i].session_id.0.as_str(), id)
        invariant
            i <= drafts@.len(),
            m == drafts_view(drafts@),
            first_of(m, id@, 0) == first_of(m, id@, i as int),
        decreases drafts.len() - i,
    {
        proof { assert(m[i as int] == draft_view(drafts@[i as int])); }
        i += 1;
    }
    proof {
        if i < drafts.len() {
            assert(m[i as int] == draft_view(drafts@[i as int]));
        }
    }
    i
}

impl ComposerState {
    /// Save the composer's text as the draft of `session_id` (see
    /// [`spec_persist`]); nothing without a session.
    pub fn persist_composer_draft_for_selected_session(&mut self, session_id: Option<&SessionKey>)
        ensures
            final(self).composer == old(self).composer,
            final(self).composer_cursor == old(self).composer_cursor,
            match session_id {
                Some(id) => drafts_view(final(self).composer_drafts@) == spec_persist(
                    drafts_view(old(self).composer_drafts@),
                    id.0@,
                    old(self).composer@,
                ),
                None => final(self).composer_drafts@ == old(self).composer_drafts@,
            },
    {
        let id = match session_id {
            Some(id) => id,
            None => {
                return;
            },
        };
        let ghost m = drafts_view(self.composer_drafts@);
        let text = self.composer.clone();
        let i = find_draft(&self.composer_drafts, id.0.as_str());
        let mut drafts: Vec<ComposerDraft> = Vec::new();
        std::mem::swap(&mut drafts, &mut self.composer_drafts);
        if i < drafts.len() {
            let ghost before = drafts@;
            let old_draft = drafts.remove(i);
            let ComposerDraft { session_id: key, text: _ } = old_draft;
            proof {
                lemma_first_of_found(m, id.0@, 0);
                assert(m[i as int] == draft_view(before[i as int]));
            }
            drafts.insert(i, ComposerDraft { session_id: key, text });
            proof {
                assert(drafts_view(drafts@) =~= m.update(i as int, (id.0@, text@)));
            }
        } else if !text.as_str().is_empty() {
            let ghost before = drafts@;
            drafts.push(ComposerDraft { session_id: SessionKey(id.0.clone()), text });
            proof {
                assert(drafts_view(drafts@) =~= m.push((id.0@, text@)));
            }
        }
        self.composer_drafts = drop_empty_drafts(drafts);
    }

    /// Load the draft of `session_id` into the composer (empty without a
    /// session or a draft); the cursor goes to the end.
    pub fn load_composer_draft_for_selected_session(&mut self, session_id: Option<&SessionKey>)
        ensures
            final(self).composer_drafts@ == old(self).composer_drafts@,
            final(self).composer_cursor.is_none(),
            final(self).composer@ == match session_id {
                Some(id) => spec_load(drafts_view(old(self).composer_drafts@), id.0@),
                None => Seq::<char>::empty(),
            },
    {
        self.composer_cursor = None;
        let id = match session_id {
            Some(id) => id,
            None => {
                self.composer = String::new();
                return;
            },
        };
        let i = find_draft(&self.composer_drafts, id.0.as_str());
        if i < self.composer_drafts.len() {
            self.composer = self.composer_drafts[i].text.clone();
            proof {
                assert(drafts_view(self.composer_drafts@)[i as int] == draft_view(self.composer_drafts@[i as int]));
            }
        } else {
            self.composer = String::new();
        }
    }

    /// Empty the composer and forget the draft of `session_id`.
    pub fn clear_current_composer_draft(&mut self, session_id: Option<&SessionKey>)
        ensures
            final(self).composer@ == Seq::<char>::empty(),
            final(self).composer_cursor.is_none(),
            match session_id {
                Some(id) => drafts_view(final(self).composer_drafts@) == keep_others(
                    drafts_view(old(self).composer_drafts@),
                    id.0@,
                ),
                None => final(self).composer_drafts@ == old(self).composer_drafts@,
            },
    {
        self.composer = String::new();
        self.composer_cursor = None;
        if let Some(id) = session_id {
            let mut drafts: Vec<ComposerDraft> = Vec::new();
            std::mem::swap(&mut drafts, &mut self.composer_drafts);
            self.composer_drafts = keep_other_drafts(drafts, id.0.as_str());
        }
    }
}

} // verus!
