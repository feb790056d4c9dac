//! The laws the reducer obeys, each proved once and for all over the
//! mathematical model.

use vstd::prelude::*;

use crate::buffer::{lemma_apply_wf, spec_is_content_edit};
use crate::error::{EditorError, IoErrorKind};
use crate::model::{spec_step, ModelV, MsgV};
use crate::view::spec_status_left;

verus! {

/// The model after a whole sequence of messages, reduced in order.
pub open spec fn spec_run(m: ModelV, msgs: Seq<MsgV>) -> ModelV
    decreases msgs.len(),
{
    if msgs.len() == 0 {
        m
    } else {
        spec_run(spec_step(m, msgs.first()), msgs.drop_first())
    }
}

/// Whether the message is an `Edit`.
pub open spec fn is_edit_msg(g: MsgV) -> bool {
    match g {
        MsgV::Edit(_) => true,
        _ => false,
    }
}

/// Whether the message is an `Edit` carrying a content-modifying action.
pub open spec fn is_content_edit_msg(g: MsgV) -> bool {
    match g {
        MsgV::Edit(a) => spec_is_content_edit(a),
        _ => false,
    }
}

/// One reduction keeps the model well-formed: the cursor stays inside the
/// text.
pub proof fn lemma_step_preserves_wf(m: ModelV, g: MsgV)
    requires
        m.wf(),
    ensures
        spec_step(m, g).wf(),
{
    match g {
        MsgV::Edit(a) => lemma_apply_wf(m.buffer, a),
        _ => {},
    }
}

/// Law: the model stays well-formed under any sequence of messages.
pub proof fn lemma_run_preserves_wf(m: ModelV, msgs: Seq<MsgV>)
    requires
        m.wf(),
    ensures
        spec_run(m, msgs).wf(),
    decreases msgs.len(),
{
    if msgs.len() > 0 {
        lemma_step_preserves_wf(m, msgs.first());
        lemma_run_preserves_wf(spec_step(m, msgs.first()), msgs.drop_first());
    }
}

/// Law: after any successful load, the model is bound to the loaded path,
/// holds exactly the loaded text with the cursor at the start, is clean,
/// and shows no error.
pub proof fn lemma_clean_after_load(m: ModelV, p: Seq<char>, s: Seq<char>)
    ensures
        ({
            let m2 = spec_step(m, MsgV::FileOpened(Result::Ok((p, s))));
            &&& m2.path == Option::Some(p)
            &&& m2.buffer.text == s
            &&& m2.buffer.cursor == 0
            &&& m2.dirty == false
            &&& m2.error is None
        }),
{
}

/// Law: after any successful save, the model is bound to the path written
/// to, is clean, and shows no error.
pub proof fn lemma_clean_after_save(m: ModelV, p: Seq<char>)
    ensures
        ({
            let m2 = spec_step(m, MsgV::FileSaved(Result::Ok(p)));
            &&& m2.path == Option::Some(p)
            &&& m2.dirty == false
            &&& m2.error is None
        }),
{
}

/// A single edit message never cleans a dirty model, and a content edit
/// always dirties it.
proof fn lemma_edit_step_dirty(m: ModelV, g: MsgV)
    requires
        is_edit_msg(g),
    ensures
        m.dirty ==> spec_step(m, g).dirty,
        is_content_edit_msg(g) ==> spec_step(m, g).dirty,
{
}

/// A run of edit messages starting from a dirty model leaves it dirty.
proof fn lemma_edits_preserve_dirty(m: ModelV, msgs: Seq<MsgV>)
    requires
        m.dirty,
        forall|i: int| 0 <= i < msgs.len() ==> is_edit_msg(#[trigger] msgs[i]),
    ensures
        spec_run(m, msgs).dirty,
    decreases msgs.len(),
{
    if msgs.len() > 0 {
        lemma_edit_step_dirty(m, msgs.first());
        lemma_edits_preserve_dirty(spec_step(m, msgs.first()), msgs.drop_first());
    }
}

/// Law: any sequence of edit messages in which at least one action is
/// content-modifying leaves the model dirty, from whatever model it
/// started.
pub proof fn lemma_edits_dirty(m: ModelV, msgs: Seq<MsgV>)
    requires
        forall|i: int| 0 <= i < msgs.len() ==> is_edit_msg(#[trigger] msgs[i]),
        exists|i: int| 0 <= i < msgs.len() && is_content_edit_msg(#[trigger] msgs[i]),
    ensures
        spec_run(m, msgs).dirty,
    decreases msgs.len(),
{
    let i = choose|i: int| 0 <= i < msgs.len() && is_content_edit_msg(#[trigger] msgs[i]);
    if is_content_edit_msg(msgs.first()) {
        lemma_edit_step_dirty(m, msgs.first());
        lemma_edits_preserve_dirty(spec_step(m, msgs.first()), msgs.drop_first());
    } else {
        assert(i > 0);
        assert(msgs.drop_first()[i - 1] == msgs[i]);
        lemma_edits_dirty(spec_step(m, msgs.first()), msgs.drop_first());
    }
}

/// Law: a run of cursor-move-only or selection-only edits, applied to a
/// clean model, leaves it clean.
pub proof fn lemma_non_edits_keep_clean(m: ModelV, msgs: Seq<MsgV>)
    requires
        !m.dirty,
        forall|i: int| 0 <= i < msgs.len() ==> is_edit_msg(#[trigger] msgs[i])
            && !is_content_edit_msg(msgs[i]),
    ensures
        !spec_run(m, msgs).dirty,
    decreases msgs.len(),
{
    if msgs.len() > 0 {
        lemma_non_edits_keep_clean(spec_step(m, msgs.first()), msgs.drop_first());
    }
}

/// Law: after `New`, the path is unbound, the buffer is empty, and the
/// model is dirty.
pub proof fn lemma_new_resets(m: ModelV)
    ensures
        ({
            let m2 = spec_step(m, MsgV::New);
            &&& m2.path is None
            &&& m2.buffer.text == Seq::<char>::empty()
            &&& m2.dirty == true
        }),
{
}

/// Law: a dismissed dialog is silent — the model after the message is the
/// model before it, both for a load and for a save.
pub proof fn lemma_cancellation_silent(m: ModelV)
    ensures
        spec_step(m, MsgV::FileOpened(Result::Err(EditorError::DialogClosed))) == m,
        spec_step(m, MsgV::FileSaved(Result::Err(EditorError::DialogClosed))) == m,
{
}

/// Law: when an I/O error is stored and a path is bound, the status bar
/// shows the error text, not the path.
pub proof fn lemma_error_precedence(m: ModelV, k: IoErrorKind)
    requires
        m.error == Option::Some(EditorError::IoFailed(k)),
        m.path is Some,
    ensures
        spec_status_left(m) == k.spec_message(),
{
}

/// Law: with no path bound, the highlighter configuration falls back to the
/// `"rs"` extension.
pub proof fn lemma_extension_fallback()
    ensures
        crate::highlight::spec_extension(Option::<Seq<char>>::None) == "rs"@,
{
}

} // verus!
