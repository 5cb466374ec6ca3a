//! Properties of editing sessions over sequences of key events.
use vstd::prelude::*;
use serde_json::Value;
use crate::app::{
    commit, run, step, toggled, CurrentScreen, CurrentlyEditing, KeyCode, KeyEvent, KeyEventKind,
    Session,
};
use crate::entries::{insert_entry, key_index, lookup, lemma_insert_keeps_unique, keys_unique};
use crate::json::{classification, json_parse, null_text};
use crate::text::{all_white, lemma_trim_all_white};

verus! {

/// The characters that a sequence of key events types into the key field,
/// starting with focus `mode`: presses of characters while the key field
/// has the focus, the focus moving with each Tab.
pub open spec fn typed_into_key(mode: Option<CurrentlyEditing>, evs: Seq<KeyEvent>) -> Seq<char>
    decreases evs.len(),
{
    if evs.len() == 0 {
        Seq::empty()
    } else {
        let ev = evs[0];
        let rest = evs.drop_first();
        if ev.kind != KeyEventKind::Press {
            typed_into_key(mode, rest)
        } else {
            match ev.code {
                KeyCode::Char(c) => if mode == Some(CurrentlyEditing::Key) {
                    seq![c] + typed_into_key(mode, rest)
                } else {
                    typed_into_key(mode, rest)
                },
                KeyCode::Tab => typed_into_key(toggled(mode), rest),
                _ => typed_into_key(mode, rest),
            }
        }
    }
}

/// Key events that only type characters or move the focus: no Enter, no
/// Escape, no Backspace.
pub open spec fn text_entry_only(evs: Seq<KeyEvent>) -> bool {
    forall|i: int|
        0 <= i < evs.len() ==> match (#[trigger] evs[i]).code {
            KeyCode::Char(_) | KeyCode::Tab | KeyCode::Other => true,
            _ => false,
        }
}

/// On the editing screen, while nothing commits or leaves it, the key
/// buffer grows by exactly the characters typed while the key field has
/// the focus.
pub proof fn lemma_key_buffer_fidelity(s: Session, evs: Seq<KeyEvent>)
    requires
        s.screen == CurrentScreen::Editing,
        !s.quit,
        text_entry_only(evs),
    ensures
        run(s, evs).key == s.key + typed_into_key(s.editing, evs),
        run(s, evs).screen == CurrentScreen::Editing,
    decreases evs.len(),
{
    if evs.len() == 0 {
        assert(s.key + Seq::<char>::empty() =~= s.key);
    } else {
        let ev = evs[0];
        let rest = evs.drop_first();
        let s1 = step(s, ev);
        assert(text_entry_only(rest)) by {
            assert forall|i: int| 0 <= i < rest.len() implies match (#[trigger] rest[i]).code {
                KeyCode::Char(_) | KeyCode::Tab | KeyCode::Other => true,
                _ => false,
            } by {
                assert(rest[i] == evs[i + 1]);
            }
        }
        assert(text_entry_only(evs));
        let c0 = ev.code;
        assert(match c0 {
            KeyCode::Char(_) | KeyCode::Tab | KeyCode::Other => true,
            _ => false,
        });
        lemma_key_buffer_fidelity(s1, rest);
        if ev.kind == KeyEventKind::Press {
            if let KeyCode::Char(c) = ev.code {
                if s.editing == Some(CurrentlyEditing::Key) {
                    assert(s.key.push(c) + typed_into_key(s.editing, rest) =~= s.key + (seq![c]
                        + typed_into_key(s.editing, rest)));
                }
            }
        }
    }
}

/// A blank value is stored as the literal `null` would be, and committing
/// a blank value for the same key a second time changes no entry.
pub proof fn lemma_blank_commit_is_null(s: Session)
    requires
        s.wf(),
        all_white(s.value),
    ensures
        classification(s.value) == json_parse(null_text()),
        json_parse(null_text()) is Ok ==> lookup(commit(s).entries, s.key) == Some(
            json_parse(null_text())->Ok_0,
        ),
        commit(Session { key: s.key, value: s.value, ..commit(s) }).entries == commit(s).entries,
{
    lemma_trim_all_white(s.value);
    if let Ok(v) = json_parse(null_text()) {
        lemma_insert_keeps_unique(s.entries, s.key, v);
        lemma_insert_twice(s.entries, s.key, v);
    }
}

/// Inserting the same pair twice is inserting it once.
pub proof fn lemma_insert_twice(es: Seq<(Seq<char>, Value)>, k: Seq<char>, v: Value)
    requires
        keys_unique(es),
    ensures
        insert_entry(insert_entry(es, k, v), k, v) == insert_entry(es, k, v),
{
    let once = insert_entry(es, k, v);
    lemma_insert_keeps_unique(es, k, v);
    let i = key_index(once, k)->0;
    assert(once[i] == (k, v));
    assert(once.update(i, (k, v)) =~= once);
}

/// Escape on the editing screen returns to the main screen with no focus,
/// whatever the focus and the buffers were, and leaves the entries alone.
pub proof fn lemma_escape_returns_to_main(s: Session)
    requires
        s.screen == CurrentScreen::Editing,
        !s.quit,
    ensures
        ({
            let t = step(s, KeyEvent { code: KeyCode::Esc, kind: KeyEventKind::Press });
            &&& t.screen == CurrentScreen::Main
            &&& t.editing is None
            &&& t.entries == s.entries
        }),
{
}

/// Tab on the editing screen gives the key field the focus where none had
/// it, else moves it to the other field; a second Tab moves it back, and
/// the focus is never lost.
pub proof fn lemma_tab_alternates(s: Session)
    requires
        s.screen == CurrentScreen::Editing,
        !s.quit,
    ensures
        ({
            let tab = KeyEvent { code: KeyCode::Tab, kind: KeyEventKind::Press };
            let t = step(s, tab);
            let u = step(t, tab);
            &&& t.screen == CurrentScreen::Editing
            &&& t.editing is Some
            &&& u.editing is Some
            &&& s.editing is None ==> t.editing == Some(CurrentlyEditing::Key)
            &&& s.editing is Some ==> t.editing != s.editing && u.editing == s.editing
            &&& u.editing != t.editing
            &&& t.key == s.key && t.value == s.value && t.entries == s.entries
        }),
{
}

/// The answer to the exit question ends the session, and prints exactly
/// when it is `y`.
pub proof fn lemma_exit_answer(s: Session, ev: KeyEvent)
    requires
        s.screen == CurrentScreen::Exiting,
        !s.quit,
        ev.kind != KeyEventKind::Release,
        ev.code == KeyCode::Char('y') || ev.code == KeyCode::Char('n'),
    ensures
        step(s, ev).quit,
        step(s, ev).print == (ev.code == KeyCode::Char('y')),
{
}

/// Once the session has quit, no key event changes it.
pub proof fn lemma_quit_is_terminal(s: Session, evs: Seq<KeyEvent>)
    requires
        s.quit,
    ensures
        run(s, evs) == s,
    decreases evs.len(),
{
    if evs.len() > 0 {
        lemma_quit_is_terminal(step(s, evs[0]), evs.drop_first());
    }
}

} // verus!
