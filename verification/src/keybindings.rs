//! Key bindings: which character triggers which action on a screen.

use crate::actions::Action;
use crate::error::AppError;
use crate::states::Lifecycle;
use vstd::prelude::*;

verus! {

/// One trigger character, the label shown for it, and the action it
/// produces.
#[derive(Debug, Clone, PartialEq, Eq)]
pub struct Keybinding {
    pub key: char,
    pub name: String,
    pub action: Action,
}

/// A binding as a plain value.
pub struct KeybindingView {
    pub key: char,
    pub name: Seq<char>,
    pub action: Action,
}

impl DeepView for Keybinding {
    type V = KeybindingView;

    open spec fn deep_view(&self) -> KeybindingView {
        KeybindingView { key: self.key, name: self.name@, action: self.action }
    }
}

/// No two bindings of `bindings` share a trigger character.
pub open spec fn unique_triggers(bindings: Seq<KeybindingView>) -> bool {
    forall|i: int, j: int|
        0 <= i < j < bindings.len() ==> (#[trigger] bindings[i]).key != (#[trigger] bindings[j]).key
}

/// One of the first `upto` bindings is triggered by `key`.
pub open spec fn has_trigger_before(bindings: Seq<KeybindingView>, key: char, upto: int) -> bool {
    exists|i: int| 0 <= i < upto && i < bindings.len() && (#[trigger] bindings[i]).key == key
}

/// Some binding of `bindings` is triggered by `key`.
pub open spec fn has_trigger(bindings: Seq<KeybindingView>, key: char) -> bool {
    has_trigger_before(bindings, key, bindings.len() as int)
}

/// The binding at `j` repeats the trigger of an earlier one.
pub open spec fn repeats_earlier(bindings: Seq<KeybindingView>, j: int) -> bool {
    0 <= j < bindings.len() && has_trigger_before(bindings, bindings[j].key, j)
}

/// The action of the first binding at or after `start` that `key` triggers.
pub open spec fn resolve_from(bindings: Seq<KeybindingView>, key: char, start: int) -> Option<Action>
    decreases bindings.len() - start,
{
    if start < 0 || start >= bindings.len() {
        None
    } else if bindings[start].key == key {
        Some(bindings[start].action)
    } else {
        resolve_from(bindings, key, start + 1)
    }
}

/// The action that `key` resolves to: that of the first binding it
/// triggers, if it triggers any.
pub open spec fn resolve(bindings: Seq<KeybindingView>, key: char) -> Option<Action> {
    resolve_from(bindings, key, 0)
}

/// Looks `key` up in `bindings`. The first binding that it triggers wins.
pub fn find_action(bindings: &Vec<Keybinding>, key: char) -> (found: Option<Action>)
    ensures
        found == resolve(bindings.deep_view(), key),
{
    let ghost view = bindings.deep_view();
    let mut i: usize = 0;
    while i < bindings.len()
        invariant
            i <= bindings.len(),
            view == bindings.deep_view(),
            resolve(view, key) == resolve_from(view, key, i as int),
        decreases bindings.len() - i,
    {
        assert(view[i as int] == bindings@[i as int].deep_view());
        if bindings[i].key == key {
            return Some(bindings[i].action);
        }
        i += 1;
    }
    None
}

/// Whether one of the first `upto` bindings is triggered by `key`.
fn triggered_before(bindings: &Vec<Keybinding>, key: char, upto: usize) -> (found: bool)
    requires
        upto <= bindings.len(),
    ensures
        found == has_trigger_before(bindings.deep_view(), key, upto as int),
{
    let ghost view = bindings.deep_view();
    let mut i: usize = 0;
    while i < upto
        invariant
            i <= upto <= bindings.len(),
            view == bindings.deep_view(),
            !has_trigger_before(view, key, i as int),
        decreases upto - i,
    {
        assert(view[i as int] == bindings@[i as int].deep_view());
        if bindings[i].key == key {
            assert(has_trigger_before(view, key, upto as int));
            return true;
        }
        i += 1;
    }
    false
}

/// Checks that no trigger character is declared twice. Where one is, the
/// error holds the character of the first binding that repeats an earlier
/// one.
pub fn validate(bindings: &Vec<Keybinding>) -> (checked: Result<(), AppError>)
    ensures
        checked is Ok <==> unique_triggers(bindings.deep_view()),
        checked matches Err(error) ==> exists|j: int|
            {
                &&& #[trigger] repeats_earlier(bindings.deep_view(), j)
                &&& forall|k: int| 0 <= k < j ==> !repeats_earlier(bindings.deep_view(), k)
                &&& error == AppError::ConfigurationError(bindings.deep_view()[j].key)
            },
{
    let ghost view = bindings.deep_view();
    let mut j: usize = 0;
    while j < bindings.len()
        invariant
            j <= bindings.len(),
            view == bindings.deep_view(),
            forall|k: int| 0 <= k < j ==> !repeats_earlier(view, k),
        decreases bindings.len() - j,
    {
        assert(view[j as int] == bindings@[j as int].deep_view());
        if triggered_before(bindings, bindings[j].key, j) {
            assert(repeats_earlier(view, j as int));
            proof {
                let i = choose|i: int| 0 <= i < j && i < view.len() && (#[trigger] view[i]).key == view[j as int].key;
                assert(view[i].key == view[j as int].key);
            }
            return Err(AppError::ConfigurationError(bindings[j].key));
        }
        j += 1;
    }
    proof {
        assert forall|a: int, b: int| 0 <= a < b < view.len() implies (#[trigger] view[a]).key != (
        #[trigger] view[b]).key by {
            assert(!repeats_earlier(view, b));
        }
    }
    Ok(())
}

/// A key resolves to an action exactly when some binding is triggered by
/// it, and the binding that decides is the first such one.
pub proof fn lemma_resolve_first_match(bindings: Seq<KeybindingView>, key: char)
    ensures
        resolve(bindings, key) is Some <==> has_trigger(bindings, key),
        resolve(bindings, key) matches Some(action) ==> exists|i: int|
            {
                &&& 0 <= i < bindings.len()
                &&& (#[trigger] bindings[i]).key == key
                &&& bindings[i].action == action
                &&& !has_trigger_before(bindings, key, i)
            },
{
    lemma_resolve_from(bindings, key, 0);
}

proof fn lemma_resolve_from(bindings: Seq<KeybindingView>, key: char, start: int)
    requires
        0 <= start <= bindings.len(),
        !has_trigger_before(bindings, key, start),
    ensures
        resolve_from(bindings, key, start) is Some <==> has_trigger(bindings, key),
        resolve_from(bindings, key, start) matches Some(action) ==> exists|i: int|
            {
                &&& 0 <= i < bindings.len()
                &&& (#[trigger] bindings[i]).key == key
                &&& bindings[i].action == action
                &&& !has_trigger_before(bindings, key, i)
            },
    decreases bindings.len() - start,
{
    if start < bindings.len() {
        if bindings[start].key == key {
            assert(has_trigger(bindings, key));
        } else {
            assert(!has_trigger_before(bindings, key, start + 1)) by {
                if has_trigger_before(bindings, key, start + 1) {
                    let i = choose|i: int| 0 <= i < start + 1 && i < bindings.len() && (#[trigger] bindings[i]).key == key;
                    assert(i < start);
                    assert(has_trigger_before(bindings, key, start));
                }
            }
            lemma_resolve_from(bindings, key, start + 1);
        }
    }
}

/// What a screen offers the keyboard. Asked anew on every key press, since
/// a screen may bind differently as its state changes.
pub trait Keybindings: Lifecycle {
    /// The bindings that are valid for the screen as it is now.
    spec fn bindings(&self) -> Seq<KeybindingView>;

    /// The bindings of a screen that has been initialised. No trigger
    /// character occurs twice among them.
    fn keybindings(&self) -> (list: Vec<Keybinding>)
        requires
            self.initialized(),
        ensures
            list.deep_view() == self.bindings(),
            unique_triggers(list.deep_view()),
    ;
}

} // verus!
