//! Selection of what the menu renders from a resolved configuration.
//!
//! The first three slots always yield a button, labelled with the slot's
//! label or a placeholder.  The remaining slots yield a button only when
//! both their label and their command are present; a custom slot missing
//! either contributes nothing.

use vstd::prelude::*;

use crate::config::{Action, Config};

verus! {

/// The label a default button shows: the slot's label, or a placeholder
/// when it has none.
pub open spec fn label_or_unnamed(a: Action) -> Seq<char> {
    match a.label {
        Some(l) => l@,
        None => "unnamed"@,
    }
}

/// The labelled commands the custom rows of `s` yield, in slot order:
/// one entry per action with both a label and a command.
pub open spec fn custom_buttons_spec(s: Seq<Action>) -> Seq<(Seq<char>, Seq<Seq<char>>)>
    decreases s.len(),
{
    if s.len() == 0 {
        Seq::empty()
    } else {
        let init = custom_buttons_spec(s.drop_last());
        let a = s.last();
        if a.renderable() {
            init.push((a.label_view()->0, a.command_view()->0))
        } else {
            init
        }
    }
}

/// The labels of the three always-present default buttons, in slot order,
/// with a missing label replaced by the placeholder.
pub fn get_default_button_labels(config: &Config) -> (r: Vec<String>)
    requires
        config.wf(),
    ensures
        r@.len() == 3,
        forall|i: int| 0 <= i < 3 ==> r.deep_view()[i] == label_or_unnamed(#[trigger] config.actions@[i]),
{
    let mut labels: Vec<String> = Vec::new();
    let mut i: usize = 0;
    while i < 3
        invariant
            config.wf(),
            i <= 3,
            labels@.len() == i,
            forall|j: int|
                0 <= j < i ==> labels.deep_view()[j] == label_or_unnamed(
                    #[trigger] config.actions@[j],
                ),
        decreases 3 - i,
    {
        let text: String = match &config.actions[i].label {
            Some(l) => l.clone(),
            None => "unnamed".to_owned(),
        };
        labels.push(text);
        i += 1;
    }
    labels
}

/// The labelled commands of the custom buttons, in slot order: one entry
/// per custom slot with both a label and a command; a custom slot with
/// only one of the two yields nothing.
pub fn get_custom_buttons(config: &Config) -> (r: Vec<(String, Vec<String>)>)
    requires
        config.wf(),
    ensures
        r.deep_view() == custom_buttons_spec(config.actions@.subrange(3, 6)),
{
    let mut buttons: Vec<(String, Vec<String>)> = Vec::new();
    let mut i: usize = 3;
    while i < 6
        invariant
            config.wf(),
            3 <= i <= 6,
            buttons.deep_view() == custom_buttons_spec(config.actions@.subrange(3, i as int)),
        decreases 6 - i,
    {
        let ghost prefix = config.actions@.subrange(3, i as int);
        let ghost extended = config.actions@.subrange(3, i as int + 1);
        proof {
            assert(extended.drop_last() =~= prefix);
            assert(extended.last() == config.actions@[i as int]);
        }
        match (&config.actions[i].label, &config.actions[i].command) {
            (Some(label), Some(command)) => {
                let entry = (label.clone(), command.clone());
                proof {
                    lemma_vec_string_clone_view(*command, entry.1);
                    assert(entry.deep_view() == (
                        config.actions@[i as int].label_view()->0,
                        config.actions@[i as int].command_view()->0,
                    ));
                }
                buttons.push(entry);
                proof {
                    assert(buttons.deep_view() =~= custom_buttons_spec(extended));
                }
            },
            _ => {
                proof {
                    assert(!config.actions@[i as int].renderable());
                    assert(buttons.deep_view() =~= custom_buttons_spec(extended));
                }
            },
        }
        i += 1;
    }
    buttons
}

/// A clone of a vector of strings reads back the same characters.
proof fn lemma_vec_string_clone_view(v: Vec<String>, c: Vec<String>)
    requires
        cloned(v, c),
    ensures
        c.deep_view() == v.deep_view(),
{
    assert(c.deep_view() =~= v.deep_view());
}

/// A custom slot missing its label or its command never yields a button:
/// blanking such a slot entirely changes nothing in what is rendered.
pub proof fn lemma_custom_slot_needs_both(s: Seq<Action>, i: int)
    requires
        0 <= i < s.len(),
        !s[i].renderable(),
    ensures
        custom_buttons_spec(s) == custom_buttons_spec(
            s.update(i, Action { command: None, label: None }),
        ),
    decreases s.len(),
{
    let blanked = s.update(i, Action { command: None, label: None });
    if i == s.len() - 1 {
        assert(blanked.drop_last() =~= s.drop_last());
    } else {
        assert(blanked.drop_last() =~= s.drop_last().update(
            i,
            Action { command: None, label: None },
        ));
        lemma_custom_slot_needs_both(s.drop_last(), i);
    }
}

/// When no custom slot has both a label and a command, no custom button
/// is rendered at all.
pub proof fn lemma_no_renderable_no_buttons(s: Seq<Action>)
    requires
        forall|i: int| 0 <= i < s.len() ==> !(#[trigger] s[i]).renderable(),
    ensures
        custom_buttons_spec(s) == Seq::<(Seq<char>, Seq<Seq<char>>)>::empty(),
    decreases s.len(),
{
    if s.len() > 0 {
        lemma_no_renderable_no_buttons(s.drop_last());
    }
}

} // verus!
