//! The keystroke injector's plan: which modifier keys to release first, and
//! the exact character sequence to replay, in input order.

use vstd::prelude::*;

use crate::text::str_chars;

verus! {

/// A modifier key the assistant releases before typing, so the injected
/// characters are read as literal input and not as shortcuts.
#[derive(Clone, Copy, PartialEq, Eq, Structural, Debug)]
pub enum ModifierKey {
    Control,
    Shift,
}

/// One finalize request's injection, ready to replay: release the listed
/// modifiers, then emit each character as a synthetic key event, pausing the
/// given number of milliseconds between characters.
pub struct InjectionPlan {
    pub releases: Vec<ModifierKey>,
    pub keys: Vec<char>,
    pub inter_key_delay_ms: u64,
}

/// The ghost image of an [`InjectionPlan`].
pub struct PlanView {
    pub releases: Seq<ModifierKey>,
    pub keys: Seq<char>,
    pub inter_key_delay_ms: u64,
}

impl View for InjectionPlan {
    type V = PlanView;

    open spec fn view(&self) -> PlanView {
        PlanView {
            releases: self.releases@,
            keys: self.keys@,
            inter_key_delay_ms: self.inter_key_delay_ms,
        }
    }
}

/// The plan for a given text: release Control then Shift, then type the
/// text's characters exactly, in their given order.
pub open spec fn plan_spec(text: Seq<char>, inter_key_delay_ms: u64) -> PlanView {
    PlanView {
        releases: seq![ModifierKey::Control, ModifierKey::Shift],
        keys: text,
        inter_key_delay_ms,
    }
}

/// Law: the planned key events are the text's characters exactly — the same
/// length, and the same character at every position — so nothing is
/// duplicated, dropped or reordered, whatever the text holds.
pub proof fn lemma_plan_preserves_character_order(text: Seq<char>, inter_key_delay_ms: u64)
    ensures
        plan_spec(text, inter_key_delay_ms).keys.len() == text.len(),
        forall|i: int|
            0 <= i < text.len() ==> plan_spec(text, inter_key_delay_ms).keys[i] == text[i],
{
}

/// Decompose the final text into its injection plan. The planned key events
/// are the text's characters with no duplication, drop or reordering.
pub fn plan_injection(text: &str, inter_key_delay_ms: u64) -> (p: InjectionPlan)
    ensures
        p@ == plan_spec(text@, inter_key_delay_ms),
{
    let mut releases: Vec<ModifierKey> = Vec::new();
    releases.push(ModifierKey::Control);
    releases.push(ModifierKey::Shift);
    let keys = str_chars(text);
    let p = InjectionPlan { releases, keys, inter_key_delay_ms };
    proof {
        assert(p@.releases =~= plan_spec(text@, inter_key_delay_ms).releases);
    }
    p
}

} // verus!
