//! Composition of a multi-turn conversation into the single prompt blob
//! the bridge hands to the native run entry point: each turn is prefixed
//! with a role tag, and the tagged turns are joined with line breaks.
//! This is a formatting convenience layered on top of the bridge, not a
//! property of the bridge itself.

use vstd::prelude::*;
use vstd::string::StringExecFns;
use crate::api_models::{ChatCompletionRequest, ChatCompletionRequestMessage, Role};
use crate::session::{join_messages, spec_join_lines, texts_of};

verus! {

/// The tag prepended to a turn authored by the given role.  Tool turns
/// carry no tag.
pub open spec fn spec_role_prefix(role: Role) -> Seq<char> {
    match role {
        Role::System => "<|System|>: "@,
        Role::User => "<|User|>: "@,
        Role::Assistant => "<|Assistant|>: "@,
        Role::Tool => Seq::empty(),
    }
}

/// The system tag registered with the native chat template: the system
/// role's prefix without its separator.
pub fn system_template() -> (r: String)
    ensures
        r@ == "<|System|>"@,
        spec_role_prefix(Role::System) == r@ + ": "@,
{
    proof {
        reveal_strlit("<|System|>");
        reveal_strlit(": ");
        reveal_strlit("<|System|>: ");
        assert("<|System|>: "@ =~= "<|System|>"@ + ": "@);
    }
    "<|System|>".to_owned()
}

/// The user tag registered with the native chat template: the user role's
/// prefix without its separator.
pub fn user_template() -> (r: String)
    ensures
        r@ == "<|User|>"@,
        spec_role_prefix(Role::User) == r@ + ": "@,
{
    proof {
        reveal_strlit("<|User|>");
        reveal_strlit(": ");
        reveal_strlit("<|User|>: ");
        assert("<|User|>: "@ =~= "<|User|>"@ + ": "@);
    }
    "<|User|>".to_owned()
}

/// The assistant tag registered with the native chat template: the
/// assistant role's prefix without its separator.
pub fn assistant_template() -> (r: String)
    ensures
        r@ == "<|Assistant|>"@,
        spec_role_prefix(Role::Assistant) == r@ + ": "@,
{
    proof {
        reveal_strlit("<|Assistant|>");
        reveal_strlit(": ");
        reveal_strlit("<|Assistant|>: ");
        assert("<|Assistant|>: "@ =~= "<|Assistant|>"@ + ": "@);
    }
    "<|Assistant|>".to_owned()
}

/// One turn rendered for the prompt blob: its role tag followed by its
/// text.
pub open spec fn spec_render_message(m: ChatCompletionRequestMessage) -> Seq<char> {
    spec_role_prefix(m.role) + m.content@
}

/// All turns of a conversation, rendered in order.
pub open spec fn spec_rendered(msgs: Seq<ChatCompletionRequestMessage>) -> Seq<Seq<char>> {
    msgs.map_values(|m: ChatCompletionRequestMessage| spec_render_message(m))
}

/// Renders one turn: its role tag followed by its text.
pub fn render_message(m: &ChatCompletionRequestMessage) -> (r: String)
    ensures
        r@ == spec_render_message(*m),
{
    let r = match m.role {
        Role::System => {
            let mut s = "<|System|>: ".to_owned();
            s.append(m.content.as_str());
            s
        },
        Role::User => {
            let mut s = "<|User|>: ".to_owned();
            s.append(m.content.as_str());
            s
        },
        Role::Assistant => {
            let mut s = "<|Assistant|>: ".to_owned();
            s.append(m.content.as_str());
            s
        },
        Role::Tool => m.content.clone(),
    };
    proof {
        assert(r@ =~= spec_render_message(*m));
    }
    r
}

/// Renders every turn of a conversation, in order.
pub fn render_chat_prompt(messages: &Vec<ChatCompletionRequestMessage>) -> (r: Vec<String>)
    ensures
        texts_of(r@) == spec_rendered(messages@),
{
    let mut r: Vec<String> = Vec::new();
    let mut i: usize = 0;
    while i < messages.len()
        invariant
            i <= messages.len(),
            r@.len() == i,
            forall|j: int| 0 <= j < i ==> r@[j]@ == spec_render_message(messages@[j]),
        decreases messages.len() - i,
    {
        let rendered = render_message(&messages[i]);
        r.push(rendered);
        i = i + 1;
    }
    proof {
        assert(texts_of(r@) =~= spec_rendered(messages@));
    }
    r
}

/// The whole prompt blob of a chat request: every turn tagged with its
/// role, joined with line breaks, in conversation order.
pub fn chat_prompt(request: &ChatCompletionRequest) -> (r: String)
    ensures
        r@ == spec_join_lines(spec_rendered(request.messages@)),
{
    let rendered = render_chat_prompt(&request.messages);
    join_messages(&rendered)
}

} // verus!
