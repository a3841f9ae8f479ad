//! The conversation history: an ordered, append-only log of role-tagged
//! messages, starting with exactly one system message (the persona
//! preamble). It is the context sent to the completion endpoint.

use vstd::prelude::*;
use vstd::string::StringExecFns;

verus! {

/// Who a message is from.
#[derive(Clone, Copy, PartialEq, Eq, Structural, Debug)]
pub enum Role {
    System,
    User,
    Assistant,
}

/// One entry of the conversation history. Immutable once created.
pub struct Message {
    pub role: Role,
    pub content: String,
}

/// The mathematical image of a message: its role and its characters.
pub ghost struct MessageView {
    pub role: Role,
    pub content: Seq<char>,
}

impl View for Message {
    type V = MessageView;

    open spec fn view(&self) -> MessageView {
        MessageView { role: self.role, content: self.content@ }
    }
}

/// The persona preamble: the single system message every history starts
/// with.
pub open spec fn spec_persona() -> Seq<char> {
    "Eres un asistente especializado en manipular archivos Excel. Puedes analizar datos, crear gráficos, realizar cálculos y generar informes basados en datos de Excel. Responde de manera concisa y enfocada en la tarea solicitada."@
}

/// The ordered log of messages. It grows only by appending; nothing is ever
/// truncated or reordered.
pub struct History {
    msgs: Vec<Message>,
}

impl View for History {
    type V = Seq<MessageView>;

    closed spec fn view(&self) -> Seq<MessageView> {
        self.msgs@.map_values(|m: Message| m@)
    }
}

impl History {
    /// A history is well formed when it starts with a system message.
    pub open spec fn wf(&self) -> bool {
        self@.len() >= 1 && self@[0].role == Role::System
    }

    /// A fresh history: exactly the persona preamble.
    pub fn new() -> (h: History)
        ensures
            h.wf(),
            h@ =~= seq![MessageView { role: Role::System, content: spec_persona() }],
    {
        let m = Message {
            role: Role::System,
            content: String::from_str(
                "Eres un asistente especializado en manipular archivos Excel. Puedes analizar datos, crear gráficos, realizar cálculos y generar informes basados en datos de Excel. Responde de manera concisa y enfocada en la tarea solicitada.",
            ),
        };
        let mut msgs: Vec<Message> = Vec::new();
        msgs.push(m);
        let h = History { msgs };
        proof {
            assert(h@ =~= seq![
                MessageView { role: Role::System, content: spec_persona() },
            ]);
        }
        h
    }

    /// How many messages the history holds.
    pub fn len(&self) -> (n: usize)
        ensures
            n == self@.len(),
    {
        self.msgs.len()
    }

    /// The role of message `i`.
    pub fn role_at(&self, i: usize) -> (r: Role)
        requires
            i < self@.len(),
        ensures
            r == self@[i as int].role,
    {
        self.msgs[i].role
    }

    /// The content of message `i`.
    pub fn content_at(&self, i: usize) -> (c: &String)
        requires
            i < self@.len(),
        ensures
            c@ == self@[i as int].content,
    {
        &self.msgs[i].content
    }

    /// Appends one message; everything already in the log stays where it
    /// was.
    pub fn push(&mut self, role: Role, content: String)
        ensures
            final(self)@ =~= old(self)@.push(
                MessageView { role, content: content@ },
            ),
            old(self).wf() ==> final(self).wf(),
    {
        let ghost pre = self@;
        let ghost c = content@;
        self.msgs.push(Message { role, content });
        proof {
            assert(self@ =~= pre.push(MessageView { role, content: c }));
        }
    }
}

} // verus!
