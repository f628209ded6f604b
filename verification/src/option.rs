//! Option nodes of a command payload, and their mathematical model.

use vstd::prelude::*;
use serenity::model::channel::Attachment;
use serenity::model::channel::PartialChannel;
use serenity::model::guild::PartialMember;
use serenity::model::guild::Role;
use serenity::model::user::User;

verus! {

/// The declared kind of an option node.
#[derive(Clone, Copy, Debug, PartialEq, Eq, Hash, Structural)]
pub enum OptionKind {
    SubCommand,
    SubCommandGroup,
    String,
    Integer,
    Boolean,
    User,
    Channel,
    Role,
    Mentionable,
    Number,
    Attachment,
    Unknown,
}

/// The value that a leaf option resolved to.
#[derive(Debug)]
pub enum ResolvedValue {
    String(String),
    Integer(i64),
    Boolean(bool),
    User(User, Option<PartialMember>),
    Channel(PartialChannel),
    Role(Role),
    /// A double-precision number, held as its IEEE 754 bit pattern.
    Number(u64),
    Attachment(Attachment),
}

/// A named node of the option tree.
#[derive(Debug)]
pub struct CommandOption {
    pub name: String,
    pub kind: OptionKind,
    /// The nested options of a subcommand or a subcommand group.
    pub options: Vec<CommandOption>,
    /// The resolved value of a leaf option.
    pub resolved: Option<ResolvedValue>,
}

/// What a `ResolvedValue` stands for.
pub enum ResolvedValueView {
    String(Seq<char>),
    Integer(i64),
    Boolean(bool),
    User(User, Option<PartialMember>),
    Channel(PartialChannel),
    Role(Role),
    Number(u64),
    Attachment(Attachment),
}

/// What a `CommandOption` stands for.
pub struct CommandOptionView {
    pub name: Seq<char>,
    pub kind: OptionKind,
    pub options: Seq<CommandOptionView>,
    pub resolved: Option<ResolvedValueView>,
}

impl View for ResolvedValue {
    type V = ResolvedValueView;

    open spec fn view(&self) -> ResolvedValueView {
        match *self {
            ResolvedValue::String(text) => ResolvedValueView::String(text@),
            ResolvedValue::Integer(number) => ResolvedValueView::Integer(number),
            ResolvedValue::Boolean(flag) => ResolvedValueView::Boolean(flag),
            ResolvedValue::User(user, member) => ResolvedValueView::User(user, member),
            ResolvedValue::Channel(channel) => ResolvedValueView::Channel(channel),
            ResolvedValue::Role(role) => ResolvedValueView::Role(role),
            ResolvedValue::Number(bits) => ResolvedValueView::Number(bits),
            ResolvedValue::Attachment(attachment) => ResolvedValueView::Attachment(attachment),
        }
    }
}

impl CommandOption {
    /// The node as a mathematical tree: the name as a sequence of
    /// characters, the children as a sequence of trees. This is what `@`
    /// yields; the recursion stands here, in a function of the type itself.
    pub open spec fn model(self) -> CommandOptionView
        decreases self,
    {
        CommandOptionView {
            name: self.name@,
            kind: self.kind,
            options: Seq::new(
                self.options@.len(),
                |i: int|
                    if 0 <= i < self.options@.len() {
                        self.options@[i].model()
                    } else {
                        arbitrary()
                    },
            ),
            resolved: match self.resolved {
                Some(value) => Some(value@),
                None => None,
            },
        }
    }
}

impl View for CommandOption {
    type V = CommandOptionView;

    open spec fn view(&self) -> CommandOptionView {
        self.model()
    }
}

impl DeepView for ResolvedValue {
    type V = ResolvedValueView;

    open spec fn deep_view(&self) -> ResolvedValueView {
        self@
    }
}

impl DeepView for CommandOption {
    type V = CommandOptionView;

    open spec fn deep_view(&self) -> CommandOptionView {
        self@
    }
}

/// The model of the children of `option` is the sequence of the models of
/// its children.
pub proof fn lemma_children_model(option: &CommandOption)
    ensures
        option@.options == option.options.deep_view(),
{
    assert(option@.options =~= option.options.deep_view());
}

/// The kinds that nest further options instead of carrying a value.
pub open spec fn is_structural(kind: OptionKind) -> bool {
    kind == OptionKind::SubCommand || kind == OptionKind::SubCommandGroup
}

impl CommandOptionView {
    /// Every option of the tree that is neither a subcommand nor a
    /// subcommand group carries a resolved value.
    pub open spec fn leaves_resolved(self) -> bool
        decreases self,
    {
        &&& !is_structural(self.kind) ==> self.resolved is Some
        &&& forall|i: int|
            0 <= i < self.options.len() ==> (#[trigger] self.options[i]).leaves_resolved()
    }
}

impl Clone for ResolvedValue {
    fn clone(&self) -> (copy: Self)
        ensures
            copy@ == self@,
    {
        match self {
            ResolvedValue::String(text) => ResolvedValue::String(text.clone()),
            ResolvedValue::Integer(number) => ResolvedValue::Integer(*number),
            ResolvedValue::Boolean(flag) => ResolvedValue::Boolean(*flag),
            ResolvedValue::User(user, member) => {
                let member_copy = match member {
                    Some(member) => Some(member.clone()),
                    None => None,
                };
                ResolvedValue::User(user.clone(), member_copy)
            },
            ResolvedValue::Channel(channel) => ResolvedValue::Channel(channel.clone()),
            ResolvedValue::Role(role) => ResolvedValue::Role(role.clone()),
            ResolvedValue::Number(bits) => ResolvedValue::Number(*bits),
            ResolvedValue::Attachment(attachment) => ResolvedValue::Attachment(attachment.clone()),
        }
    }
}

/// Copies of `options`, in the same order.
pub fn clone_options(options: &Vec<CommandOption>) -> (copies: Vec<CommandOption>)
    ensures
        copies.deep_view() == options.deep_view(),
    decreases options,
{
    let mut copies: Vec<CommandOption> = Vec::new();
    let mut i: usize = 0;
    while i < options.len()
        invariant
            i <= options.len(),
            copies.len() == i,
            forall|j: int| 0 <= j < i ==> copies[j]@ == options[j]@,
        decreases options.len() - i,
    {
        copies.push(options[i].clone());
        i += 1;
    }
    assert(copies.deep_view() =~= options.deep_view());
    copies
}

impl Clone for CommandOption {
    fn clone(&self) -> (copy: Self)
        ensures
            copy@ == self@,
        decreases self,
    {
        let options = clone_options(&self.options);
        let resolved = match &self.resolved {
            Some(value) => Some(value.clone()),
            None => None,
        };
        let copy = CommandOption { name: self.name.clone(), kind: self.kind, options, resolved };
        proof {
            lemma_children_model(&copy);
            lemma_children_model(self);
        }
        copy
    }
}

} // verus!
